//! What holds of a stopwatch over several operations.
//!
//! Each law is stated over the [`Model`] that the contracts of the executable
//! operations are written in, so it holds of every stopwatch and of every
//! sequence of clock readings.

use crate::model::{capped_sum, gap, limit, Model, Status};
use vstd::prelude::*;

verus! {

/// The status is derived from the two values and from nothing else: running
/// exactly while a run has a beginning, initial exactly while there is neither
/// a run nor gathered time, stopped otherwise. A running stopwatch is never
/// initial.
pub proof fn status_is_derived(m: Model)
    ensures
        m.status() == Status::Running <==> m.pivot is Some,
        m.status() == Status::Initial <==> m.pivot is None && m.accumulated == 0,
        m.status() == Status::Stopped <==> m.pivot is None && m.accumulated > 0,
        Model::initial().status() == Status::Initial,
{
}

/// Between two readings with no operation in between, the later one is never
/// the smaller, whatever the state.
pub proof fn elapsed_never_decreases(m: Model, earlier: nat, later: nat)
    requires
        earlier <= later,
    ensures
        m.elapsed_at(earlier) <= m.elapsed_at(later),
{
}

/// While the stopwatch is not running, every reading is the time gathered.
pub proof fn elapsed_is_constant_while_not_running(m: Model, one: nat, other: nat)
    requires
        !m.is_running(),
    ensures
        m.elapsed_at(one) == m.accumulated,
        m.elapsed_at(one) == m.elapsed_at(other),
{
}

/// While the stopwatch is running and the total stays under the limit, two
/// readings differ by exactly the time between them: the later one is larger
/// as soon as any time has passed.
pub proof fn elapsed_grows_with_the_clock(m: Model, began: nat, earlier: nat, later: nat)
    requires
        m.pivot == Some(began),
        began <= earlier <= later,
        m.accumulated + (later - began) <= limit(),
    ensures
        m.elapsed_at(later) - m.elapsed_at(earlier) == later - earlier,
        earlier < later ==> m.elapsed_at(earlier) < m.elapsed_at(later),
{
}

/// No transition but a reset loses time: starting keeps the time gathered,
/// and stopping never makes it smaller.
pub proof fn gathered_time_is_kept(m: Model, now: nat)
    requires
        m.bounded(),
    ensures
        m.started_at(now).accumulated == m.accumulated,
        m.stopped_at(now).accumulated >= m.accumulated,
        m.elapsed_at(now) >= m.accumulated,
{
}

/// A stopwatch whose values fit the executable type keeps them so through
/// every start and stop at an instant that fits it.
pub proof fn bounds_are_kept(m: Model, now: nat)
    requires
        m.bounded(),
        now <= limit(),
    ensures
        m.started_at(now).bounded(),
        m.stopped_at(now).bounded(),
        m.elapsed_at(now) <= limit(),
{
}

/// A start on a stopwatch that is not running leaves it running, with what
/// it had gathered; a second start, at whatever instant, then changes
/// nothing: the run still counts from the first.
pub proof fn second_start_changes_nothing(m: Model, first: nat, second: nat)
    requires
        !m.is_running(),
    ensures
        m.started_at(first).status() == Status::Running,
        m.started_at(first).pivot == Some(first),
        m.started_at(first).accumulated == m.accumulated,
        m.started_at(first).started_at(second) == m.started_at(first),
{
}

/// A stop on a stopwatch that is not running changes nothing and reads the
/// time gathered.
pub proof fn stop_while_not_running_changes_nothing(m: Model, now: nat)
    requires
        !m.is_running(),
    ensures
        m.stopped_at(now) == m,
        m.elapsed_at(now) == m.accumulated,
{
}

/// After a stop the stopwatch is not running and holds the total that the
/// stop read; every later reading, and every later stop, gives that total
/// again.
pub proof fn stop_settles_the_total(m: Model, now: nat, later: nat)
    ensures
        !m.stopped_at(now).is_running(),
        m.stopped_at(now).accumulated == m.elapsed_at(now),
        m.stopped_at(now).elapsed_at(later) == m.elapsed_at(now),
        m.stopped_at(now).stopped_at(later) == m.stopped_at(now),
{
}

/// Neither a start nor a stop moves the reading at the instant at which it
/// happens: the total is the same just before and just after.
pub proof fn start_and_stop_keep_the_reading(m: Model, now: nat)
    requires
        m.bounded(),
    ensures
        m.started_at(now).elapsed_at(now) == m.elapsed_at(now),
        m.stopped_at(now).elapsed_at(now) == m.elapsed_at(now),
{
}

/// A stopwatch started at one instant and stopped at a later one has
/// gathered the time between the two on top of what it had, up to the limit.
pub proof fn a_run_adds_its_length(m: Model, from: nat, to: nat)
    requires
        !m.is_running(),
        from <= to,
    ensures
        m.started_at(from).stopped_at(to).accumulated == capped_sum(
            m.accumulated,
            (to - from) as nat,
        ),
        m.accumulated + (to - from) <= limit() ==> m.started_at(from).stopped_at(to).accumulated
            == m.accumulated + (to - from),
{
}

/// A restart is a reset followed by a start: the stopwatch is left running
/// from the instant of the restart with nothing gathered, so a later reading
/// is the time since the restart, up to the limit.
pub proof fn restart_runs_from_zero(now: nat, later: nat)
    ensures
        Model::initial().started_at(now).status() == Status::Running,
        Model::initial().started_at(now).pivot == Some(now),
        Model::initial().started_at(now).accumulated == 0,
        Model::initial().started_at(now).elapsed_at(later) == capped_sum(0, gap(now, later)),
{
}

} // verus!
