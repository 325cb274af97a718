//! The executable stopwatch.

use crate::clock::{nanos_since, present};
use crate::error::{already_running, StateError};
use crate::model::{capped_sum, gap, limit, Model, Status};
use std::time::Instant;
use vstd::prelude::*;

verus! {

/// A stopwatch: measures time over one or more runs, between `start` and
/// `stop`, and adds the runs up.
///
/// Every operation that needs the time comes in two forms. The form whose name
/// ends in `_at` takes the instant as an argument, in nanoseconds on any scale
/// that the caller keeps to, and its contract gives the outcome exactly. The
/// form without it reads the host's monotonic clock, in nanoseconds since this
/// stopwatch was made, and applies the first form to the reading: its contract
/// says what holds whatever the clock read.
pub struct Chronograph {
    origin: Instant,
    pivot: Option<u128>,
    duration: u128,
}

impl View for Chronograph {
    type V = Model;

    closed spec fn view(&self) -> Model {
        Model {
            pivot: match self.pivot {
                Some(began) => Some(began as nat),
                None => None,
            },
            accumulated: self.duration as nat,
        }
    }
}

/// `a + b`, capped at the largest value of the type.
fn add_capped(a: u128, b: u128) -> (sum: u128)
    ensures
        sum == capped_sum(a as nat, b as nat),
{
    match a.checked_add(b) {
        Some(sum) => sum,
        None => u128::MAX,
    }
}

/// The time from `from` to `to`, zero where `to` lies before `from`.
fn span(from: u128, to: u128) -> (length: u128)
    ensures
        length == gap(from as nat, to as nat),
{
    if from <= to {
        to - from
    } else {
        0
    }
}

impl Chronograph {
    /// The clock reading that this stopwatch's own readings are counted from.
    pub closed spec fn anchor(&self) -> Instant {
        self.origin
    }

    /// The values of an executable stopwatch are within the model's bounds.
    pub proof fn view_is_bounded(&self)
        ensures
            self@.bounded(),
    {
    }

    /// A stopwatch in its initial state: not running, nothing gathered.
    pub fn new() -> (fresh: Self)
        ensures
            fresh@ == Model::initial(),
    {
        Chronograph { origin: present(), pivot: None, duration: 0 }
    }

    /// Begins a run at `now` on a stopwatch that is not running. This cannot
    /// fail.
    fn begin(&mut self, now: u128) -> (base: u128)
        requires
            !old(self)@.is_running(),
        ensures
            base == old(self)@.accumulated,
            final(self)@ == old(self)@.started_at(now as nat),
            final(self)@.pivot == Some(now as nat),
            final(self).anchor() == old(self).anchor(),
    {
        self.pivot = Some(now);
        self.duration
    }

    /// Begins a run at instant `now` and gives the time gathered before it.
    /// A running stopwatch refuses, and is left as it was.
    pub fn start_at(&mut self, now: u128) -> (outcome: Result<u128, StateError>)
        ensures
            match outcome {
                Ok(base) => !old(self)@.is_running() && base == old(self)@.accumulated,
                Err(refusal) => old(self)@.is_running() && refusal@ == already_running(),
            },
            final(self)@ == old(self)@.started_at(now as nat),
            final(self).anchor() == old(self).anchor(),
    {
        if self.pivot.is_none() {
            Ok(self.begin(now))
        } else {
            Err(StateError::new("Already running."))
        }
    }

    /// [`Self::start_at`] the present reading of the clock. Whether it
    /// succeeds, and what it returns, does not depend on the clock.
    pub fn start(&mut self) -> (outcome: Result<u128, StateError>)
        ensures
            match outcome {
                Ok(base) => !old(self)@.is_running() && base == old(self)@.accumulated,
                Err(refusal) => old(self)@.is_running() && refusal@ == already_running(),
            },
            exists|now: nat| now <= limit() && final(self)@ == #[trigger] old(self)@.started_at(now),
            old(self)@.is_running() ==> final(self)@ == old(self)@,
            final(self)@.is_running(),
            final(self)@.accumulated == old(self)@.accumulated,
            final(self).anchor() == old(self).anchor(),
    {
        let now = nanos_since(&self.origin);
        self.start_at(now)
    }

    /// Ends the run in progress at instant `now`, adds its length to the time
    /// gathered, and gives the new total. A stopwatch that is not running is
    /// left as it was and gives what it gathered: this is no error.
    pub fn stop_at(&mut self, now: u128) -> (total: u128)
        ensures
            total == old(self)@.elapsed_at(now as nat),
            final(self)@ == old(self)@.stopped_at(now as nat),
            !old(self)@.is_running() ==> final(self)@ == old(self)@ && total == old(self)@.accumulated,
            final(self).anchor() == old(self).anchor(),
    {
        if let Some(began) = self.pivot {
            self.duration = add_capped(self.duration, span(began, now));
            self.pivot = None;
        }
        self.duration
    }

    /// [`Self::stop_at`] the present reading of the clock. The stopwatch ends
    /// not running, and holds the total that is returned.
    pub fn stop(&mut self) -> (total: u128)
        ensures
            exists|now: nat|
                now <= limit() && total == #[trigger] old(self)@.elapsed_at(now) && final(self)@
                    == old(self)@.stopped_at(now),
            !old(self)@.is_running() ==> final(self)@ == old(self)@ && total == old(self)@.accumulated,
            !final(self)@.is_running(),
            final(self)@.accumulated == total,
            total >= old(self)@.accumulated,
            final(self).anchor() == old(self).anchor(),
    {
        let now = nanos_since(&self.origin);
        self.stop_at(now)
    }

    /// The total at instant `now`: the time gathered, plus the length of the
    /// run in progress, if there is one.
    pub fn elapsed_at(&self, now: u128) -> (total: u128)
        ensures
            total == self@.elapsed_at(now as nat),
    {
        if let Some(began) = self.pivot {
            add_capped(self.duration, span(began, now))
        } else {
            self.duration
        }
    }

    /// [`Self::elapsed_at`] the present reading of the clock. A stopwatch that
    /// is not running gives what it gathered, whatever the clock reads.
    pub fn elapsed(&self) -> (total: u128)
        ensures
            exists|now: nat| now <= limit() && total == #[trigger] self@.elapsed_at(now),
            !self@.is_running() ==> total == self@.accumulated,
            total >= self@.accumulated,
    {
        let now = nanos_since(&self.origin);
        self.elapsed_at(now)
    }

    /// The total at instant `now`, folding in the run in progress, which the
    /// stopwatch is then reset by: it ends not running, with nothing gathered.
    pub fn reset_at(&mut self, now: u128) -> (total: u128)
        ensures
            total == old(self)@.elapsed_at(now as nat),
            final(self)@ == Model::initial(),
            final(self).anchor() == old(self).anchor(),
    {
        let total = match self.pivot {
            Some(began) => add_capped(self.duration, span(began, now)),
            None => self.duration,
        };
        self.duration = 0;
        self.pivot = None;
        total
    }

    /// [`Self::reset_at`] the present reading of the clock. A stopwatch that
    /// is not running gives what it gathered, whatever the clock reads.
    pub fn reset(&mut self) -> (total: u128)
        ensures
            exists|now: nat| now <= limit() && total == #[trigger] old(self)@.elapsed_at(now),
            !old(self)@.is_running() ==> total == old(self)@.accumulated,
            total >= old(self)@.accumulated,
            final(self)@ == Model::initial(),
            final(self).anchor() == old(self).anchor(),
    {
        let now = nanos_since(&self.origin);
        self.reset_at(now)
    }

    /// Resets at instant `now` and begins a new run at the same instant: gives
    /// the total as [`Self::reset_at`] does, and leaves the stopwatch running
    /// from `now` with nothing gathered.
    pub fn restart_at(&mut self, now: u128) -> (total: u128)
        ensures
            total == old(self)@.elapsed_at(now as nat),
            final(self)@ == Model::initial().started_at(now as nat),
            final(self).anchor() == old(self).anchor(),
    {
        let total = self.reset_at(now);
        self.begin(now);
        total
    }

    /// [`Self::restart_at`] the present reading of the clock.
    pub fn restart(&mut self) -> (total: u128)
        ensures
            exists|now: nat|
                now <= limit() && total == #[trigger] old(self)@.elapsed_at(now) && final(self)@
                    == Model::initial().started_at(now),
            !old(self)@.is_running() ==> total == old(self)@.accumulated,
            total >= old(self)@.accumulated,
            final(self)@.is_running(),
            final(self)@.accumulated == 0,
            final(self).anchor() == old(self).anchor(),
    {
        let now = nanos_since(&self.origin);
        self.restart_at(now)
    }

    /// What the stopwatch is doing, derived from its two values.
    pub fn state(&self) -> (status: Status)
        ensures
            status == self@.status(),
    {
        if self.pivot.is_some() {
            Status::Running
        } else if self.duration == 0 {
            Status::Initial
        } else {
            Status::Stopped
        }
    }

    /// The instant at which the run in progress began, if there is one.
    pub fn pivot(&self) -> (began: Option<u128>)
        ensures
            match began {
                Some(instant) => self@.pivot == Some(instant as nat),
                None => self@.pivot is None,
            },
    {
        self.pivot
    }

    /// The time gathered by the runs that have ended since the last reset.
    pub fn accumulated(&self) -> (gathered: u128)
        ensures
            gathered == self@.accumulated,
    {
        self.duration
    }
}

impl Default for Chronograph {
    /// The same as [`Chronograph::new`].
    fn default() -> (fresh: Self)
        ensures
            fresh@ == Model::initial(),
    {
        Chronograph::new()
    }
}

} // verus!
