//! The mathematical model of a stopwatch.
//!
//! Instants and durations are natural numbers of nanoseconds. A duration never
//! exceeds [`limit`]: sums are capped there, so every operation is total.

use vstd::prelude::*;

verus! {

/// What a stopwatch is doing, derived from its two values.
#[derive(Clone, Copy, Debug, PartialEq, Eq, Structural)]
pub enum Status {
    /// Never started since construction or the last reset.
    Initial,
    /// A run is in progress.
    Running,
    /// Not running, with time gathered by earlier runs.
    Stopped,
}

/// The largest duration, in nanoseconds, that a stopwatch reports.
pub open spec fn limit() -> nat {
    0xffff_ffff_ffff_ffff_ffff_ffff_ffff_ffff
}

/// The time from `from` to `to`; zero where `to` lies before `from`.
pub open spec fn gap(from: nat, to: nat) -> nat {
    if from <= to {
        (to - from) as nat
    } else {
        0
    }
}

/// The sum of two durations, capped at [`limit`].
pub open spec fn capped_sum(a: nat, b: nat) -> nat {
    if a + b <= limit() {
        a + b
    } else {
        limit()
    }
}

/// A stopwatch as a pair of numbers.
pub struct Model {
    /// The instant at which the current run began; `None` while not running.
    pub pivot: Option<nat>,
    /// The time gathered by the runs that ended since the last reset.
    pub accumulated: nat,
}

impl Model {
    /// The stopwatch as constructed: not running, nothing gathered.
    pub open spec fn initial() -> Model {
        Model { pivot: None, accumulated: 0 }
    }

    pub open spec fn is_running(self) -> bool {
        self.pivot is Some
    }

    pub open spec fn status(self) -> Status {
        if self.pivot is Some {
            Status::Running
        } else if self.accumulated == 0 {
            Status::Initial
        } else {
            Status::Stopped
        }
    }

    /// The total at instant `now`: what was gathered, plus the run in progress.
    pub open spec fn elapsed_at(self, now: nat) -> nat {
        match self.pivot {
            Some(began) => capped_sum(self.accumulated, gap(began, now)),
            None => self.accumulated,
        }
    }

    /// The stopwatch after `start` at instant `now`. A running one is unchanged.
    pub open spec fn started_at(self, now: nat) -> Model {
        match self.pivot {
            Some(_) => self,
            None => Model { pivot: Some(now), accumulated: self.accumulated },
        }
    }

    /// The stopwatch after `stop` at instant `now`: the run in progress, if
    /// any, is folded into the gathered time.
    pub open spec fn stopped_at(self, now: nat) -> Model {
        Model { pivot: None, accumulated: self.elapsed_at(now) }
    }

    /// Both values are durations or instants that the executable stopwatch
    /// can hold: neither exceeds [`limit`].
    pub open spec fn bounded(self) -> bool {
        &&& self.accumulated <= limit()
        &&& self.pivot matches Some(began) ==> began <= limit()
    }
}

} // verus!
