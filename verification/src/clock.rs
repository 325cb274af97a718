//! The monotonic clock of the host.
//!
//! Nothing here is proved: these are the two places where the library reads
//! the time. A reading depends on when it is taken, so no contract promises
//! anything of its value, and the stopwatch is verified for every value.

use std::time::Instant;
use vstd::prelude::*;

verus! {

/// `std::time::Instant`, carried through as an opaque value.
#[verifier::external_type_specification]
#[verifier::external_body]
pub struct ExInstant(std::time::Instant);

/// Calls `std::time::Instant::now`: the present reading of the monotonic
/// clock. Nothing is claimed of the value.
#[verifier::external_body]
pub(crate) fn present() -> Instant {
    Instant::now()
}

/// Calls `std::time::Instant::elapsed` on `origin` and gives the duration as
/// whole nanoseconds (`Duration::as_nanos`): the time that the monotonic clock
/// has counted since `origin` was read. Nothing is claimed of the value.
#[verifier::external_body]
pub(crate) fn nanos_since(origin: &Instant) -> u128 {
    origin.elapsed().as_nanos()
}

} // verus!
