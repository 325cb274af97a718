//! A stopwatch that accumulates elapsed time over start/stop intervals.
//!
//! Time is measured in whole nanoseconds. The stopwatch itself is a small
//! state machine over two values, the instant at which the current run began
//! and the time gathered by the runs that have ended; its mathematical model
//! and the rules of every transition live in [`model`], the executable type in
//! [`stopwatch`], and the properties that relate several operations in
//! [`laws`].

pub mod clock;
pub mod error;
pub mod laws;
pub mod model;
pub mod stopwatch;

pub use error::StateError;
pub use model::{Model, Status};
pub use stopwatch::Chronograph;
