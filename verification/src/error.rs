//! The one error of a stopwatch.

use vstd::prelude::*;

verus! {

/// The message carried by the error of starting a running stopwatch.
pub open spec fn already_running() -> Seq<char> {
    "Already running."@
}

/// An operation was asked of a stopwatch in a state that does not allow it.
/// The only such operation is `start` on a running stopwatch.
#[derive(Debug)]
pub struct StateError(String);

impl View for StateError {
    type V = Seq<char>;

    /// The message, as a sequence of characters.
    closed spec fn view(&self) -> Seq<char> {
        self.0@
    }
}

impl StateError {
    /// An error that carries `msg`.
    pub fn new(msg: &str) -> (e: Self)
        ensures
            e@ == msg@,
    {
        StateError(msg.to_owned())
    }

    /// The message.
    pub fn msg(&self) -> (m: &str)
        ensures
            m@ == self@,
    {
        self.0.as_str()
    }

    /// The message as an owned string, the text that this error displays as.
    pub fn format(&self) -> (text: String)
        ensures
            text@ == self@,
    {
        self.0.as_str().to_owned()
    }
}

} // verus!
