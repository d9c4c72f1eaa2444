//! The decision of the event loop: what the code that the platform returns
//! from retrieving a message means for the loop.

use vstd::prelude::*;

verus! {

/// What retrieving the next message gave.
#[derive(Clone, Copy, Debug, PartialEq, Eq)]
pub enum Retrieval {
    /// The quit signal was seen: the loop ends with success.
    Quit,
    /// The retrieval itself failed: the loop ends with a failure.
    Failure,
    /// A message is there: it is dispatched and the loop goes on.
    Message,
}

/// The meaning of a retrieval code: zero is the quit signal, minus one a
/// failure, any other code a message.
pub open spec fn retrieval_of(code: i32) -> Retrieval {
    if code == 0 {
        Retrieval::Quit
    } else if code == -1 {
        Retrieval::Failure
    } else {
        Retrieval::Message
    }
}

/// Tells what a retrieval code means for the loop.
pub fn retrieval(code: i32) -> (outcome: Retrieval)
    ensures
        outcome == retrieval_of(code),
{
    if code == 0 {
        Retrieval::Quit
    } else if code == -1 {
        Retrieval::Failure
    } else {
        Retrieval::Message
    }
}

impl Retrieval {
    /// Whether the loop goes on after this retrieval: only after a message.
    pub fn continues(&self) -> (goes_on: bool)
        ensures
            goes_on <==> *self == Retrieval::Message,
    {
        match self {
            Retrieval::Message => true,
            _ => false,
        }
    }
}

} // verus!
