//! The universal error shape of the DA client: a message together with a
//! retriability flag that callers must honor (a non-retriable error must not
//! be retried).

use vstd::prelude::*;

verus! {

/// An error surfaced by a DA backend. `is_retriable` tells transient
/// failures (transport, bad status, unparseable response) apart from
/// permanent ones (bad configuration, malformed request, exhausted search).
#[derive(Debug, Clone)]
pub struct DAError {
    pub message: String,
    pub is_retriable: bool,
}

impl DAError {
    /// Builds an error with exactly the given message and flag.
    pub fn new(message: &str, is_retriable: bool) -> (r: DAError)
        ensures
            r.message@ == message@,
            r.is_retriable == is_retriable,
    {
        DAError { message: message.to_owned(), is_retriable }
    }

    /// The message as an owned string, for callers that log or wrap it.
    pub fn message_string(&self) -> (r: String)
        ensures
            r@ == self.message@,
    {
        self.message.clone()
    }
}

} // verus!
