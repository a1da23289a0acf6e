//! The error value reported by store operations.

use vstd::prelude::*;
use vstd::string::*;

verus! {

/// A recoverable failure, carried as a human-readable message.
#[derive(Debug)]
pub struct TimerError {
    pub details: String,
}

impl TimerError {
    /// An error whose message is `msg`.
    pub fn new(msg: &str) -> (err: Self)
        ensures
            err.details@ == msg@,
    {
        Self { details: msg.to_owned() }
    }
}

} // verus!
