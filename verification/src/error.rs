//! Error type of the crate.

use vstd::prelude::*;

verus! {

/// What can go wrong in a call of the library.
#[derive(Debug)]
pub enum Error {
    /// A failure reported by the runtime, with its message.
    Runtime(String),
    /// A string handed to the C API holds a NUL byte at this byte offset.
    InteriorNul(usize),
    /// A string handed back by the C API is not valid UTF-8.
    InvalidUtf8,
}

/// Result type of the crate.
pub type Result<T> = core::result::Result<T, Error>;

impl Error {
    /// Whether this is a runtime failure whose message is `msg`.
    pub open spec fn is_runtime_with(self, msg: Seq<char>) -> bool {
        self matches Error::Runtime(m) && m@ == msg
    }

    /// Builds a runtime failure carrying `msg`.
    pub fn runtime(msg: &str) -> (e: Error)
        ensures
            e.is_runtime_with(msg@),
    {
        Error::Runtime(msg.to_owned())
    }
}

} // verus!
