//! The failure taxonomy of the storage layer.

use vstd::prelude::*;

verus! {

/// Everything that can go wrong while reading or writing blobs.
#[derive(Clone, Copy, Debug, PartialEq, Eq, Structural)]
pub enum Error {
    /// No object is stored at the requested path.
    NotFound,
    /// The object's bytes would exceed the caller's size ceiling.
    SizeLimitExceeded,
    /// A network or protocol failure, or a successful response that lacks
    /// metadata required to assemble a blob.
    TransportError,
    /// A last-modified header that does not fit the expected layout.
    MalformedTimestamp,
    /// A batch still had failing blobs after the fixed number of attempts.
    RetryBudgetExhausted,
}

impl Error {
    /// A short diagnostic name for the error.
    pub fn describe(&self) -> (r: &'static str)
        ensures
            r@.len() > 0,
    {
        let s = match self {
            Error::NotFound => "not found",
            Error::SizeLimitExceeded => "size limit exceeded",
            Error::TransportError => "transport error",
            Error::MalformedTimestamp => "malformed timestamp",
            Error::RetryBudgetExhausted => "retry budget exhausted",
        };
        proof {
            reveal_strlit("not found");
            reveal_strlit("size limit exceeded");
            reveal_strlit("transport error");
            reveal_strlit("malformed timestamp");
            reveal_strlit("retry budget exhausted");
        }
        s
    }
}

} // verus!
