//! The error taxonomy every endpoint call can surface.

use vstd::prelude::*;

verus! {

/// What can go wrong on one request/response round trip.
///
/// None of these is recovered internally: the pipeline hands the error to
/// the caller unchanged, who can then decide to retry, abort or log.
#[derive(Debug, Clone, PartialEq)]
pub enum LTAError {
    /// Transport-level failure reaching the upstream host (timeout,
    /// connection refused, ...), with the transport's own message.
    NetworkError(String),
    /// The upstream service answered with a non-success HTTP status;
    /// carries the status code and the response body.
    HttpStatusError(u16, String),
    /// The response body did not match the expected wire shape.
    DeserializationError,
}

/// Result alias used across the crate.
pub type LTAResult<T> = Result<T, LTAError>;

} // verus!
