//! What the API's rate limiter does with a request, given what reserving a
//! token for it gave; the token bucket itself is counted in floating point,
//! outside the library.

use vstd::prelude::*;

verus! {

/// The HTTP status of a request turned away for the rate.
pub const STATUS_TOO_MANY_REQUESTS: u16 = 429;

/// The HTTP status of a request whose token could not be reserved.
pub const STATUS_LIMIT_FAILED: u16 = 500;

/// What the limiter does with a request.
#[derive(Debug, Clone, Copy, PartialEq, Eq, Structural)]
pub enum LimitDecision {
    /// Hands the request on.
    Forward,
    /// Answers it with `status` and no body, with a `Retry-After` header of
    /// `retry_after_secs` seconds where that is given.
    Reject { status: u16, retry_after_secs: Option<u64> },
}

/// What the limiter does with a request, where reserving its token gave
/// `reserve`: an error (the request needs more tokens than a burst holds, or
/// the bucket could not be read), a token taken (`None`), or the seconds
/// until enough tokens are there.
pub fn limit_decision(reserve: Result<Option<u64>, ()>) -> (decision: LimitDecision)
    ensures
        match reserve {
            Err(_) => decision == LimitDecision::Reject { status: 500, retry_after_secs: None },
            Ok(None) => decision == LimitDecision::Forward,
            Ok(Some(secs)) => decision == LimitDecision::Reject {
                status: 429,
                retry_after_secs: Some(secs),
            },
        },
{
    match reserve {
        Err(_) => LimitDecision::Reject { status: STATUS_LIMIT_FAILED, retry_after_secs: None },
        Ok(None) => LimitDecision::Forward,
        Ok(Some(secs)) => LimitDecision::Reject {
            status: STATUS_TOO_MANY_REQUESTS,
            retry_after_secs: Some(secs),
        },
    }
}

} // verus!
