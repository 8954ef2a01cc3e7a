//! The closed error taxonomy of the client.

use vstd::prelude::*;

verus! {

/// Classification of a non-success HTTP status.
#[derive(Clone, Copy, Debug, PartialEq, Eq, Structural)]
pub enum StatusError {
    /// 401: the bearer token was rejected.
    InvalidCredentials,
    /// 429: too many requests.
    RateLimited,
    /// 403: the endpoint is not registered with the application.
    ApplicationNotRegistered,
    /// Any other non-success status.
    Unknown(u16),
}

/// A failed endpoint call.  Every failure is terminal for that call: nothing
/// is retried or recovered internally.
#[derive(Debug, PartialEq, Eq)]
pub enum ApiError {
    /// The transport failed before any status was obtained.
    Transport(String),
    /// A non-success HTTP status, classified.
    Status(StatusError),
    /// A success status whose payload did not match the expected shape;
    /// carries the endpoint path and the raw body for diagnosis.
    DecodeFailed { context: String, raw_body: String },
}

/// A projection asked of a response with no data buckets.
#[derive(Clone, Copy, Debug, PartialEq, Eq, Structural)]
pub enum ProjectionError {
    EmptySeries,
}

/// A status in the 2xx range.
pub open spec fn is_success_status(code: u16) -> bool {
    200 <= code < 300
}

/// The classification of a non-success status code.
pub open spec fn spec_classify_status(code: u16) -> StatusError {
    if code == 401 {
        StatusError::InvalidCredentials
    } else if code == 429 {
        StatusError::RateLimited
    } else if code == 403 {
        StatusError::ApplicationNotRegistered
    } else {
        StatusError::Unknown(code)
    }
}

pub fn status_is_success(code: u16) -> (r: bool)
    ensures
        r == is_success_status(code),
{
    200 <= code && code < 300
}

pub fn classify_status(code: u16) -> (r: StatusError)
    ensures
        r == spec_classify_status(code),
{
    match code {
        401 => StatusError::InvalidCredentials,
        429 => StatusError::RateLimited,
        403 => StatusError::ApplicationNotRegistered,
        _ => StatusError::Unknown(code),
    }
}

} // verus!
