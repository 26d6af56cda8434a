use vstd::prelude::*;

verus! {

/// How a non-success HTTP status answer from the holiday service is reported.
#[derive(Clone, Copy, Debug, PartialEq, Eq, Structural)]
pub enum HttpFailure {
    BadRequest,
    NotFound,
    InternalServerError,
    ServiceUnavailable,
    Unexpected(u16),
}

/// The classification of an HTTP status code that is not a success.
pub open spec fn http_failure_of(status: u16) -> HttpFailure {
    if status == 400 {
        HttpFailure::BadRequest
    } else if status == 404 {
        HttpFailure::NotFound
    } else if status == 500 {
        HttpFailure::InternalServerError
    } else if status == 503 {
        HttpFailure::ServiceUnavailable
    } else {
        HttpFailure::Unexpected(status)
    }
}

/// Classifies an HTTP status code into the user-facing failure it stands for.
pub fn handle_http_error(status: u16) -> (r: HttpFailure)
    ensures
        r == http_failure_of(status),
{
    match status {
        400 => HttpFailure::BadRequest,
        404 => HttpFailure::NotFound,
        500 => HttpFailure::InternalServerError,
        503 => HttpFailure::ServiceUnavailable,
        _ => HttpFailure::Unexpected(status),
    }
}

/// How a failure to reach the holiday service is reported.
#[derive(Clone, Copy, Debug, PartialEq, Eq, Structural)]
pub enum TransportFailure {
    /// No connection could be made.
    Connect,
    /// The request timed out.
    Timeout,
    Other,
}

/// Classifies a transport failure: a failed connection first, then a timeout.
pub fn classify_transport(is_connect: bool, is_timeout: bool) -> (r: TransportFailure)
    ensures
        r == (if is_connect {
            TransportFailure::Connect
        } else if is_timeout {
            TransportFailure::Timeout
        } else {
            TransportFailure::Other
        }),
{
    if is_connect {
        TransportFailure::Connect
    } else if is_timeout {
        TransportFailure::Timeout
    } else {
        TransportFailure::Other
    }
}

} // verus!
