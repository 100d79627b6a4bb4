//! The error returned by every fallible decision of the control plane.
use vstd::prelude::*;

verus! {

/// The HTTP-facing class of a refusal.
#[derive(Clone, Copy, Debug, PartialEq, Eq, Structural)]
pub enum ErrorKind {
    BadRequest,
    Unauthorized,
    NotFound,
    Conflict,
    Internal,
}

/// A refusal together with the operator-facing explanation.
#[derive(Debug)]
pub struct ApiError {
    pub kind: ErrorKind,
    pub message: String,
}

impl ApiError {
    pub fn new(kind: ErrorKind, message: &str) -> (e: ApiError)
        ensures
            e.kind == kind,
            e.message@ == message@,
    {
        ApiError { kind, message: message.to_owned() }
    }

    pub fn bad_request(message: &str) -> (e: ApiError)
        ensures
            e.kind == ErrorKind::BadRequest,
            e.message@ == message@,
    {
        ApiError::new(ErrorKind::BadRequest, message)
    }

    pub fn conflict(message: &str) -> (e: ApiError)
        ensures
            e.kind == ErrorKind::Conflict,
            e.message@ == message@,
    {
        ApiError::new(ErrorKind::Conflict, message)
    }

    pub fn unauthorized(message: &str) -> (e: ApiError)
        ensures
            e.kind == ErrorKind::Unauthorized,
            e.message@ == message@,
    {
        ApiError::new(ErrorKind::Unauthorized, message)
    }

    pub fn with_message(kind: ErrorKind, message: String) -> (e: ApiError)
        ensures
            e.kind == kind,
            e.message@ == message@,
    {
        ApiError { kind, message }
    }
}

/// Whether a result is a refusal of the given class.
pub open spec fn fails_with<T>(r: Result<T, ApiError>, kind: ErrorKind) -> bool {
    r matches Err(e) && e.kind == kind
}

} // verus!
