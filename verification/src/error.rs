//! The error that every request handler answers with: an HTTP status, a
//! machine-readable code and a message.
use vstd::prelude::*;

verus! {

/// The kinds of error the service reports; each has one HTTP status and one code.
#[derive(Clone, Copy, Debug, PartialEq, Eq, Structural)]
pub enum ApiErrorKind {
    BadRequest,
    Unauthorized,
    NotFound,
    Conflict,
    Internal,
    ServiceUnavailable,
    NotImplemented,
}

impl ApiErrorKind {
    pub open spec fn spec_status(self) -> u16 {
        match self {
            ApiErrorKind::BadRequest => 400,
            ApiErrorKind::Unauthorized => 401,
            ApiErrorKind::NotFound => 404,
            ApiErrorKind::Conflict => 409,
            ApiErrorKind::Internal => 500,
            ApiErrorKind::ServiceUnavailable => 503,
            ApiErrorKind::NotImplemented => 501,
        }
    }

    pub open spec fn spec_code(self) -> Seq<char> {
        match self {
            ApiErrorKind::BadRequest => "bad_request"@,
            ApiErrorKind::Unauthorized => "unauthorized"@,
            ApiErrorKind::NotFound => "not_found"@,
            ApiErrorKind::Conflict => "conflict"@,
            ApiErrorKind::Internal => "internal_error"@,
            ApiErrorKind::ServiceUnavailable => "service_unavailable"@,
            ApiErrorKind::NotImplemented => "not_implemented"@,
        }
    }

    /// The HTTP status code of this kind of error.
    pub fn status(&self) -> (r: u16)
        ensures
            r == self.spec_status(),
    {
        match self {
            ApiErrorKind::BadRequest => 400,
            ApiErrorKind::Unauthorized => 401,
            ApiErrorKind::NotFound => 404,
            ApiErrorKind::Conflict => 409,
            ApiErrorKind::Internal => 500,
            ApiErrorKind::ServiceUnavailable => 503,
            ApiErrorKind::NotImplemented => 501,
        }
    }

    /// The machine-readable code of this kind of error.
    pub fn code(&self) -> (r: &'static str)
        ensures
            r@ == self.spec_code(),
    {
        match self {
            ApiErrorKind::BadRequest => "bad_request",
            ApiErrorKind::Unauthorized => "unauthorized",
            ApiErrorKind::NotFound => "not_found",
            ApiErrorKind::Conflict => "conflict",
            ApiErrorKind::Internal => "internal_error",
            ApiErrorKind::ServiceUnavailable => "service_unavailable",
            ApiErrorKind::NotImplemented => "not_implemented",
        }
    }
}

/// An error answer: its kind and a human-readable message.
#[derive(Clone, Debug)]
pub struct ApiError {
    pub kind: ApiErrorKind,
    pub message: String,
}

/// `e` is an error of kind `kind` whose message is `message`.
pub open spec fn error_is(e: ApiError, kind: ApiErrorKind, message: Seq<char>) -> bool {
    e.kind == kind && e.message@ == message
}

impl ApiError {
    /// An error of the given kind with the given message.
    pub fn new(kind: ApiErrorKind, message: &str) -> (e: ApiError)
        ensures
            error_is(e, kind, message@),
    {
        ApiError { kind, message: String::from_str(message) }
    }

    /// A 400 answer.
    pub fn bad_request(message: &str) -> (e: ApiError)
        ensures
            error_is(e, ApiErrorKind::BadRequest, message@),
    {
        ApiError::new(ApiErrorKind::BadRequest, message)
    }

    /// A 401 answer.
    pub fn unauthorized(message: &str) -> (e: ApiError)
        ensures
            error_is(e, ApiErrorKind::Unauthorized, message@),
    {
        ApiError::new(ApiErrorKind::Unauthorized, message)
    }

    /// A 404 answer.
    pub fn not_found(message: &str) -> (e: ApiError)
        ensures
            error_is(e, ApiErrorKind::NotFound, message@),
    {
        ApiError::new(ApiErrorKind::NotFound, message)
    }

    /// A 409 answer.
    pub fn conflict(message: &str) -> (e: ApiError)
        ensures
            error_is(e, ApiErrorKind::Conflict, message@),
    {
        ApiError::new(ApiErrorKind::Conflict, message)
    }

    /// A 500 answer with code `internal_error`.
    pub fn internal(message: &str) -> (e: ApiError)
        ensures
            error_is(e, ApiErrorKind::Internal, message@),
    {
        ApiError::new(ApiErrorKind::Internal, message)
    }

    /// A 503 answer with code `service_unavailable`.
    pub fn service_unavailable(message: &str) -> (e: ApiError)
        ensures
            error_is(e, ApiErrorKind::ServiceUnavailable, message@),
    {
        ApiError::new(ApiErrorKind::ServiceUnavailable, message)
    }

    /// A 501 answer.
    pub fn not_implemented(message: &str) -> (e: ApiError)
        ensures
            error_is(e, ApiErrorKind::NotImplemented, message@),
    {
        ApiError::new(ApiErrorKind::NotImplemented, message)
    }

    /// The HTTP status of this error.
    pub fn status(&self) -> (r: u16)
        ensures
            r == self.kind.spec_status(),
    {
        self.kind.status()
    }

    /// The machine-readable code of this error.
    pub fn code(&self) -> (r: &'static str)
        ensures
            r@ == self.kind.spec_code(),
    {
        self.kind.code()
    }
}

} // verus!
