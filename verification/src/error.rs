//! The error a request handler answers with.
use vstd::prelude::*;

use crate::text::owned;

verus! {

/// The class of an API error; each class answers with one HTTP status.
#[derive(Clone, Copy, Debug, PartialEq, Eq, Structural)]
pub enum ApiErrorKind {
    BadRequest,
    NotFound,
    Unprocessable,
    ServiceUnavailable,
    Internal,
}

/// An error answered to an API client: its class, a machine-readable code and
/// a human-readable message.
#[derive(Clone, Debug, PartialEq, Eq)]
pub struct ApiError {
    pub kind: ApiErrorKind,
    pub code: String,
    pub message: String,
}

impl View for ApiError {
    type V = (ApiErrorKind, Seq<char>, Seq<char>);

    open spec fn view(&self) -> (ApiErrorKind, Seq<char>, Seq<char>) {
        (self.kind, self.code@, self.message@)
    }
}

/// The HTTP status of each class.
pub open spec fn kind_status(kind: ApiErrorKind) -> u16 {
    match kind {
        ApiErrorKind::BadRequest => 400,
        ApiErrorKind::NotFound => 404,
        ApiErrorKind::Unprocessable => 422,
        ApiErrorKind::ServiceUnavailable => 503,
        ApiErrorKind::Internal => 500,
    }
}

/// The value of a `400 Bad Request` error with `message`.
pub open spec fn bad_request_view(message: Seq<char>) -> (ApiErrorKind, Seq<char>, Seq<char>) {
    (ApiErrorKind::BadRequest, "bad_request"@, message)
}

/// The value of a `404 Not Found` error with `message`.
pub open spec fn not_found_view(message: Seq<char>) -> (ApiErrorKind, Seq<char>, Seq<char>) {
    (ApiErrorKind::NotFound, "not_found"@, message)
}

/// The value of a `503 Service Unavailable` error with `message`.
pub open spec fn service_unavailable_view(message: Seq<char>) -> (
    ApiErrorKind,
    Seq<char>,
    Seq<char>,
) {
    (ApiErrorKind::ServiceUnavailable, "service_unavailable"@, message)
}

/// The value of a `500 Internal Server Error` with `message`.
pub open spec fn internal_view(message: Seq<char>) -> (ApiErrorKind, Seq<char>, Seq<char>) {
    (ApiErrorKind::Internal, "internal_error"@, message)
}

/// The value of a `422 Unprocessable Entity` error with `code` and `message`.
pub open spec fn unprocessable_view(code: Seq<char>, message: Seq<char>) -> (
    ApiErrorKind,
    Seq<char>,
    Seq<char>,
) {
    (ApiErrorKind::Unprocessable, code, message)
}

impl ApiError {
    pub fn bad_request(message: &str) -> (e: ApiError)
        ensures
            e@ == bad_request_view(message@),
    {
        ApiError { kind: ApiErrorKind::BadRequest, code: owned("bad_request"), message: owned(message) }
    }

    pub fn not_found(message: &str) -> (e: ApiError)
        ensures
            e@ == not_found_view(message@),
    {
        ApiError { kind: ApiErrorKind::NotFound, code: owned("not_found"), message: owned(message) }
    }

    pub fn service_unavailable(message: &str) -> (e: ApiError)
        ensures
            e@ == service_unavailable_view(message@),
    {
        ApiError {
            kind: ApiErrorKind::ServiceUnavailable,
            code: owned("service_unavailable"),
            message: owned(message),
        }
    }

    pub fn internal(message: &str) -> (e: ApiError)
        ensures
            e@ == internal_view(message@),
    {
        ApiError { kind: ApiErrorKind::Internal, code: owned("internal_error"), message: owned(message) }
    }

    pub fn unprocessable(code: &str, message: &str) -> (e: ApiError)
        ensures
            e@ == unprocessable_view(code@, message@),
    {
        ApiError { kind: ApiErrorKind::Unprocessable, code: owned(code), message: owned(message) }
    }

    /// The HTTP status this error answers with.
    pub fn status_code(&self) -> (s: u16)
        ensures
            s == kind_status(self.kind),
    {
        match self.kind {
            ApiErrorKind::BadRequest => 400,
            ApiErrorKind::NotFound => 404,
            ApiErrorKind::Unprocessable => 422,
            ApiErrorKind::ServiceUnavailable => 503,
            ApiErrorKind::Internal => 500,
        }
    }
}

} // verus!
