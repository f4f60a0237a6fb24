//! JSON error bodies: `{"error": {"status": .., "message": ..}}`.

use vstd::prelude::*;
use crate::text::{owned, push_str};

verus! {

/// The status code and message of an error.
#[derive(Debug)]
pub struct ErrorDetail {
    pub status: u16,
    pub message: String,
}

/// The body of every error response.
#[derive(Debug)]
pub struct ErrorResponse {
    pub error: ErrorDetail,
}

impl ErrorResponse {
    pub fn new(status: u16, message: String) -> (r: Self)
        ensures
            r.error.status == status,
            r.error.message@ == message@,
    {
        ErrorResponse { error: ErrorDetail { status, message } }
    }
}

/// The body of the response to a handler that panicked: 500.
pub fn panic_response() -> (r: ErrorResponse)
    ensures
        r.error.status == 500,
        r.error.message@ == "internal server error"@,
{
    ErrorResponse::new(500, owned("internal server error"))
}

/// The message for a route that does not exist.
pub open spec fn not_found_text(path: Seq<char>) -> Seq<char> {
    "route `"@ + path + "` not found"@
}

/// The message for a method a route does not take.
pub open spec fn method_not_allowed_text(method: Seq<char>, path: Seq<char>) -> Seq<char> {
    "method `"@ + method + "` not allowed for `"@ + path + "`"@
}

/// The body of the response for a path no route matches: 404.
pub fn not_found(path: &str) -> (r: ErrorResponse)
    ensures
        r.error.status == 404,
        r.error.message@ == not_found_text(path@),
{
    let mut m = owned("route `");
    push_str(&mut m, path);
    push_str(&mut m, "` not found");
    ErrorResponse::new(404, m)
}

/// The body of the response for a method the route does not take: 405.
pub fn method_not_allowed(method: &str, path: &str) -> (r: ErrorResponse)
    ensures
        r.error.status == 405,
        r.error.message@ == method_not_allowed_text(method@, path@),
{
    let mut m = owned("method `");
    push_str(&mut m, method);
    push_str(&mut m, "` not allowed for `");
    push_str(&mut m, path);
    push_str(&mut m, "`");
    ErrorResponse::new(405, m)
}

/// An error a handler returns.
#[derive(Debug)]
pub enum AppError {
    BadRequest(String),
    NotFound(String),
    Internal(String),
}

impl AppError {
    pub open spec fn status_spec(&self) -> u16 {
        match self {
            AppError::BadRequest(_) => 400,
            AppError::NotFound(_) => 404,
            AppError::Internal(_) => 500,
        }
    }

    pub open spec fn message_spec(&self) -> Seq<char> {
        match self {
            AppError::BadRequest(m) => m@,
            AppError::NotFound(m) => m@,
            AppError::Internal(m) => m@,
        }
    }

    /// 400, 404 or 500.
    pub fn status(&self) -> (s: u16)
        ensures
            s == self.status_spec(),
    {
        match self {
            AppError::BadRequest(_) => 400,
            AppError::NotFound(_) => 404,
            AppError::Internal(_) => 500,
        }
    }

    pub fn message(&self) -> (m: &str)
        ensures
            m@ == self.message_spec(),
    {
        match self {
            AppError::BadRequest(m) => m.as_str(),
            AppError::NotFound(m) => m.as_str(),
            AppError::Internal(m) => m.as_str(),
        }
    }

    /// The response body: the error's status and message.
    pub fn to_error_response(&self) -> (r: ErrorResponse)
        ensures
            r.error.status == self.status_spec(),
            r.error.message@ == self.message_spec(),
    {
        ErrorResponse::new(self.status(), owned(self.message()))
    }
}

} // verus!
