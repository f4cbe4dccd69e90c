use vstd::prelude::*;

use crate::error::AppError;

verus! {

/// The JSON body that reports an error to a client.
#[derive(Debug, Clone)]
pub struct ErrorResponse {
    pub error: String,
    pub code: u16,
    pub message: String,
}

impl ErrorResponse {
    /// The code, the label and the message of the body.
    pub open spec fn parts(self) -> (u16, Seq<char>, Seq<char>) {
        (self.code, self.error@, self.message@)
    }

    /// A body with the given code, label and message.
    pub fn new(code: u16, error: &str, message: &str) -> (r: Self)
        ensures
            r.parts() == (code, error@, message@),
    {
        ErrorResponse {
            code,
            error: String::from_str(error),
            message: String::from_str(message),
        }
    }

    /// A 404 body saying that `resource` was not found.
    pub fn not_found(resource: &str) -> (r: Self)
        ensures
            r.parts() == (404u16, "NOT_FOUND"@, resource@ + " not found"@),
    {
        let mut message = String::from_str(resource);
        message.append(" not found");
        ErrorResponse { code: 404, error: String::from_str("NOT_FOUND"), message }
    }

    /// A 400 body with the given reason.
    pub fn bad_request(reason: &str) -> (r: Self)
        ensures
            r.parts() == (400u16, "BAD_REQUEST"@, reason@),
    {
        Self::new(400, "BAD_REQUEST", reason)
    }

    /// A 401 body with the given reason.
    pub fn unauthorized(reason: &str) -> (r: Self)
        ensures
            r.parts() == (401u16, "UNAUTHORIZED"@, reason@),
    {
        Self::new(401, "UNAUTHORIZED", reason)
    }

    /// A 500 body with the given reason.
    pub fn internal(reason: &str) -> (r: Self)
        ensures
            r.parts() == (500u16, "INTERNAL_ERROR"@, reason@),
    {
        Self::new(500, "INTERNAL_ERROR", reason)
    }
}

/// The body that answers a request that failed with `err`: its code, label and message.
pub open spec fn spec_error_response(err: AppError) -> (u16, Seq<char>, Seq<char>) {
    match err {
        AppError::NotFound(m) => (404u16, "NOT_FOUND"@, m@ + " not found"@),
        AppError::BadRequest(m) => (400u16, "BAD_REQUEST"@, m@),
        AppError::Unauthorized(m) => (401u16, "UNAUTHORIZED"@, m@),
        AppError::Internal(_) => (500u16, "INTERNAL_ERROR"@, "An error occurred"@),
    }
}

/// The body that answers a request that failed with `err`. An internal error's own message
/// is not passed on.
pub fn error_response(err: AppError) -> (r: ErrorResponse)
    ensures
        r.parts() == spec_error_response(err),
{
    match err {
        AppError::NotFound(msg) => ErrorResponse::not_found(msg.as_str()),
        AppError::BadRequest(msg) => ErrorResponse::bad_request(msg.as_str()),
        AppError::Unauthorized(msg) => ErrorResponse::unauthorized(msg.as_str()),
        AppError::Internal(_) => ErrorResponse::internal("An error occurred"),
    }
}

/// Law: an internal error is answered the same whatever its message, so its detail never
/// reaches the client.
pub proof fn law_internal_detail_hidden(a: String, b: String)
    ensures
        spec_error_response(AppError::Internal(a)) == spec_error_response(AppError::Internal(b)),
{
}

/// Law: in every error body, the code and the label determine each other.
pub proof fn law_code_matches_label(e1: AppError, e2: AppError)
    ensures
        (spec_error_response(e1).0 == spec_error_response(e2).0) <==> (spec_error_response(e1).1
            == spec_error_response(e2).1),
{
    reveal_strlit("NOT_FOUND");
    reveal_strlit("BAD_REQUEST");
    reveal_strlit("UNAUTHORIZED");
    reveal_strlit("INTERNAL_ERROR");
    assert("NOT_FOUND"@.len() == 9);
    assert("BAD_REQUEST"@.len() == 11);
    assert("UNAUTHORIZED"@.len() == 12);
    assert("INTERNAL_ERROR"@.len() == 14);
}


/// Law: an error body's code and label depend only on the kind of error, never on its
/// message: not found is 404 `NOT_FOUND` with the message followed by ` not found`, a bad
/// request is 400 `BAD_REQUEST` and an unauthorized request 401 `UNAUTHORIZED`, both with the
/// message as given, and an internal error is 500 `INTERNAL_ERROR` with `An error occurred`.
pub proof fn law_error_body_by_kind(m: String)
    ensures
        spec_error_response(AppError::NotFound(m)) == (404u16, "NOT_FOUND"@, m@ + " not found"@),
        spec_error_response(AppError::BadRequest(m)) == (400u16, "BAD_REQUEST"@, m@),
        spec_error_response(AppError::Unauthorized(m)) == (401u16, "UNAUTHORIZED"@, m@),
        spec_error_response(AppError::Internal(m)) == (500u16, "INTERNAL_ERROR"@, "An error occurred"@),
{
}

} // verus!
