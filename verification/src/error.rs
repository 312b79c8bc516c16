//! Errors the request handlers answer with.
use vstd::prelude::*;

verus! {

/// How a request fails; each variant maps to one HTTP status.
pub enum ApiError {
    /// 400, with a message for the caller.
    BadRequest(String),
    /// 401.
    Unauthorized,
    /// 403.
    Forbidden,
    /// 404.
    NotFound,
    /// 409, with a message for the caller.
    Conflict(String),
    /// 500, with a message for the log.
    Internal(String),
    /// 500 caused by the database.
    Database(String),
}

/// A 400 whose message is the given literal.
pub fn bad_request(msg: &str) -> (e: ApiError)
    ensures
        e matches ApiError::BadRequest(m) && m@ == msg@,
{
    ApiError::BadRequest(msg.to_string())
}

/// A 400 whose message is the given characters.
pub fn bad_request_chars(msg: &Vec<char>) -> (e: ApiError)
    ensures
        e matches ApiError::BadRequest(m) && m@ == msg@,
{
    ApiError::BadRequest(crate::text::chars_to_string(msg))
}

} // verus!
