//! The error type that every request handler answers with.

use vstd::prelude::*;

verus! {

/// Application-wide error type. Every handler returns `Result<T, AppError>`.
#[derive(Debug)]
pub enum AppError {
    /// Resource not found (404).
    NotFound(String),
    /// Missing or invalid authentication (401).
    Unauthorized(String),
    /// Invalid input from the client (400).
    BadRequest(String),
    /// Rate limit exceeded (429).
    TooManyRequests(String),
    /// Resource conflict, e.g. duplicate creation (409).
    Conflict(String),
    /// Action prohibited by business rules (403).
    Forbidden(String),
    /// Internal server error (500).
    Internal(String),
}

impl AppError {
    /// The HTTP status code that answers this error.
    pub open spec fn status(&self) -> u16 {
        match self {
            AppError::NotFound(_) => 404,
            AppError::Unauthorized(_) => 401,
            AppError::BadRequest(_) => 400,
            AppError::TooManyRequests(_) => 429,
            AppError::Conflict(_) => 409,
            AppError::Forbidden(_) => 403,
            AppError::Internal(_) => 500,
        }
    }

    /// The message that the error carries.
    pub open spec fn text(&self) -> Seq<char> {
        match self {
            AppError::NotFound(m) => m@,
            AppError::Unauthorized(m) => m@,
            AppError::BadRequest(m) => m@,
            AppError::TooManyRequests(m) => m@,
            AppError::Conflict(m) => m@,
            AppError::Forbidden(m) => m@,
            AppError::Internal(m) => m@,
        }
    }

    /// Whether `self` is a `BadRequest` that carries exactly `msg`.
    pub open spec fn is_bad_request(&self, msg: Seq<char>) -> bool {
        self matches AppError::BadRequest(m) && m@ == msg
    }

    /// The HTTP status code that answers this error.
    pub fn status_code(&self) -> (r: u16)
        ensures
            r == self.status(),
    {
        match self {
            AppError::NotFound(_) => 404,
            AppError::Unauthorized(_) => 401,
            AppError::BadRequest(_) => 400,
            AppError::TooManyRequests(_) => 429,
            AppError::Conflict(_) => 409,
            AppError::Forbidden(_) => 403,
            AppError::Internal(_) => 500,
        }
    }

    /// The message of the error, as its `Display` text and as the `error`
    /// field of the JSON body that answers it.
    pub fn message(&self) -> (r: String)
        ensures
            r@ == self.text(),
    {
        match self {
            AppError::NotFound(m) => m.clone(),
            AppError::Unauthorized(m) => m.clone(),
            AppError::BadRequest(m) => m.clone(),
            AppError::TooManyRequests(m) => m.clone(),
            AppError::Conflict(m) => m.clone(),
            AppError::Forbidden(m) => m.clone(),
            AppError::Internal(m) => m.clone(),
        }
    }

    /// The error that any failure of the database is answered with; the
    /// cause is logged, never shown to the client.
    pub fn from_database_error() -> (r: AppError)
        ensures
            r matches AppError::Internal(m) && m@ == "Database error"@,
    {
        AppError::Internal(String::from_str("Database error"))
    }
}

} // verus!
