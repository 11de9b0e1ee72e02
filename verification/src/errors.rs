//! Error taxonomy of the library.
//!
//! `ApiError` classifies every REST failure; `AppError` wraps it together
//! with the non-API failure kinds.  Failure detail from outside crates is
//! carried as its message text.

use crate::text::spec_dec_digits;
use crate::text::u64_to_string;
use vstd::prelude::*;

verus! {

/// A REST API failure.
#[derive(Debug, Clone)]
pub enum ApiError {
    /// The HTTP request itself failed (connection, timeout, protocol).
    Request(String),
    /// A 401 or 403 response: bad or expired credential.
    Authentication(String),
    /// A 429 response that survived the retry budget.
    RateLimited {
        /// Seconds the server asked us to wait.
        retry_after_secs: u64,
    },
    /// A 404 response, carrying the path that was not found.
    NotFound(String),
    /// Any other non-success status.
    Server {
        /// The HTTP status code.
        status: u16,
        /// The response body text.
        message: String,
    },
    /// The refresh token has expired; a new login is required.
    TokenExpired,
    /// A success response whose body could not be understood.
    InvalidResponse(String),
}

impl ApiError {
    /// A short description of the error.
    pub fn describe(&self) -> (r: String)
        ensures
            r@ == match self {
                ApiError::Request(m) => "HTTP request failed: "@ + m@,
                ApiError::Authentication(m) => "Authentication failed: "@ + m@,
                ApiError::RateLimited { retry_after_secs } => "Rate limited - retry after "@
                    + spec_dec_digits(retry_after_secs as nat) + " seconds"@,
                ApiError::NotFound(p) => "Resource not found: "@ + p@,
                ApiError::Server { message, .. } => "Server error: "@ + message@,
                ApiError::TokenExpired => "Token expired"@,
                ApiError::InvalidResponse(m) => "Invalid response: "@ + m@,
            },
    {
        match self {
            ApiError::Request(m) => {
                let mut s: String = "HTTP request failed: ".to_owned();
                s.append(m.as_str());
                s
            },
            ApiError::Authentication(m) => {
                let mut s: String = "Authentication failed: ".to_owned();
                s.append(m.as_str());
                s
            },
            ApiError::RateLimited { retry_after_secs } => {
                let mut s: String = "Rate limited - retry after ".to_owned();
                let n = u64_to_string(*retry_after_secs);
                s.append(n.as_str());
                s.append(" seconds");
                s
            },
            ApiError::NotFound(p) => {
                let mut s: String = "Resource not found: ".to_owned();
                s.append(p.as_str());
                s
            },
            ApiError::Server { message, .. } => {
                let mut s: String = "Server error: ".to_owned();
                s.append(message.as_str());
                s
            },
            ApiError::TokenExpired => "Token expired".to_owned(),
            ApiError::InvalidResponse(m) => {
                let mut s: String = "Invalid response: ".to_owned();
                s.append(m.as_str());
                s
            },
        }
    }
}

/// An application-level failure.
#[derive(Debug, Clone)]
pub enum AppError {
    /// A REST API failure.
    Api(ApiError),
    /// A configuration problem.
    Config(String),
    /// An export problem.
    Export(String),
    /// A credential storage problem.
    Credential(String),
    /// A file system problem.
    Io(String),
    /// A serialization problem.
    Serialization(String),
}

} // verus!
