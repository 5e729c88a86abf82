//! The crate's error taxonomy.
//!
//! Every failure path of the core returns one of these variants;
//! no layer swallows an error.

use vstd::prelude::*;
use crate::api_errors::UsosError;

verus! {

/// Everything that can go wrong while talking to the remote service.
#[derive(Debug)]
pub enum AppError {
    /// A required configuration value (an environment variable) was
    /// absent when credentials were constructed.
    Configuration { variable: String },
    /// The transport failed: connection, name resolution, TLS or
    /// timeout.  Carries the transport's own description.
    Transport { detail: String },
    /// A response body did not have the promised shape.  Carries a
    /// diagnostic naming the missing key or malformed fragment.
    Parse { detail: String },
    /// The remote service answered with an error status, and, when
    /// the body could be decoded, its structured error envelope.
    Http { code: u16, message: Option<UsosError> },
    /// Any other failure, wrapped generically.
    Unexpected { detail: String },
}

impl AppError {
    /// Constructs the remote-error variant.
    pub fn http(code: u16, message: Option<UsosError>) -> (r: AppError)
        ensures
            r matches AppError::Http { code: c, message: m } && c == code && m == message,
    {
        AppError::Http { code, message }
    }

    /// Constructs the malformed-response variant.
    pub fn parse(detail: String) -> (r: AppError)
        ensures
            r matches AppError::Parse { detail: d } && d == detail,
    {
        AppError::Parse { detail }
    }

    /// Tries to extract the remote service's structured error.
    ///
    /// Only the remote-error variant can carry one; every other
    /// variant yields `None`.
    pub fn usos_error(&self) -> (r: Option<&UsosError>)
        ensures
            match self {
                AppError::Http { message: Some(e), .. } => r == Some(e),
                _ => r is None,
            },
    {
        match self {
            AppError::Http { message, .. } => message.as_ref(),
            _ => None,
        }
    }
}

} // verus!
