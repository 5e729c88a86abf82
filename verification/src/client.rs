//! Classification of remote responses.
//!
//! The remote API answers with HTTP status semantics and a body
//! schema of its own, so the dispatcher needs both: the status code
//! decides the shape of the outcome, and for client and server
//! errors alike the body is decoded into the structured error
//! envelope, with the raw body as the fallback.

use vstd::prelude::*;
use crate::api_errors::UsosError;
use crate::errors::AppError;

verus! {

/// What the dispatcher must do with a response, decided by status
/// code alone.
pub enum ResponseDirective {
    /// A success status: hand the response to the caller.
    Succeed,
    /// A redirection: return the response as-is, never follow it.
    Redirect,
    /// An informational status, which the protocol never legitimately
    /// sends: an unexpected-condition error.
    Informational,
    /// The endpoint is unknown.
    NotFound,
    /// The session is expired or otherwise invalid.
    Unauthorized,
    /// Any other client error: decode the body as the structured
    /// error envelope.
    ClientError,
    /// A server error: the body is decoded the same way.
    ServerError,
}

impl ResponseDirective {
    /// Classifies a status code.
    pub fn of_status(code: u16) -> (r: ResponseDirective)
        ensures
            r matches ResponseDirective::NotFound <==> code == 404,
            r matches ResponseDirective::Unauthorized <==> code == 401,
            r matches ResponseDirective::ClientError <==> (400 <= code <= 499 && code != 404
                && code != 401),
            r matches ResponseDirective::ServerError <==> 500 <= code <= 599,
            r matches ResponseDirective::Redirect <==> 300 <= code <= 399,
            r matches ResponseDirective::Informational <==> 100 <= code <= 199,
            r matches ResponseDirective::Succeed <==> (code < 100 || 200 <= code <= 299 || code
                > 599),
    {
        if code == 404 {
            ResponseDirective::NotFound
        } else if code == 401 {
            ResponseDirective::Unauthorized
        } else if 400 <= code && code <= 499 {
            ResponseDirective::ClientError
        } else if 500 <= code && code <= 599 {
            ResponseDirective::ServerError
        } else if 300 <= code && code <= 399 {
            ResponseDirective::Redirect
        } else if 100 <= code && code <= 199 {
            ResponseDirective::Informational
        } else {
            ResponseDirective::Succeed
        }
    }

    /// Whether the dispatcher should try to decode the body as the
    /// structured error envelope before building the outcome: every
    /// client or server error except the not-found and unauthorized
    /// conditions, which carry no useful body.
    pub fn wants_error_body(code: u16) -> (r: bool)
        ensures
            r == (400 <= code <= 599 && code != 404 && code != 401),
    {
        400 <= code && code <= 599 && code != 404 && code != 401
    }
}

/// The envelope the dispatcher surfaces for an error body: the
/// decoded structured error when the body parsed, else a fallback
/// envelope that carries the raw body as its message.
pub fn error_envelope_or_raw(body: String, decoded: Option<UsosError>) -> (r: UsosError)
    ensures
        match decoded {
            Some(e) => r == e,
            None => r.message == body && r.kind is None && r.user_messages is None
                && r.missing_scopes is None,
        },
{
    match decoded {
        Some(e) => e,
        None => UsosError { message: body, kind: None, user_messages: None, missing_scopes: None },
    }
}

/// Resolves a response into the caller's outcome.
///
/// `parsed_error` is the error envelope obtained from the body, when
/// the status called for one.  Success and redirection statuses
/// succeed; the not-found and unauthorized statuses fail without a
/// body; every other client or server error fails carrying whatever
/// the body held; informational statuses are an unexpected
/// condition.
pub fn resolve_response(code: u16, parsed_error: Option<UsosError>) -> (r: Result<(), AppError>)
    ensures
        match r {
            Ok(()) => code < 100 || (200 <= code <= 399) || code > 599,
            Err(e) => match e {
                AppError::Unexpected { .. } => 100 <= code <= 199,
                AppError::Http { code: c, message } => c == code && (400 <= code <= 599)
                    && message == (
                if 400 <= code <= 599 && code != 404 && code != 401 {
                    parsed_error
                } else {
                    None::<UsosError>
                }),
                _ => false,
            },
        },
        r is Err <==> (100 <= code <= 199 || 400 <= code <= 599),
{
    if code == 404 {
        Err(AppError::Http { code, message: None })
    } else if code == 401 {
        Err(AppError::Http { code, message: None })
    } else if 400 <= code && code <= 599 {
        Err(AppError::Http { code, message: parsed_error })
    } else if 100 <= code && code <= 199 {
        Err(
            AppError::Unexpected {
                detail: "informational status codes are unexpected here".to_owned(),
            },
        )
    } else {
        Ok(())
    }
}

} // verus!
