//! Request paths, response-status classification and pagination decisions of
//! the API client. The HTTP exchange itself is done by the caller.
use vstd::prelude::*;

pub mod bundle;
pub mod dialog;
pub mod post;
pub mod subscriber;

pub use crate::text::encode_segment;
use crate::error::{ApiError, AuthError};

verus! {

/// Default number of posts fetched per page.
pub const DEFAULT_PAGE_SIZE: usize = 20;

/// How a response is handled, by its HTTP status code.
#[derive(Debug, Clone, Copy, PartialEq, Eq)]
pub enum StatusClass {
    /// 2xx: the body is parsed.
    Success,
    /// 401: `ApiError::Unauthorized`.
    Unauthorized,
    /// Any other status: `ApiError::HttpStatus`.
    Failure,
}

/// The class of a status code: success for 200..=299, unauthorized for 401,
/// failure otherwise.
pub open spec fn status_class(code: u16) -> StatusClass {
    if 200 <= code <= 299 {
        StatusClass::Success
    } else if code == 401 {
        StatusClass::Unauthorized
    } else {
        StatusClass::Failure
    }
}

/// Only 401 means an invalid or missing token; exactly 200..=299 is a
/// success; every other status is a failure that carries the status and the
/// endpoint.
pub proof fn lemma_status_classes(status: reqwest::StatusCode, code: u16, endpoint: String)
    ensures
        status_class(code) == StatusClass::Success <==> 200 <= code <= 299,
        status_class(code) == StatusClass::Unauthorized <==> code == 401,
        status_class(code) == StatusClass::Failure <==> !(200 <= code <= 299) && code != 401,
        status_error_spec(status, code, endpoint) is None <==> 200 <= code <= 299,
        status_error_spec(status, code, endpoint) == Some(ApiError::Unauthorized) <==> code == 401,
        !(200 <= code <= 299) && code != 401 ==> status_error_spec(status, code, endpoint) == Some(
            ApiError::HttpStatus { status, endpoint },
        ),
{
}

/// Classifies an HTTP status code as every endpoint's response handling does.
pub fn classify_status(code: u16) -> (class: StatusClass)
    ensures
        class == status_class(code),
        class == StatusClass::Success <==> 200 <= code <= 299,
        class == StatusClass::Unauthorized <==> code == 401,
        class == StatusClass::Failure <==> !(200 <= code <= 299) && code != 401,
{
    if 200 <= code && code <= 299 {
        StatusClass::Success
    } else if code == 401 {
        StatusClass::Unauthorized
    } else {
        StatusClass::Failure
    }
}

/// The error that a response with status code `code` (the number of
/// `status`) to a request for `endpoint` gives, before its body is read:
/// none for a success, `Unauthorized` for 401, else `HttpStatus` with the
/// status and the endpoint.
pub open spec fn status_error_spec(status: reqwest::StatusCode, code: u16, endpoint: String) -> Option<ApiError> {
    match status_class(code) {
        StatusClass::Success => None,
        StatusClass::Unauthorized => Some(ApiError::Unauthorized),
        StatusClass::Failure => Some(ApiError::HttpStatus { status, endpoint }),
    }
}

/// Decides what a response status means for the request to `endpoint`:
/// `None` lets the body be parsed; otherwise the error to return.
/// `code` is the number of `status` (`StatusCode::as_u16`).
pub fn status_error(status: reqwest::StatusCode, code: u16, endpoint: String) -> (error: Option<ApiError>)
    ensures
        error == status_error_spec(status, code, endpoint),
        error is None <==> 200 <= code <= 299,
        error == Some(ApiError::Unauthorized) <==> code == 401,
        !(200 <= code <= 299) && code != 401 ==> error == Some(
            ApiError::HttpStatus { status, endpoint },
        ),
{
    proof {
        lemma_status_classes(status, code, endpoint);
    }
    match classify_status(code) {
        StatusClass::Success => None,
        StatusClass::Unauthorized => Some(ApiError::Unauthorized),
        StatusClass::Failure => Some(ApiError::HttpStatus { status, endpoint }),
    }
}

/// Checks a static bearer token before it is stored: an empty token is refused.
pub fn check_access_token(token: &str) -> (result: Result<(), AuthError>)
    ensures
        token@.len() == 0 ==> result matches Err(AuthError::EmptyAccessToken),
        token@.len() != 0 ==> result is Ok,
{
    if token.is_empty() {
        Err(AuthError::EmptyAccessToken)
    } else {
        Ok(())
    }
}

} // verus!
