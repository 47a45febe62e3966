//! Errors of the client. Transport, status and JSON errors of the outside crates
//! are carried as they are; the pagination errors are decided by this library.
use vstd::prelude::*;

verus! {

/// `reqwest::Error`, carried through opaquely.
#[verifier::external_type_specification]
#[verifier::external_body]
pub struct ExReqwestError(reqwest::Error);

/// `reqwest::StatusCode` (`http::StatusCode`), carried through opaquely.
#[verifier::external_type_specification]
#[verifier::external_body]
pub struct ExStatusCode(reqwest::StatusCode);

/// `serde_json::Error`, carried through opaquely.
#[verifier::external_type_specification]
#[verifier::external_body]
pub struct ExJsonError(serde_json::Error);

/// `serde_urlencoded::ser::Error`, carried through opaquely.
#[verifier::external_type_specification]
#[verifier::external_body]
pub struct ExUrlencodedError(serde_urlencoded::ser::Error);

/// `std::io::ErrorKind`, carried through opaquely.
#[verifier::external_type_specification]
#[verifier::external_body]
pub struct ExIoErrorKind(std::io::ErrorKind);

/// Error during authentication with the Boosty API (e.g., token refresh).
#[derive(Debug)]
pub enum AuthError {
    /// Invalid token format.
    InvalidTokenFormat,
    /// Neither a static access token nor a refresh token and device id are set.
    MissingCredentials,
    /// Empty access token.
    EmptyAccessToken,
    /// Empty refresh token.
    EmptyRefreshToken,
    /// Empty device id.
    EmptyDeviceId,
    /// HTTP request error during token refresh.
    HttpRequest(reqwest::Error),
    /// Unexpected HTTP status during token refresh (the body is a short prefix only).
    HttpStatus { status: reqwest::StatusCode, body: String },
    /// Failed to parse the JSON response of a token refresh.
    ParseError(serde_json::Error),
    /// The callback that stores a rotated refresh token failed; only the
    /// `std::io::ErrorKind` is kept, never the token or the I/O message.
    TokenPersist(std::io::ErrorKind),
}

/// Error when calling Boosty API endpoints (includes `AuthError`).
#[derive(Debug)]
pub enum ApiError {
    /// Authentication error.
    Auth(AuthError),
    /// HTTP request error when calling the API.
    HttpRequest(reqwest::Error),
    /// Unexpected HTTP status when calling an endpoint.
    HttpStatus { status: reqwest::StatusCode, endpoint: String },
    /// The response body is not the JSON that the endpoint returns.
    JsonParseDetailed { error: String },
    /// HTTP 401: invalid or missing token.
    Unauthorized,
    /// Failed to deserialize JSON into the target type.
    Deserialization(serde_json::Error),
    /// Failed to serialize a query.
    Serialization(serde_urlencoded::ser::Error),
    /// A collection endpoint could not prove that pagination completed.
    /// Labels are static so this error never carries upstream data.
    Pagination { resource: &'static str, reason: &'static str },
    /// Other error.
    Other(String),
}

/// Result of an authentication step.
pub type ResultAuth<T> = Result<T, AuthError>;

/// Result of an API call.
pub type ResultApi<T> = Result<T, ApiError>;

/// The pagination error for `resource` with `reason`.
pub open spec fn pagination_error(resource: &'static str, reason: &'static str) -> ApiError {
    ApiError::Pagination { resource, reason }
}

} // verus!
