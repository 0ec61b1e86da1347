//! The error type shared by every operation of this library.

use vstd::prelude::*;

use crate::client::{Status, StatusModel};

verus! {

/// The error type used by this library.
///
/// The first six variants mirror the remote service's status codes and carry
/// the status report decoded from the response body.  `ServiceUnavailable`
/// is only returned once the configured retry budget is spent.  The
/// remaining variants are local failure modes, each wrapping the underlying
/// message as text.
#[derive(Debug, Clone, PartialEq, Eq)]
pub enum HelpScoutError {
    /// There was an error with the request (status 400).
    BadRequest(Status),
    /// Either the API key or the verification token was invalid (status 401).
    UnauthorizedKey(Status),
    /// This account does not have access to the requested service (status 403).
    Forbidden(Status),
    /// The requested user could not be found (status 404).
    UserNotFound(Status),
    /// The API usage limit has been reached (status 429).
    TooManyRequests(Status),
    /// There was an internal server error (status 500).
    InternalServerError(Status),
    /// The service was unavailable for every allowed attempt (status 503).
    ServiceUnavailable,
    /// There was an IO error.
    IoError(String),
    /// There was an error deserializing a json object.
    JsonParseError(String),
    /// We made a request the server did not like.
    RequestError(String),
    /// We made a request with a bad url.
    RequestUrlError(String),
    /// We made a request with a bad url encoding.
    RequestUrlEncodeError(String),
    /// The server gave an invalid response.
    InvalidServerResponse,
}

/// Mathematical image of a [`HelpScoutError`]: message payloads as
/// character sequences.
pub enum ErrorModel {
    BadRequest(StatusModel),
    UnauthorizedKey(StatusModel),
    Forbidden(StatusModel),
    UserNotFound(StatusModel),
    TooManyRequests(StatusModel),
    InternalServerError(StatusModel),
    ServiceUnavailable,
    IoError(Seq<char>),
    JsonParseError(Seq<char>),
    RequestError(Seq<char>),
    RequestUrlError(Seq<char>),
    RequestUrlEncodeError(Seq<char>),
    InvalidServerResponse,
}

impl View for HelpScoutError {
    type V = ErrorModel;

    open spec fn view(&self) -> ErrorModel {
        match self {
            HelpScoutError::BadRequest(s) => ErrorModel::BadRequest(s@),
            HelpScoutError::UnauthorizedKey(s) => ErrorModel::UnauthorizedKey(s@),
            HelpScoutError::Forbidden(s) => ErrorModel::Forbidden(s@),
            HelpScoutError::UserNotFound(s) => ErrorModel::UserNotFound(s@),
            HelpScoutError::TooManyRequests(s) => ErrorModel::TooManyRequests(s@),
            HelpScoutError::InternalServerError(s) => ErrorModel::InternalServerError(s@),
            HelpScoutError::ServiceUnavailable => ErrorModel::ServiceUnavailable,
            HelpScoutError::IoError(m) => ErrorModel::IoError(m@),
            HelpScoutError::JsonParseError(m) => ErrorModel::JsonParseError(m@),
            HelpScoutError::RequestError(m) => ErrorModel::RequestError(m@),
            HelpScoutError::RequestUrlError(m) => ErrorModel::RequestUrlError(m@),
            HelpScoutError::RequestUrlEncodeError(m) => ErrorModel::RequestUrlEncodeError(m@),
            HelpScoutError::InvalidServerResponse => ErrorModel::InvalidServerResponse,
        }
    }
}

/// The short description each error variant answers to.
pub open spec fn spec_description(e: ErrorModel) -> Seq<char> {
    match e {
        ErrorModel::BadRequest(_) => "400 bad request"@,
        ErrorModel::UnauthorizedKey(_) => "401 unauthorized"@,
        ErrorModel::Forbidden(_) => "403 forbidden"@,
        ErrorModel::UserNotFound(_) => "404 not found"@,
        ErrorModel::TooManyRequests(_) => "429 too many requests"@,
        ErrorModel::InternalServerError(_) => "500 internal server error"@,
        ErrorModel::ServiceUnavailable => "503 service unavailable"@,
        ErrorModel::IoError(_) => "IO error"@,
        ErrorModel::JsonParseError(_) => "JSON parse error"@,
        ErrorModel::RequestError(_) => "Request error"@,
        ErrorModel::RequestUrlError(_) => "Request URL error"@,
        ErrorModel::RequestUrlEncodeError(_) => "Request URL Encode error"@,
        ErrorModel::InvalidServerResponse => "Invalid server response"@,
    }
}

/// The one-line rendering of each error variant, with its payload appended.
pub open spec fn spec_display(e: ErrorModel) -> Seq<char> {
    match e {
        ErrorModel::BadRequest(s) => "Bad Request: "@ + s.error,
        ErrorModel::UnauthorizedKey(s) => "Unauthorized API Key: "@ + s.error,
        ErrorModel::Forbidden(s) => "Forbidden: "@ + s.error,
        ErrorModel::UserNotFound(s) => "User Not Found: "@ + s.error,
        ErrorModel::TooManyRequests(s) => "Too Many Requests: "@ + s.error,
        ErrorModel::InternalServerError(s) => "Internal Server Error: "@ + s.error,
        ErrorModel::ServiceUnavailable => "Service Unavailable reported by helpscout service"@,
        ErrorModel::IoError(m) => "IO Error: "@ + m,
        ErrorModel::JsonParseError(m) => "Json parsing error: "@ + m,
        ErrorModel::RequestError(m) => "Request error: "@ + m,
        ErrorModel::RequestUrlError(m) => "Bad Request URL: "@ + m,
        ErrorModel::RequestUrlEncodeError(m) => "Bad Request URL Encoding: "@ + m,
        ErrorModel::InvalidServerResponse => "Server returned an invalid response"@,
    }
}

impl HelpScoutError {
    /// A short, fixed description of the error variant.
    pub fn description(&self) -> (r: String)
        ensures
            r@ == spec_description(self@),
    {
        match self {
            HelpScoutError::BadRequest(_) => String::from_str("400 bad request"),
            HelpScoutError::UnauthorizedKey(_) => String::from_str("401 unauthorized"),
            HelpScoutError::Forbidden(_) => String::from_str("403 forbidden"),
            HelpScoutError::UserNotFound(_) => String::from_str("404 not found"),
            HelpScoutError::TooManyRequests(_) => String::from_str("429 too many requests"),
            HelpScoutError::InternalServerError(_) => String::from_str(
                "500 internal server error",
            ),
            HelpScoutError::ServiceUnavailable => String::from_str("503 service unavailable"),
            HelpScoutError::IoError(_) => String::from_str("IO error"),
            HelpScoutError::JsonParseError(_) => String::from_str("JSON parse error"),
            HelpScoutError::RequestError(_) => String::from_str("Request error"),
            HelpScoutError::RequestUrlError(_) => String::from_str("Request URL error"),
            HelpScoutError::RequestUrlEncodeError(_) => String::from_str(
                "Request URL Encode error",
            ),
            HelpScoutError::InvalidServerResponse => String::from_str("Invalid server response"),
        }
    }

    /// The full one-line rendering of the error, payload included.
    pub fn display_string(&self) -> (r: String)
        ensures
            r@ == spec_display(self@),
    {
        match self {
            HelpScoutError::BadRequest(s) => String::from_str("Bad Request: ").concat(
                s.error.as_str(),
            ),
            HelpScoutError::UnauthorizedKey(s) => String::from_str("Unauthorized API Key: ")
                .concat(s.error.as_str()),
            HelpScoutError::Forbidden(s) => String::from_str("Forbidden: ").concat(
                s.error.as_str(),
            ),
            HelpScoutError::UserNotFound(s) => String::from_str("User Not Found: ").concat(
                s.error.as_str(),
            ),
            HelpScoutError::TooManyRequests(s) => String::from_str("Too Many Requests: ").concat(
                s.error.as_str(),
            ),
            HelpScoutError::InternalServerError(s) => String::from_str("Internal Server Error: ")
                .concat(s.error.as_str()),
            HelpScoutError::ServiceUnavailable => String::from_str(
                "Service Unavailable reported by helpscout service",
            ),
            HelpScoutError::IoError(m) => String::from_str("IO Error: ").concat(m.as_str()),
            HelpScoutError::JsonParseError(m) => String::from_str("Json parsing error: ").concat(
                m.as_str(),
            ),
            HelpScoutError::RequestError(m) => String::from_str("Request error: ").concat(
                m.as_str(),
            ),
            HelpScoutError::RequestUrlError(m) => String::from_str("Bad Request URL: ").concat(
                m.as_str(),
            ),
            HelpScoutError::RequestUrlEncodeError(m) => String::from_str(
                "Bad Request URL Encoding: ",
            ).concat(m.as_str()),
            HelpScoutError::InvalidServerResponse => String::from_str(
                "Server returned an invalid response",
            ),
        }
    }
}

} // verus!
