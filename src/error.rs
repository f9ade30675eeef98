//! One error type for every failure the library reports.
use vstd::prelude::*;

verus! {

/// A response whose status is outside the 2xx range.
#[derive(Debug, PartialEq, Eq, Structural)]
pub enum HTTPError {
    /// Any status but 404, with its code.
    Other(u16),
    /// Status 404.
    NotFound,
}

/// True when `status` is a success status (2xx).
pub open spec fn is_success(status: u16) -> bool {
    200 <= status < 300
}

/// What a non-success status maps to.
pub open spec fn http_error_of(status: u16) -> HTTPError {
    if status == 404 {
        HTTPError::NotFound
    } else {
        HTTPError::Other(status)
    }
}

impl HTTPError {
    /// The error that a non-success `status` stands for; 404 is told apart.
    pub fn from_status(status: u16) -> (r: HTTPError)
        ensures
            r == http_error_of(status),
    {
        if status == 404 {
            HTTPError::NotFound
        } else {
            HTTPError::Other(status)
        }
    }
}

/// `Ok` for a 2xx status, the matching HTTP error otherwise.
pub fn into_result(status: u16) -> (r: Result<(), HTTPError>)
    ensures
        is_success(status) ==> r == Ok::<(), HTTPError>(()),
        !is_success(status) ==> r == Err::<(), HTTPError>(http_error_of(status)),
{
    if 200 <= status && status < 300 {
        Ok(())
    } else {
        Err(HTTPError::from_status(status))
    }
}

/// Failures inside the library's own pipeline: transport and decoding.
#[derive(Debug, PartialEq, Eq)]
pub enum InternalError {
    /// The HTTP transport failed (DNS, TLS, timeout, reset); its message.
    ReqwestError(String),
    /// The body is not JSON; the parser's message.
    JSONError(String),
    /// An expected member is absent; its name.
    MissingField(String),
    /// A member holds a value of the wrong JSON type; its name.
    InvalidType(String),
    /// A value that must be a JSON object is not one.
    NotAnObject,
    /// A tagged response has no string `kind`.
    MissingKind,
    /// Any other internal failure.
    Custom(String),
}

/// Errors about Reddit's own data.
#[derive(Debug, PartialEq, Eq)]
pub enum RedditError {
    /// A `kind` that names no known data type; the kind as received.
    InvalidDataType(String),
}

/// The library's error type.
#[derive(Debug, PartialEq, Eq)]
pub enum Error {
    HTTPError(HTTPError),
    InternalError(InternalError),
    RedditError(RedditError),
    /// Misuse by the caller (a malformed full name, a refresh that the
    /// authenticator cannot do).
    Other(String),
    /// The token has expired and this authenticator cannot renew it.
    TokenExpired,
}

/// The five kinds of failure a caller tells apart.
#[derive(Debug, Clone, Copy, PartialEq, Eq, Structural)]
pub enum ErrorKind {
    Transport,
    Http,
    Decode,
    Domain,
    ExpiredCredential,
}

/// The kind of failure that `e` reports.
pub open spec fn kind_of(e: Error) -> ErrorKind {
    match e {
        Error::HTTPError(_) => ErrorKind::Http,
        Error::InternalError(InternalError::ReqwestError(_)) => ErrorKind::Transport,
        Error::InternalError(InternalError::Custom(_)) => ErrorKind::Domain,
        Error::InternalError(_) => ErrorKind::Decode,
        Error::RedditError(_) => ErrorKind::Decode,
        Error::Other(_) => ErrorKind::Domain,
        Error::TokenExpired => ErrorKind::ExpiredCredential,
    }
}

/// `e` reports that member `key` is absent.
pub open spec fn is_missing_field(e: Error, key: Seq<char>) -> bool {
    match e {
        Error::InternalError(InternalError::MissingField(k)) => k@ == key,
        _ => false,
    }
}

/// `e` reports that member `key` has the wrong JSON type.
pub open spec fn is_invalid_type(e: Error, key: Seq<char>) -> bool {
    match e {
        Error::InternalError(InternalError::InvalidType(k)) => k@ == key,
        _ => false,
    }
}

impl Error {
    /// Which of the five kinds this error is.
    pub fn kind(&self) -> (r: ErrorKind)
        ensures
            r == kind_of(*self),
    {
        match self {
            Error::HTTPError(_) => ErrorKind::Http,
            Error::InternalError(InternalError::ReqwestError(_)) => ErrorKind::Transport,
            Error::InternalError(InternalError::Custom(_)) => ErrorKind::Domain,
            Error::InternalError(_) => ErrorKind::Decode,
            Error::RedditError(_) => ErrorKind::Decode,
            Error::Other(_) => ErrorKind::Domain,
            Error::TokenExpired => ErrorKind::ExpiredCredential,
        }
    }

    /// The error for a non-success `status`.
    pub fn from_status(status: u16) -> (r: Error)
        ensures
            r == Error::HTTPError(http_error_of(status)),
    {
        Error::HTTPError(HTTPError::from_status(status))
    }

    /// Member `key` is absent.
    pub fn missing_field(key: &str) -> (r: Error)
        ensures
            is_missing_field(r, key@),
    {
        Error::InternalError(InternalError::MissingField(key.to_owned()))
    }

    /// Member `key` has the wrong JSON type.
    pub fn invalid_type(key: &str) -> (r: Error)
        ensures
            is_invalid_type(r, key@),
    {
        Error::InternalError(InternalError::InvalidType(key.to_owned()))
    }
}

/// `Ok` for a 2xx status, else the matching error of the library.
pub fn check_status(status: u16) -> (r: Result<(), Error>)
    ensures
        is_success(status) ==> r == Ok::<(), Error>(()),
        !is_success(status) ==> r == Err::<(), Error>(Error::HTTPError(http_error_of(status))),
{
    match into_result(status) {
        Ok(()) => Ok(()),
        Err(e) => Err(Error::HTTPError(e)),
    }
}

} // verus!
