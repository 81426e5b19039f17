use vstd::prelude::*;

verus! {

/// The ways a request to the share engine can fail.
#[derive(Clone, Copy, Debug, PartialEq, Eq, Structural)]
pub enum ErrorKind {
    /// The presented credential was not recognised (HTTP 401).
    AuthenticationFailure,
    /// The credential does not grant the requested action (HTTP 403).
    AuthorizationFailure,
    /// A name, URL, scheme, MIME type, language, size or header was rejected (HTTP 400).
    ValidationFailure,
    /// A name is taken, or no unused name could be found (HTTP 409).
    Conflict,
    /// The share does not exist or has expired (HTTP 404).
    NotFound,
    /// The store or the filesystem failed (HTTP 500).
    StorageFailure,
}

impl ErrorKind {
    /// The HTTP status code that reports this kind of failure.
    pub fn status_code(&self) -> (r: u16)
        ensures
            r == status_of(*self),
    {
        match self {
            ErrorKind::AuthenticationFailure => 401,
            ErrorKind::AuthorizationFailure => 403,
            ErrorKind::ValidationFailure => 400,
            ErrorKind::Conflict => 409,
            ErrorKind::NotFound => 404,
            ErrorKind::StorageFailure => 500,
        }
    }
}

/// The HTTP status code of each kind of failure.
pub open spec fn status_of(k: ErrorKind) -> u16 {
    match k {
        ErrorKind::AuthenticationFailure => 401,
        ErrorKind::AuthorizationFailure => 403,
        ErrorKind::ValidationFailure => 400,
        ErrorKind::Conflict => 409,
        ErrorKind::NotFound => 404,
        ErrorKind::StorageFailure => 500,
    }
}

/// A failure together with the reason shown to the caller.
#[derive(Clone, Debug)]
pub struct ApiError {
    pub kind: ErrorKind,
    pub message: String,
}

impl ApiError {
    /// An error of kind `kind` whose message is `message`.
    pub fn new(kind: ErrorKind, message: &str) -> (r: ApiError)
        ensures
            r.kind == kind,
            r.message@ == message@,
    {
        ApiError { kind, message: message.to_string() }
    }
}

} // verus!
