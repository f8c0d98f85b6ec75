//! The error taxonomy of the token engine.
//!
//! Every failure carries a kind and enough detail to tell bad credentials,
//! transient network trouble and server-side rejection apart.

use vstd::prelude::*;

verus! {

/// A failure of the token engine.
#[derive(Debug)]
pub enum Error {
    /// The configured credential source is absent. Permanent.
    CredentialMissing,
    /// The credential content is not a well-formed key record. Permanent.
    CredentialMalformed(String),
    /// The private-key material does not parse as an RSA private key. Permanent.
    KeyParseError(String),
    /// The private key could not produce a signature. Permanent.
    SigningError(String),
    /// Connection or timeout failure while talking to the token endpoint.
    /// Retryable by the caller.
    NetworkError(String),
    /// The authorization server answered with a non-success HTTP status.
    /// Not retryable; `reason` carries the server-reported body.
    AuthServerError { status: u16, reason: String },
    /// The token endpoint's reply was not the expected JSON shape. Not retryable.
    ResponseParseError(String),
}

/// The kind of an [`Error`], without its payload.
#[derive(PartialEq, Eq, Structural, Clone, Copy, Debug)]
pub enum ErrorKind {
    CredentialMissing,
    CredentialMalformed,
    KeyParseError,
    SigningError,
    NetworkError,
    AuthServerError,
    ResponseParseError,
}

impl Error {
    /// The kind of this error, as a spec-level value.
    pub open spec fn kind_spec(&self) -> ErrorKind {
        match self {
            Error::CredentialMissing => ErrorKind::CredentialMissing,
            Error::CredentialMalformed(_) => ErrorKind::CredentialMalformed,
            Error::KeyParseError(_) => ErrorKind::KeyParseError,
            Error::SigningError(_) => ErrorKind::SigningError,
            Error::NetworkError(_) => ErrorKind::NetworkError,
            Error::AuthServerError { .. } => ErrorKind::AuthServerError,
            Error::ResponseParseError(_) => ErrorKind::ResponseParseError,
        }
    }

    /// The kind of this error.
    pub fn kind(&self) -> (k: ErrorKind)
        ensures
            k == self.kind_spec(),
    {
        match self {
            Error::CredentialMissing => ErrorKind::CredentialMissing,
            Error::CredentialMalformed(_) => ErrorKind::CredentialMalformed,
            Error::KeyParseError(_) => ErrorKind::KeyParseError,
            Error::SigningError(_) => ErrorKind::SigningError,
            Error::NetworkError(_) => ErrorKind::NetworkError,
            Error::AuthServerError { .. } => ErrorKind::AuthServerError,
            Error::ResponseParseError(_) => ErrorKind::ResponseParseError,
        }
    }

    /// Whether a caller may usefully retry the failed operation.
    /// Only network failures are transient; everything else is permanent
    /// or demands operator action.
    pub open spec fn retryable_spec(&self) -> bool {
        self is NetworkError
    }

    /// Whether a caller may usefully retry the failed operation.
    pub fn retryable(&self) -> (r: bool)
        ensures
            r == self.retryable_spec(),
    {
        match self {
            Error::NetworkError(_) => true,
            _ => false,
        }
    }

    /// The carried detail text (the server body for a rejection, the
    /// underlying message otherwise; empty for a missing credential).
    pub fn detail(&self) -> (r: String)
        ensures
            (match self {
                Error::CredentialMissing => r@ == Seq::<char>::empty(),
                Error::CredentialMalformed(m) => r@ == m@,
                Error::KeyParseError(m) => r@ == m@,
                Error::SigningError(m) => r@ == m@,
                Error::NetworkError(m) => r@ == m@,
                Error::AuthServerError { reason, .. } => r@ == reason@,
                Error::ResponseParseError(m) => r@ == m@,
            }),
    {
        match self {
            Error::CredentialMissing => String::new(),
            Error::CredentialMalformed(m) => m.clone(),
            Error::KeyParseError(m) => m.clone(),
            Error::SigningError(m) => m.clone(),
            Error::NetworkError(m) => m.clone(),
            Error::AuthServerError { reason, .. } => reason.clone(),
            Error::ResponseParseError(m) => m.clone(),
        }
    }
}

} // verus!
