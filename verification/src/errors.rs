//! Error values of the provider interface and of the key backend, and the
//! translation between them.
use vstd::prelude::*;
use vstd::string::StringExecFns;

verus! {

/// Errors the provider reports to OpenSSL.
#[derive(Clone, Debug, PartialEq, Eq)]
pub enum PkeyError {
    InvalidKey(String),
    InvalidArgument(String),
    NotSupported(String),
    InvalidState(String),
    BackendError(String),
    Internal(String),
}

/// Errors the key backend reports to the provider.
#[derive(Clone, Debug, PartialEq, Eq)]
pub enum BackendError {
    KeyNotFound(String),
    AlgorithmMismatch(String),
    MechanismNotSupported(String),
    AuthenticationFailed(String),
    TransportError(String),
    Internal(String),
}

/// The provider error each backend error is reported as; the message
/// travels unchanged.
pub open spec fn spec_backend_to_pkey(e: BackendError) -> (PkeyErrorKind, Seq<char>) {
    match e {
        BackendError::KeyNotFound(s) => (PkeyErrorKind::InvalidKey, s@),
        BackendError::AlgorithmMismatch(s) => (PkeyErrorKind::InvalidArgument, s@),
        BackendError::MechanismNotSupported(s) => (PkeyErrorKind::NotSupported, s@),
        BackendError::AuthenticationFailed(s) => (PkeyErrorKind::InvalidState, s@),
        BackendError::TransportError(s) => (PkeyErrorKind::BackendError, s@),
        BackendError::Internal(s) => (PkeyErrorKind::BackendError, s@),
    }
}

/// The variant of a `PkeyError`, without its message.
#[derive(Clone, Copy, Debug, PartialEq, Eq, Structural)]
pub enum PkeyErrorKind {
    InvalidKey,
    InvalidArgument,
    NotSupported,
    InvalidState,
    BackendError,
    Internal,
}

impl PkeyError {
    /// The variant and the message of this error.
    pub open spec fn model(self) -> (PkeyErrorKind, Seq<char>) {
        match self {
            PkeyError::InvalidKey(s) => (PkeyErrorKind::InvalidKey, s@),
            PkeyError::InvalidArgument(s) => (PkeyErrorKind::InvalidArgument, s@),
            PkeyError::NotSupported(s) => (PkeyErrorKind::NotSupported, s@),
            PkeyError::InvalidState(s) => (PkeyErrorKind::InvalidState, s@),
            PkeyError::BackendError(s) => (PkeyErrorKind::BackendError, s@),
            PkeyError::Internal(s) => (PkeyErrorKind::Internal, s@),
        }
    }
}

/// Report a backend error as a provider error.
pub fn backend_to_pkey(e: BackendError) -> (r: PkeyError)
    ensures
        r.model() == spec_backend_to_pkey(e),
{
    match e {
        BackendError::KeyNotFound(s) => PkeyError::InvalidKey(s),
        BackendError::AlgorithmMismatch(s) => PkeyError::InvalidArgument(s),
        BackendError::MechanismNotSupported(s) => PkeyError::NotSupported(s),
        BackendError::AuthenticationFailed(s) => PkeyError::InvalidState(s),
        BackendError::TransportError(s) => PkeyError::BackendError(s),
        BackendError::Internal(s) => PkeyError::BackendError(s),
    }
}

/// A provider error built from a message.
pub fn pkey_error(kind: PkeyErrorKind, msg: &str) -> (r: PkeyError)
    ensures
        r.model() == (kind, msg@),
{
    let s = String::from_str(msg);
    match kind {
        PkeyErrorKind::InvalidKey => PkeyError::InvalidKey(s),
        PkeyErrorKind::InvalidArgument => PkeyError::InvalidArgument(s),
        PkeyErrorKind::NotSupported => PkeyError::NotSupported(s),
        PkeyErrorKind::InvalidState => PkeyError::InvalidState(s),
        PkeyErrorKind::BackendError => PkeyError::BackendError(s),
        PkeyErrorKind::Internal => PkeyError::Internal(s),
    }
}

} // verus!
