//! Error taxonomy and response mapping.
//!
//! Every failure the service can signal is classified into one of a small
//! fixed set of kinds. A kind decides the transport status code; the text
//! shown to a caller is redacted for internal failures.

use vstd::prelude::*;
use vstd::string::StringExecFns;

verus! {

/// The kind of a classified failure, stripped of its context text.
#[derive(Clone, Copy, Debug, PartialEq, Eq, Structural)]
pub enum ErrorKind {
    /// No matching record (active for reads, any for update/delete).
    NotFound,
    /// The backing store is unreachable or rejected the credentials.
    ConnectionError,
    /// Schema setup failed; the process must not serve requests.
    MigrationError,
    /// Any other persistence failure (constraint violation, timeout, ...).
    StoreError,
    /// A request body that could not be decoded at the transport boundary.
    ValidationError,
}

/// A classified error: a kind together with its context text.
#[derive(Debug)]
pub enum AppError {
    NotFound(String),
    ConnectionError(String),
    MigrationError(String),
    StoreError(String),
    ValidationError(String),
}

/// The transport status class each kind maps to. The service layer never
/// chooses a status itself; this is the single mapping used at the boundary.
pub open spec fn status_of(k: ErrorKind) -> u16 {
    match k {
        ErrorKind::NotFound => 404u16,
        ErrorKind::ValidationError => 400u16,
        ErrorKind::ConnectionError => 500u16,
        ErrorKind::MigrationError => 500u16,
        ErrorKind::StoreError => 500u16,
    }
}

impl AppError {
    /// The kind of this error, as a spec-level value.
    pub open spec fn kind_spec(&self) -> ErrorKind {
        match self {
            AppError::NotFound(_) => ErrorKind::NotFound,
            AppError::ConnectionError(_) => ErrorKind::ConnectionError,
            AppError::MigrationError(_) => ErrorKind::MigrationError,
            AppError::StoreError(_) => ErrorKind::StoreError,
            AppError::ValidationError(_) => ErrorKind::ValidationError,
        }
    }

    /// The text a caller may see. Internal failure detail is never echoed:
    /// only `NotFound` and `ValidationError` carry resource- or
    /// request-identifying context across the boundary.
    pub open spec fn client_message_spec(&self) -> Seq<char> {
        match self {
            AppError::NotFound(m) => m@,
            AppError::ValidationError(m) => m@,
            AppError::ConnectionError(_) => "Internal server error"@,
            AppError::MigrationError(_) => "Internal server error"@,
            AppError::StoreError(_) => "Internal server error"@,
        }
    }

    /// The kind of this error.
    pub fn kind(&self) -> (k: ErrorKind)
        ensures
            k == self.kind_spec(),
    {
        match self {
            AppError::NotFound(_) => ErrorKind::NotFound,
            AppError::ConnectionError(_) => ErrorKind::ConnectionError,
            AppError::MigrationError(_) => ErrorKind::MigrationError,
            AppError::StoreError(_) => ErrorKind::StoreError,
            AppError::ValidationError(_) => ErrorKind::ValidationError,
        }
    }

    /// The transport status code for this error:
    /// `NotFound` is 404, `ValidationError` is 400, everything else is 500.
    pub fn status_code(&self) -> (s: u16)
        ensures
            s == status_of(self.kind_spec()),
    {
        match self {
            AppError::NotFound(_) => 404u16,
            AppError::ValidationError(_) => 400u16,
            AppError::ConnectionError(_) => 500u16,
            AppError::MigrationError(_) => 500u16,
            AppError::StoreError(_) => 500u16,
        }
    }

    /// The redacted text shown to a caller.
    pub fn client_message(&self) -> (m: String)
        ensures
            m@ == self.client_message_spec(),
    {
        match self {
            AppError::NotFound(msg) => msg.clone(),
            AppError::ValidationError(msg) => msg.clone(),
            AppError::ConnectionError(_) => String::from_str("Internal server error"),
            AppError::MigrationError(_) => String::from_str("Internal server error"),
            AppError::StoreError(_) => String::from_str("Internal server error"),
        }
    }
}

} // verus!
