//! The closed error taxonomy every capability surfaces to callers.

use vstd::prelude::*;

verus! {

/// Unified error type for all capabilities.  Backend failures are wrapped,
/// not reinterpreted: the backend's failure text is preserved as the cause.
#[derive(Debug, Clone)]
pub enum AppError {
    /// No usable backend could be selected for the requested descriptor and
    /// enabled-backend combination.  Fatal to the requesting operation,
    /// surfaced immediately, never retried.
    Configuration(String),
    /// The underlying database/broker/session call failed (connectivity,
    /// protocol, timeout); the cause text comes from the backend unchanged.
    Database(String),
    /// A requested entity does not exist; distinguished from transport
    /// failure.
    NotFound,
    /// Caller-supplied input violated a precondition; rejected before any
    /// backend call is attempted.
    Validation(String),
    /// Defensive catch-all for invariant violations.
    Internal,
}

impl AppError {
    /// True exactly on the `Configuration` variant, so callers can detect a
    /// build/deploy misconfiguration rather than a transient failure.
    pub fn is_configuration(&self) -> (r: bool)
        ensures
            r == (self is Configuration),
    {
        match self {
            AppError::Configuration(_) => true,
            _ => false,
        }
    }

    /// Human-readable rendering of the error, cause included.
    pub fn message(&self) -> (m: String)
        ensures
            self matches AppError::Configuration(c) ==> m@ == "Configuration error: "@ + c@,
            self matches AppError::Database(c) ==> m@ == "Database error: "@ + c@,
            self is NotFound ==> m@ == "Not found"@,
            self matches AppError::Validation(c) ==> m@ == "Validation error: "@ + c@,
            self is Internal ==> m@ == "Internal server error"@,
    {
        match self {
            AppError::Configuration(c) => String::from_str("Configuration error: ").concat(c.as_str()),
            AppError::Database(c) => String::from_str("Database error: ").concat(c.as_str()),
            AppError::NotFound => String::from_str("Not found"),
            AppError::Validation(c) => String::from_str("Validation error: ").concat(c.as_str()),
            AppError::Internal => String::from_str("Internal server error"),
        }
    }
}

} // verus!
