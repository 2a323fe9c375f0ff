//! The error kinds that the store's operations surface.

use vstd::prelude::*;

verus! {

/// Why a store operation failed.
///
/// - `EnvironmentError`: the home directory could not be determined, so no
///   store path exists; nothing can be retried from inside this crate.
/// - `ParseError`: the store file held text that is not valid JSON; the
///   payload is the parser's message.
/// - `SchemaError`: the store file held valid JSON whose top level is not an
///   object, so entries cannot be addressed by key.
/// - `ValidationError`: the caller supplied an empty provider identifier.
/// - `IOError`: a filesystem step (directory creation, backup copy, or the
///   final write) failed in the host; the payload is its message.
#[derive(Debug)]
pub enum AuthError {
    EnvironmentError,
    ParseError(String),
    SchemaError,
    ValidationError,
    IOError(String),
}

impl AuthError {
    /// True exactly on the `ParseError` variant.
    pub fn is_parse_error(&self) -> (r: bool)
        ensures
            r == (self is ParseError),
    {
        match self {
            AuthError::ParseError(_) => true,
            _ => false,
        }
    }

    /// True exactly on the `ValidationError` variant.
    pub fn is_validation_error(&self) -> (r: bool)
        ensures
            r == (self is ValidationError),
    {
        match self {
            AuthError::ValidationError => true,
            _ => false,
        }
    }

    /// True exactly on the `SchemaError` variant.
    pub fn is_schema_error(&self) -> (r: bool)
        ensures
            r == (self is SchemaError),
    {
        match self {
            AuthError::SchemaError => true,
            _ => false,
        }
    }
}

} // verus!
