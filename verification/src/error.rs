//! The error kinds that session operations surface.
use vstd::prelude::*;

verus! {

/// Errors surfaced by the session store.
#[derive(Debug, PartialEq, Eq)]
pub enum SessionError {
    /// A client-supplied session identifier did not parse.
    IdentifierParse,
    /// A backend connectivity or query failure; carries the driver's message.
    Storage(String),
    /// A payload could not be encoded or decoded.
    Serialization,
    /// A session handle named an identifier absent from the cache map.
    /// This signals a bug in the materialization path, not a user condition.
    InvariantViolation,
}

impl Clone for SessionError {
    fn clone(&self) -> (r: Self)
        ensures
            r == *self,
    {
        match self {
            SessionError::IdentifierParse => SessionError::IdentifierParse,
            SessionError::Storage(m) => SessionError::Storage(m.clone()),
            SessionError::Serialization => SessionError::Serialization,
            SessionError::InvariantViolation => SessionError::InvariantViolation,
        }
    }
}

impl SessionError {
    /// A short stable name for the error kind, usable in logs.
    pub fn kind_name(&self) -> (r: &'static str)
        ensures
            self is IdentifierParse ==> r@ == "identifier parse error"@,
            self is Storage ==> r@ == "storage error"@,
            self is Serialization ==> r@ == "serialization error"@,
            self is InvariantViolation ==> r@ == "invariant violation"@,
    {
        match self {
            SessionError::IdentifierParse => "identifier parse error",
            SessionError::Storage(_) => "storage error",
            SessionError::Serialization => "serialization error",
            SessionError::InvariantViolation => "invariant violation",
        }
    }
}

} // verus!
