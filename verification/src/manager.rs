//! The session manager: pairs a wrapped inner service with the store that
//! materializes a session for each request the service handles.
use vstd::prelude::*;
use crate::session_store::SqlxSessionStore;

verus! {

/// The manager wrapping an inner service `S` with a session store. The
/// caller layer's middleware drives the store — resolve, materialize, hand
/// out a session — before each call into the inner service.
#[derive(Debug)]
pub struct SqliteSessionManager<S> {
    /// The wrapped inner service.
    pub inner: S,
    /// The session store driven per request.
    pub store: SqlxSessionStore,
}

impl<S> SqliteSessionManager<S> {
    /// Create a new session manager around an inner service.
    pub fn new(inner: S, store: SqlxSessionStore) -> (r: Self)
        ensures
            r.inner == inner,
            r.store == store,
    {
        SqliteSessionManager { inner, store }
    }
}

} // verus!
