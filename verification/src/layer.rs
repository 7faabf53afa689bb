//! Session layers: one per dialect, each owning a configured store. The
//! caller layer wraps these into its middleware stack and drives the store
//! per request.
use vstd::prelude::*;
use crate::config::SqlxSessionConfig;
use crate::connections::SqlxDialect;
use crate::session_store::SqlxSessionStore;

verus! {

/// Session layer for a PostgreSQL-backed store.
#[derive(Debug)]
pub struct PostgresSessionLayer {
    /// The store this layer hands to its manager.
    pub store: SqlxSessionStore,
}

impl PostgresSessionLayer {
    /// Create the PostgreSQL session layer from a configuration.
    pub fn new(config: SqlxSessionConfig) -> (r: Self)
        ensures
            r.store.dialect == SqlxDialect::Postgres,
            r.store.config == config,
            r.store.sessions() =~= Map::<Seq<char>, crate::session_data::RecordView>::empty(),
    {
        PostgresSessionLayer { store: SqlxSessionStore::new(SqlxDialect::Postgres, config) }
    }
}

/// Session layer for a MySQL-backed store.
#[derive(Debug)]
pub struct MysqlSessionLayer {
    /// The store this layer hands to its manager.
    pub store: SqlxSessionStore,
}

impl MysqlSessionLayer {
    /// Create the MySQL session layer from a configuration.
    pub fn new(config: SqlxSessionConfig) -> (r: Self)
        ensures
            r.store.dialect == SqlxDialect::MySql,
            r.store.config == config,
            r.store.sessions() =~= Map::<Seq<char>, crate::session_data::RecordView>::empty(),
    {
        MysqlSessionLayer { store: SqlxSessionStore::new(SqlxDialect::MySql, config) }
    }
}

/// Session layer for an SQLite-backed store.
#[derive(Debug)]
pub struct SqliteSessionLayer {
    /// The store this layer hands to its manager.
    pub store: SqlxSessionStore,
}

impl SqliteSessionLayer {
    /// Create the SQLite session layer from a configuration.
    pub fn new(config: SqlxSessionConfig) -> (r: Self)
        ensures
            r.store.dialect == SqlxDialect::Sqlite,
            r.store.config == config,
            r.store.sessions() =~= Map::<Seq<char>, crate::session_data::RecordView>::empty(),
    {
        SqliteSessionLayer { store: SqlxSessionStore::new(SqlxDialect::Sqlite, config) }
    }
}

} // verus!
