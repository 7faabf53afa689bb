//! Configuration for the session store: lifespans, cookie parameters, and
//! the connection settings handed on to the backend layer.
use vstd::prelude::*;
use vstd::string::StringExecFns;

verus! {

/// Configuration recognised by the session store.
///
/// Lifespans are lengths of time in seconds; timestamps throughout the crate
/// are seconds since the Unix epoch.
#[derive(Debug, Clone)]
pub struct SqlxSessionConfig {
    /// Session lifespan within database storage, in seconds.
    pub lifespan: i64,
    /// Session cookie name.
    pub cookie_name: String,
    /// Session cookie path.
    pub cookie_path: String,
    /// Generated session identifier character length.
    pub cookie_len: usize,
    /// Database name.
    pub database: String,
    /// Database username.
    pub username: String,
    /// Database password.
    pub password: String,
    /// Database host address.
    pub host: String,
    /// Database port.
    pub port: u16,
    /// Database table name.
    pub table_name: String,
    /// Maximum pool connections; never 0.
    pub max_connections: u32,
    /// Session lifespan within memory, in seconds: how long an untouched
    /// record stays loaded before the sweep may evict it.
    pub memory_lifespan: i64,
}

impl SqlxSessionConfig {
    /// Well-formed configurations have non-negative lifespans and at least
    /// one pool connection.
    pub open spec fn wf(self) -> bool {
        &&& self.lifespan >= 0
        &&& self.memory_lifespan >= 0
        &&& self.max_connections >= 1
    }

    /// Set the database pool's max connections limit, clamped to at least 1.
    pub fn set_max_connections(self, max: u32) -> (r: Self)
        ensures
            r == (Self { max_connections: if max >= 1 { max } else { 1 }, ..self }),
    {
        let max = if max >= 1 { max } else { 1 };
        Self { max_connections: max, ..self }
    }

    /// Set the session lifetime (expiration time) within database storage,
    /// in seconds.
    pub fn with_lifetime(self, time: i64) -> (r: Self)
        ensures
            r == (Self { lifespan: time, ..self }),
    {
        Self { lifespan: time, ..self }
    }

    /// Set the session lifetime (expiration time) within memory storage,
    /// in seconds.
    pub fn with_memory_lifetime(self, time: i64) -> (r: Self)
        ensures
            r == (Self { memory_lifespan: time, ..self }),
    {
        Self { memory_lifespan: time, ..self }
    }

    /// Set the session cookie name.
    pub fn with_cookie_name(self, name: &str) -> (r: Self)
        ensures
            r.cookie_name@ == name@,
            r == (Self { cookie_name: r.cookie_name, ..self }),
    {
        Self { cookie_name: name.to_owned(), ..self }
    }

    /// Set the session cookie length.
    pub fn with_cookie_len(self, length: usize) -> (r: Self)
        ensures
            r == (Self { cookie_len: length, ..self }),
    {
        Self { cookie_len: length, ..self }
    }

    /// Set the session cookie path.
    pub fn with_cookie_path(self, path: &str) -> (r: Self)
        ensures
            r.cookie_path@ == path@,
            r == (Self { cookie_path: r.cookie_path, ..self }),
    {
        Self { cookie_path: path.to_owned(), ..self }
    }

    /// Set the session database name.
    pub fn with_database(self, database: &str) -> (r: Self)
        ensures
            r.database@ == database@,
            r == (Self { database: r.database, ..self }),
    {
        Self { database: database.to_owned(), ..self }
    }

    /// Set the session database username.
    pub fn with_username(self, username: &str) -> (r: Self)
        ensures
            r.username@ == username@,
            r == (Self { username: r.username, ..self }),
    {
        Self { username: username.to_owned(), ..self }
    }

    /// Set the session database password.
    pub fn with_password(self, password: &str) -> (r: Self)
        ensures
            r.password@ == password@,
            r == (Self { password: r.password, ..self }),
    {
        Self { password: password.to_owned(), ..self }
    }

    /// Set the session database table name.
    pub fn with_table_name(self, table_name: &str) -> (r: Self)
        ensures
            r.table_name@ == table_name@,
            r == (Self { table_name: r.table_name, ..self }),
    {
        Self { table_name: table_name.to_owned(), ..self }
    }

    /// Set the session database hostname.
    pub fn with_host(self, host: &str) -> (r: Self)
        ensures
            r.host@ == host@,
            r == (Self { host: r.host, ..self }),
    {
        Self { host: host.to_owned(), ..self }
    }

    /// Set the session database port.
    pub fn with_port(self, port: u16) -> (r: Self)
        ensures
            r == (Self { port: port, ..self }),
    {
        Self { port: port, ..self }
    }
}

impl Default for SqlxSessionConfig {
    /// The default configuration: sessions last 6 hours in the database and
    /// 60 minutes in memory.
    fn default() -> (r: Self)
        ensures
            r.lifespan == 21600,
            r.memory_lifespan == 3600,
            r.cookie_name@ == "sqlx_session"@,
            r.cookie_path@ == "/"@,
            r.cookie_len == 16,
            r.database@ == ""@,
            r.username@ == ""@,
            r.password@ == ""@,
            r.host@ == "localhost"@,
            r.port == 5432,
            r.table_name@ == "async_sessions"@,
            r.max_connections == 5,
            r.wf(),
    {
        Self {
            // 6 hours in the database store.
            lifespan: 21600,
            cookie_name: String::from_str("sqlx_session"),
            cookie_path: String::from_str("/"),
            cookie_len: 16,
            database: String::from_str(""),
            username: String::from_str(""),
            password: String::from_str(""),
            host: String::from_str("localhost"),
            port: 5432,
            table_name: String::from_str("async_sessions"),
            max_connections: 5,
            // Unload from memory after 60 minutes without access.
            memory_lifespan: 3600,
        }
    }
}

} // verus!
