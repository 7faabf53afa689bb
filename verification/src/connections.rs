//! The backend adapter's dialect dispatch: one logical operation set, with
//! dialect-correct statement text per supported relational engine. The
//! configured table name is substituted into every statement.
use vstd::prelude::*;
use vstd::string::StringExecFns;

verus! {

/// The supported relational dialects.
#[derive(Debug, Clone, Copy, PartialEq, Eq, Structural)]
pub enum SqlxDialect {
    Postgres,
    MySql,
    Sqlite,
}

/// `prefix`, then the table name, then `suffix`.
fn splice_table(prefix: &str, table: &str, suffix: &str) -> (r: String)
    ensures
        r@ == prefix@ + table@ + suffix@,
{
    let mut q = String::from_str(prefix);
    q.append(table);
    q.append(suffix);
    q
}

impl SqlxDialect {
    /// The text of the statement creating the session table if absent:
    /// columns `id` (string primary key), `expires` (nullable integer) and
    /// `session` (text), with engine-specific options.
    pub open spec fn spec_migrate_query(self, table: Seq<char>) -> Seq<char> {
        match self {
            SqlxDialect::Postgres => "CREATE TABLE IF NOT EXISTS "@ + table
                + " (\"id\" VARCHAR(128) NOT NULL PRIMARY KEY, \"expires\" INTEGER NULL, \"session\" TEXT NOT NULL)"@,
            SqlxDialect::MySql => "CREATE TABLE IF NOT EXISTS "@ + table
                + " (`id` VARCHAR(128) NOT NULL, `expires` INTEGER NULL, `session` TEXT NOT NULL, PRIMARY KEY (`id`), KEY `expires` (`expires`)) ENGINE=InnoDB DEFAULT CHARSET=utf8mb4"@,
            SqlxDialect::Sqlite => "CREATE TABLE IF NOT EXISTS "@ + table
                + " (id TEXT PRIMARY KEY NOT NULL, expires INTEGER NULL, session TEXT NOT NULL)"@,
        }
    }

    /// The text of the statement deleting every row whose expiry lies before
    /// the bound timestamp parameter.
    pub open spec fn spec_cleanup_query(self, table: Seq<char>) -> Seq<char> {
        match self {
            SqlxDialect::Postgres => "DELETE FROM "@ + table + " WHERE expires < $1"@,
            _ => "DELETE FROM "@ + table + " WHERE expires < ?"@,
        }
    }

    /// The text of the statement counting all rows of the session table.
    pub open spec fn spec_count_query(self, table: Seq<char>) -> Seq<char> {
        "SELECT COUNT(*) FROM "@ + table
    }

    /// The text of the statement loading the serialized record for an
    /// identifier whose expiry is null or lies after the bound timestamp:
    /// expired rows are filtered at the query level.
    pub open spec fn spec_load_query(self, table: Seq<char>) -> Seq<char> {
        match self {
            SqlxDialect::Postgres => "SELECT session FROM "@ + table
                + " WHERE id = $1 AND (expires IS NULL OR expires > $2)"@,
            _ => "SELECT session FROM "@ + table
                + " WHERE id = ? AND (expires IS NULL OR expires > ?)"@,
        }
    }

    /// The text of the upsert statement: insert the row, or replace its
    /// expiry and serialized record on an identifier conflict.
    pub open spec fn spec_store_query(self, table: Seq<char>) -> Seq<char> {
        match self {
            SqlxDialect::Postgres => "INSERT INTO "@ + table
                + " (id, session, expires) SELECT $1, $2, $3 ON CONFLICT(id) DO UPDATE SET expires = EXCLUDED.expires, session = EXCLUDED.session"@,
            SqlxDialect::MySql => "INSERT INTO "@ + table
                + " (id, session, expires) VALUES(?, ?, ?) ON DUPLICATE KEY UPDATE expires = VALUES(expires), session = VALUES(session)"@,
            SqlxDialect::Sqlite => "INSERT INTO "@ + table
                + " (id, session, expires) VALUES (?, ?, ?) ON CONFLICT(id) DO UPDATE SET expires = excluded.expires, session = excluded.session"@,
        }
    }

    /// The text of the statement deleting the row of one identifier.
    pub open spec fn spec_destroy_query(self, table: Seq<char>) -> Seq<char> {
        match self {
            SqlxDialect::Postgres => "DELETE FROM "@ + table + " WHERE id = $1"@,
            _ => "DELETE FROM "@ + table + " WHERE id = ?"@,
        }
    }

    /// The text of the statement deleting every row of the session table.
    pub open spec fn spec_clear_query(self, table: Seq<char>) -> Seq<char> {
        match self {
            SqlxDialect::Sqlite => "DELETE FROM "@ + table,
            _ => "TRUNCATE "@ + table,
        }
    }

    /// The statement creating the session table if it is absent.
    pub fn migrate_query(&self, table: &str) -> (r: String)
        ensures
            r@ == self.spec_migrate_query(table@),
    {
        match self {
            SqlxDialect::Postgres => splice_table(
                "CREATE TABLE IF NOT EXISTS ",
                table,
                " (\"id\" VARCHAR(128) NOT NULL PRIMARY KEY, \"expires\" INTEGER NULL, \"session\" TEXT NOT NULL)",
            ),
            SqlxDialect::MySql => splice_table(
                "CREATE TABLE IF NOT EXISTS ",
                table,
                " (`id` VARCHAR(128) NOT NULL, `expires` INTEGER NULL, `session` TEXT NOT NULL, PRIMARY KEY (`id`), KEY `expires` (`expires`)) ENGINE=InnoDB DEFAULT CHARSET=utf8mb4",
            ),
            SqlxDialect::Sqlite => splice_table(
                "CREATE TABLE IF NOT EXISTS ",
                table,
                " (id TEXT PRIMARY KEY NOT NULL, expires INTEGER NULL, session TEXT NOT NULL)",
            ),
        }
    }

    /// The statement deleting every row whose expiry lies before the bound
    /// parameter.
    pub fn cleanup_query(&self, table: &str) -> (r: String)
        ensures
            r@ == self.spec_cleanup_query(table@),
    {
        match self {
            SqlxDialect::Postgres => splice_table("DELETE FROM ", table, " WHERE expires < $1"),
            _ => splice_table("DELETE FROM ", table, " WHERE expires < ?"),
        }
    }

    /// The statement counting all rows of the session table.
    pub fn count_query(&self, table: &str) -> (r: String)
        ensures
            r@ == self.spec_count_query(table@),
    {
        let r = splice_table("SELECT COUNT(*) FROM ", table, "");
        proof {
            reveal_strlit("");
            assert(r@ =~= "SELECT COUNT(*) FROM "@ + table@);
        }
        r
    }

    /// The statement loading the serialized record for an identifier whose
    /// durable expiry is null or still lies after the bound timestamp.
    pub fn load_query(&self, table: &str) -> (r: String)
        ensures
            r@ == self.spec_load_query(table@),
    {
        match self {
            SqlxDialect::Postgres => splice_table(
                "SELECT session FROM ",
                table,
                " WHERE id = $1 AND (expires IS NULL OR expires > $2)",
            ),
            _ => splice_table(
                "SELECT session FROM ",
                table,
                " WHERE id = ? AND (expires IS NULL OR expires > ?)",
            ),
        }
    }

    /// The upsert statement: insert the row, or replace its expiry and
    /// serialized record on an identifier conflict.
    pub fn store_query(&self, table: &str) -> (r: String)
        ensures
            r@ == self.spec_store_query(table@),
    {
        match self {
            SqlxDialect::Postgres => splice_table(
                "INSERT INTO ",
                table,
                " (id, session, expires) SELECT $1, $2, $3 ON CONFLICT(id) DO UPDATE SET expires = EXCLUDED.expires, session = EXCLUDED.session",
            ),
            SqlxDialect::MySql => splice_table(
                "INSERT INTO ",
                table,
                " (id, session, expires) VALUES(?, ?, ?) ON DUPLICATE KEY UPDATE expires = VALUES(expires), session = VALUES(session)",
            ),
            SqlxDialect::Sqlite => splice_table(
                "INSERT INTO ",
                table,
                " (id, session, expires) VALUES (?, ?, ?) ON CONFLICT(id) DO UPDATE SET expires = excluded.expires, session = excluded.session",
            ),
        }
    }

    /// The statement deleting the row of one identifier.
    pub fn destroy_query(&self, table: &str) -> (r: String)
        ensures
            r@ == self.spec_destroy_query(table@),
    {
        match self {
            SqlxDialect::Postgres => splice_table("DELETE FROM ", table, " WHERE id = $1"),
            _ => splice_table("DELETE FROM ", table, " WHERE id = ?"),
        }
    }

    /// The statement deleting every row of the session table.
    pub fn clear_query(&self, table: &str) -> (r: String)
        ensures
            r@ == self.spec_clear_query(table@),
    {
        let r = match self {
            SqlxDialect::Sqlite => splice_table("DELETE FROM ", table, ""),
            _ => splice_table("TRUNCATE ", table, ""),
        };
        proof {
            reveal_strlit("");
            assert(self is Sqlite ==> r@ =~= "DELETE FROM "@ + table@);
            assert(!(self is Sqlite) ==> r@ =~= "TRUNCATE "@ + table@);
        }
        r
    }
}

} // verus!
