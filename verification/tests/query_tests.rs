use sqlx_sessions::SqlxDialect;

#[test]
fn postgres_query_texts() {
    let d = SqlxDialect::Postgres;
    assert_eq!(
        d.migrate_query("async_sessions"),
        "CREATE TABLE IF NOT EXISTS async_sessions (\"id\" VARCHAR(128) NOT NULL PRIMARY KEY, \"expires\" INTEGER NULL, \"session\" TEXT NOT NULL)"
    );
    assert_eq!(
        d.cleanup_query("async_sessions"),
        "DELETE FROM async_sessions WHERE expires < $1"
    );
    assert_eq!(d.count_query("async_sessions"), "SELECT COUNT(*) FROM async_sessions");
    assert_eq!(
        d.load_query("async_sessions"),
        "SELECT session FROM async_sessions WHERE id = $1 AND (expires IS NULL OR expires > $2)"
    );
    assert_eq!(
        d.store_query("async_sessions"),
        "INSERT INTO async_sessions (id, session, expires) SELECT $1, $2, $3 ON CONFLICT(id) DO UPDATE SET expires = EXCLUDED.expires, session = EXCLUDED.session"
    );
    assert_eq!(d.destroy_query("async_sessions"), "DELETE FROM async_sessions WHERE id = $1");
    assert_eq!(d.clear_query("async_sessions"), "TRUNCATE async_sessions");
}

#[test]
fn mysql_query_texts() {
    let d = SqlxDialect::MySql;
    assert_eq!(
        d.migrate_query("t"),
        "CREATE TABLE IF NOT EXISTS t (`id` VARCHAR(128) NOT NULL, `expires` INTEGER NULL, `session` TEXT NOT NULL, PRIMARY KEY (`id`), KEY `expires` (`expires`)) ENGINE=InnoDB DEFAULT CHARSET=utf8mb4"
    );
    assert_eq!(d.cleanup_query("t"), "DELETE FROM t WHERE expires < ?");
    assert_eq!(
        d.load_query("t"),
        "SELECT session FROM t WHERE id = ? AND (expires IS NULL OR expires > ?)"
    );
    assert_eq!(
        d.store_query("t"),
        "INSERT INTO t (id, session, expires) VALUES(?, ?, ?) ON DUPLICATE KEY UPDATE expires = VALUES(expires), session = VALUES(session)"
    );
    assert_eq!(d.destroy_query("t"), "DELETE FROM t WHERE id = ?");
    assert_eq!(d.clear_query("t"), "TRUNCATE t");
}

#[test]
fn sqlite_query_texts() {
    let d = SqlxDialect::Sqlite;
    assert_eq!(
        d.migrate_query("t"),
        "CREATE TABLE IF NOT EXISTS t (id TEXT PRIMARY KEY NOT NULL, expires INTEGER NULL, session TEXT NOT NULL)"
    );
    assert_eq!(d.cleanup_query("t"), "DELETE FROM t WHERE expires < ?");
    assert_eq!(
        d.store_query("t"),
        "INSERT INTO t (id, session, expires) VALUES (?, ?, ?) ON CONFLICT(id) DO UPDATE SET expires = excluded.expires, session = excluded.session"
    );
    assert_eq!(d.destroy_query("t"), "DELETE FROM t WHERE id = ?");
    // SQLite has no TRUNCATE: delete-all instead.
    assert_eq!(d.clear_query("t"), "DELETE FROM t");
}

#[test]
fn load_query_filters_expired_rows_in_sql() {
    // Expired rows are filtered at the query level, not in application
    // code: the load statement itself carries the expiry condition.
    for d in [SqlxDialect::Postgres, SqlxDialect::MySql, SqlxDialect::Sqlite] {
        let q = d.load_query("t");
        assert!(q.contains("expires IS NULL OR expires >"));
    }
}
