use sqlx_sessions::SqlxSessionConfig;

#[test]
fn default_config_values() {
    let c = SqlxSessionConfig::default();
    assert_eq!(c.lifespan, 21600);
    assert_eq!(c.memory_lifespan, 3600);
    assert_eq!(c.cookie_name, "sqlx_session");
    assert_eq!(c.cookie_path, "/");
    assert_eq!(c.cookie_len, 16);
    assert_eq!(c.database, "");
    assert_eq!(c.username, "");
    assert_eq!(c.password, "");
    assert_eq!(c.host, "localhost");
    assert_eq!(c.port, 5432);
    assert_eq!(c.table_name, "async_sessions");
    assert_eq!(c.max_connections, 5);
}

#[test]
fn builders_set_their_fields() {
    let c = SqlxSessionConfig::default()
        .with_lifetime(7200)
        .with_memory_lifetime(600)
        .with_cookie_name("sid")
        .with_cookie_len(32)
        .with_cookie_path("/app")
        .with_database("sessions_db")
        .with_username("user")
        .with_password("pw")
        .with_table_name("my_sessions")
        .with_host("db.example")
        .with_port(3306);
    assert_eq!(c.lifespan, 7200);
    assert_eq!(c.memory_lifespan, 600);
    assert_eq!(c.cookie_name, "sid");
    assert_eq!(c.cookie_len, 32);
    assert_eq!(c.cookie_path, "/app");
    assert_eq!(c.database, "sessions_db");
    assert_eq!(c.username, "user");
    assert_eq!(c.password, "pw");
    assert_eq!(c.table_name, "my_sessions");
    assert_eq!(c.host, "db.example");
    assert_eq!(c.port, 3306);
}

#[test]
fn max_connections_clamped_to_one() {
    let c = SqlxSessionConfig::default().set_max_connections(0);
    assert_eq!(c.max_connections, 1);
    let c = c.set_max_connections(12);
    assert_eq!(c.max_connections, 12);
}
