use sqlx_sessions::{
    MysqlSessionLayer, PostgresSessionLayer, SessionError, SessionDataMap, SqliteSessionLayer,
    SqliteSessionManager, SqlxDialect, SqlxSessionConfig, SqlxSessionData, SqlxSessionID,
    SqlxSessionStore,
};

fn id(value: &str) -> SqlxSessionID {
    SqlxSessionID::parse(value).unwrap()
}

const ID_A: &str = "550e8400-e29b-41d4-a716-446655440000";
const ID_B: &str = "67e55044-10b1-426f-9247-bb680e5fe0c8";
const ID_C: &str = "a1a2a3a4-b1b2-41c2-8d1d-e1f2a3b4c5d6";

fn store_at(now: i64) -> SqlxSessionStore {
    SqlxSessionStore::new_with_timestamp(SqlxDialect::Postgres, SqlxSessionConfig::default(), now)
}

#[test]
fn new_store_timer_deadlines() {
    let s = store_at(1000);
    // The first sweep of each kind is due one lifespan after start-up.
    assert_eq!(s.timers.last_expiry_sweep, 1000 + 3600);
    assert_eq!(s.timers.last_database_expiry_sweep, 1000 + 21600);
}

#[test]
fn resolve_reuses_valid_client_id() {
    let s = store_at(0);
    let (rid, is_new) = s.resolve_id(Some(ID_A)).unwrap();
    assert_eq!(rid.inner(), ID_A);
    assert!(!is_new);
}

#[test]
fn resolve_rejects_malformed_client_id() {
    let s = store_at(0);
    let r = s.resolve_id(Some("garbage-cookie-value"));
    assert!(matches!(r, Err(SessionError::IdentifierParse)));
}

#[test]
fn resolve_generates_fresh_id_without_cookie() {
    let s = store_at(0);
    let (rid, is_new) = s.resolve_id(None).unwrap();
    assert!(is_new);
    assert_eq!(rid.inner().len(), 36);
}

#[test]
fn miss_then_install_creates_fresh_record() {
    let mut s = store_at(0);
    let a = id(ID_A);
    // Unknown identifier: the cache cannot satisfy it, a backend load is
    // required.
    assert!(!s.materialize_known(&a, 0));
    // The backend had no row either: a fresh empty record is synthesized.
    s.install_loaded_session(&a, None, 0);
    assert!(s.materialize_known(&a, 1));
    assert_eq!(s.get(&a, "anything"), Ok(None));
}

#[test]
fn set_get_round_trip() {
    let mut s = store_at(0);
    let a = id(ID_A);
    s.install_loaded_session(&a, None, 0);
    s.set(&a, "k", "\"payload\"".to_string()).unwrap();
    assert_eq!(s.get(&a, "k"), Ok(Some("\"payload\"".to_string())));
}

#[test]
fn set_overwrites_and_skips_equal_value() {
    let mut s = store_at(0);
    let a = id(ID_A);
    s.install_loaded_session(&a, None, 0);
    s.set(&a, "k", "1".to_string()).unwrap();
    s.set(&a, "k", "1".to_string()).unwrap();
    assert_eq!(s.get(&a, "k"), Ok(Some("1".to_string())));
    s.set(&a, "k", "2".to_string()).unwrap();
    assert_eq!(s.get(&a, "k"), Ok(Some("2".to_string())));
}

#[test]
fn remove_deletes_only_that_key() {
    let mut s = store_at(0);
    let a = id(ID_A);
    s.install_loaded_session(&a, None, 0);
    s.set(&a, "k1", "1".to_string()).unwrap();
    s.set(&a, "k2", "2".to_string()).unwrap();
    s.remove(&a, "k1").unwrap();
    assert_eq!(s.get(&a, "k1"), Ok(None));
    assert_eq!(s.get(&a, "k2"), Ok(Some("2".to_string())));
    // Removing an absent key is a no-op.
    s.remove(&a, "k1").unwrap();
    assert_eq!(s.get(&a, "k2"), Ok(Some("2".to_string())));
}

#[test]
fn clear_all_empties_session_data() {
    let mut s = store_at(0);
    let a = id(ID_A);
    s.install_loaded_session(&a, None, 0);
    s.set(&a, "k1", "1".to_string()).unwrap();
    s.set(&a, "k2", "2".to_string()).unwrap();
    s.clear_all(&a).unwrap();
    assert_eq!(s.get(&a, "k1"), Ok(None));
    assert_eq!(s.get(&a, "k2"), Ok(None));
}

#[test]
fn handle_on_unknown_id_is_invariant_violation() {
    let mut s = store_at(0);
    let a = id(ID_A);
    assert_eq!(s.get(&a, "k"), Err(SessionError::InvariantViolation));
    assert_eq!(s.set(&a, "k", "1".to_string()), Err(SessionError::InvariantViolation));
    assert_eq!(s.remove(&a, "k"), Err(SessionError::InvariantViolation));
    assert_eq!(s.destroy(&a), Err(SessionError::InvariantViolation));
    assert_eq!(s.clear_all(&a), Err(SessionError::InvariantViolation));
}

#[test]
fn operations_on_one_session_leave_others_alone() {
    let mut s = store_at(0);
    let a = id(ID_A);
    let b = id(ID_B);
    s.install_loaded_session(&a, None, 0);
    s.install_loaded_session(&b, None, 0);
    s.set(&b, "k", "b-value".to_string()).unwrap();
    s.set(&a, "k", "a-value".to_string()).unwrap();
    s.remove(&a, "k").unwrap();
    s.destroy(&a).unwrap();
    s.clear_all(&a).unwrap();
    // Nothing done to A touched B's record.
    assert_eq!(s.get(&b, "k"), Ok(Some("b-value".to_string())));
}

#[test]
fn concurrent_install_converges_on_one_record() {
    let mut s = store_at(0);
    let a = id(ID_A);
    s.install_loaded_session(&a, None, 0);
    s.set(&a, "k", "first".to_string()).unwrap();
    // A second materializer of the same identifier finished its backend
    // load late and installs afterwards: the present record is refreshed,
    // not overwritten by the stale load result.
    let mut other = SessionDataMap::new();
    other.insert("k".to_string(), "stale".to_string());
    let stale = SqlxSessionData {
        id: ID_A.to_string(),
        data: other,
        expires: 21600,
        autoremove: 3600,
        destroy: false,
    };
    s.install_loaded_session(&a, Some(stale), 1);
    assert_eq!(s.get(&a, "k"), Ok(Some("first".to_string())));
}

#[test]
fn expired_record_is_reset_on_hit() {
    let config = SqlxSessionConfig::default().with_lifetime(10).with_memory_lifetime(1000);
    let mut s = SqlxSessionStore::new_with_timestamp(SqlxDialect::Postgres, config, 0);
    let a = id(ID_A);
    s.install_loaded_session(&a, None, 0);
    s.set(&a, "k", "1".to_string()).unwrap();
    // Durable expiry was 0 + 10; at 11 the hit path must reset the data and
    // recompute both deadlines.
    assert!(s.materialize_known(&a, 11));
    assert_eq!(s.get(&a, "k"), Ok(None));
}

#[test]
fn expired_loaded_record_is_reset_on_install() {
    let mut s = store_at(100);
    let a = id(ID_A);
    let mut data = SessionDataMap::new();
    data.insert("k".to_string(), "old".to_string());
    let expired = SqlxSessionData {
        id: ID_A.to_string(),
        data,
        expires: 50,
        autoremove: 50,
        destroy: false,
    };
    s.install_loaded_session(&a, Some(expired), 100);
    assert_eq!(s.get(&a, "k"), Ok(None));
}

#[test]
fn live_loaded_record_keeps_its_data() {
    let mut s = store_at(100);
    let a = id(ID_A);
    let mut data = SessionDataMap::new();
    data.insert("k".to_string(), "persisted".to_string());
    let live = SqlxSessionData {
        id: ID_A.to_string(),
        data,
        expires: 10000,
        autoremove: 10000,
        destroy: false,
    };
    s.install_loaded_session(&a, Some(live), 100);
    assert_eq!(s.get(&a, "k"), Ok(Some("persisted".to_string())));
}

#[test]
fn destroy_is_deferred_until_next_materialization() {
    let mut s = store_at(0);
    let a = id(ID_A);
    s.install_loaded_session(&a, None, 0);
    s.set(&a, "k", "1".to_string()).unwrap();
    s.destroy(&a).unwrap();
    // Within the same materialized instance the data is still readable.
    assert_eq!(s.get(&a, "k"), Ok(Some("1".to_string())));
    // The next materialization resets the record.
    assert!(s.materialize_known(&a, 1));
    assert_eq!(s.get(&a, "k"), Ok(None));
}

#[test]
fn sweep_evicts_record_past_memory_deadline() {
    // Durable lifespan 1 second, memory lifespan 1 second.
    let config = SqlxSessionConfig::default().with_lifetime(1).with_memory_lifetime(1);
    let mut s = SqlxSessionStore::new_with_timestamp(SqlxDialect::Postgres, config, 0);
    let a = id(ID_A);
    s.install_loaded_session(&a, None, 0);
    s.set(&a, "x", "1".to_string()).unwrap();
    // Two seconds later a brand-new identifier triggers the sweep: the
    // record's eviction deadline (1) has passed, so it leaves memory.
    let b = id(ID_B);
    let run_cleanup = s.materialize_new(&b, 2);
    // The durable sweep was due too: the caller is told to clean the table.
    assert!(run_cleanup);
    assert_eq!(s.get(&a, "x"), Err(SessionError::InvariantViolation));
    assert_eq!(s.get(&b, "y"), Ok(None));
}

#[test]
fn sweep_is_throttled_within_one_interval() {
    let config = SqlxSessionConfig::default().with_lifetime(1000).with_memory_lifetime(10);
    let mut s = SqlxSessionStore::new_with_timestamp(SqlxDialect::Postgres, config, 0);
    let c = id(ID_C);
    // C's eviction deadline becomes 5 + 10 = 15.
    s.install_loaded_session(&c, None, 5);
    // First new-identifier call at 10: the memory sweep (due at 10) runs,
    // C survives it, and the sweep deadline moves to 20.
    let b1 = id(ID_A);
    s.materialize_new(&b1, 10);
    assert_eq!(s.timers.last_expiry_sweep, 20);
    // Second call at 15, within the same memory-lifespan interval: the
    // sweep must not run again, so C — although past its deadline now —
    // stays in memory.
    let b2 = id(ID_B);
    s.materialize_new(&b2, 15);
    assert_eq!(s.get(&c, "k"), Ok(None));
    assert_eq!(s.timers.last_expiry_sweep, 20);
}

#[test]
fn data_pairs_round_trip() {
    let mut m = SessionDataMap::new();
    m.insert("a".to_string(), "1".to_string());
    m.insert("b".to_string(), "2".to_string());
    // Equal keys: the later value replaces the earlier one.
    m.insert("a".to_string(), "3".to_string());
    let mut pairs = m.to_pairs();
    pairs.sort();
    assert_eq!(
        pairs,
        vec![("a".to_string(), "3".to_string()), ("b".to_string(), "2".to_string())]
    );
    let m2 = SessionDataMap::from_pairs(pairs);
    assert_eq!(m2.get("a"), Some(&"3".to_string()));
    assert_eq!(m2.get("b"), Some(&"2".to_string()));
    assert_eq!(m2.get("c"), None);
}

#[test]
fn session_record_returns_cached_copy() {
    let mut s = store_at(0);
    let a = id(ID_A);
    assert_eq!(s.session_record(&a).unwrap_err(), SessionError::InvariantViolation);
    s.install_loaded_session(&a, None, 0);
    s.set(&a, "k", "1".to_string()).unwrap();
    let rec = s.session_record(&a).unwrap();
    assert_eq!(rec.id, ID_A);
    assert_eq!(rec.expires, 21600);
    assert_eq!(rec.autoremove, 3600);
    assert!(!rec.destroy);
    assert_eq!(rec.data.get("k"), Some(&"1".to_string()));
}

#[test]
fn record_validate_checks_expiry() {
    let rec = SqlxSessionData {
        id: ID_A.to_string(),
        data: SessionDataMap::new(),
        expires: 100,
        autoremove: 100,
        destroy: false,
    };
    assert!(rec.validate(100));
    assert!(rec.validate(99));
    assert!(!rec.validate(101));
}

#[test]
fn store_query_helpers_use_configured_table() {
    let config = SqlxSessionConfig::default().with_table_name("tbl");
    let s = SqlxSessionStore::new_with_timestamp(SqlxDialect::Sqlite, config, 0);
    assert_eq!(s.count_query(), "SELECT COUNT(*) FROM tbl");
    assert_eq!(s.clear_query(), "DELETE FROM tbl");
    assert_eq!(s.destroy_query(), "DELETE FROM tbl WHERE id = ?");
    assert_eq!(s.cleanup_query(), "DELETE FROM tbl WHERE expires < ?");
    assert_eq!(
        s.load_query(),
        "SELECT session FROM tbl WHERE id = ? AND (expires IS NULL OR expires > ?)"
    );
    assert!(s.migrate_query().starts_with("CREATE TABLE IF NOT EXISTS tbl "));
    assert!(s.store_query().starts_with("INSERT INTO tbl "));
}

#[test]
fn layers_build_stores_with_their_dialect() {
    let pg = PostgresSessionLayer::new(SqlxSessionConfig::default());
    assert_eq!(pg.store.dialect, SqlxDialect::Postgres);
    let my = MysqlSessionLayer::new(SqlxSessionConfig::default());
    assert_eq!(my.store.dialect, SqlxDialect::MySql);
    let sq = SqliteSessionLayer::new(SqlxSessionConfig::default());
    assert_eq!(sq.store.dialect, SqlxDialect::Sqlite);
    let manager = SqliteSessionManager::new("inner-service", sq.store);
    assert_eq!(manager.inner, "inner-service");
    assert_eq!(manager.store.dialect, SqlxDialect::Sqlite);
}
