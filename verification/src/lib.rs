//! A server-side session store: maps opaque session identifiers to mutable
//! key/value session data, keeps a hot copy in an in-memory map with its own
//! eviction deadline, and prepares the dialect-specific SQL through which the
//! data is durably persisted to a relational backend.
mod config;
mod connections;
mod error;
mod kvlist;
mod laws;
mod layer;
mod manager;
mod session_data;
mod session_id;
mod session_map;
mod session_store;
mod session_timers;

pub use config::SqlxSessionConfig;
pub use connections::SqlxDialect;
pub use error::SessionError;
pub use laws::{lemma_destroy_preserves_data, lemma_expired_record_reset, lemma_install_idempotent,
    lemma_other_sessions_unchanged, lemma_set_then_get, lemma_sweep_throttled};
pub use layer::{MysqlSessionLayer, PostgresSessionLayer, SqliteSessionLayer};
pub use manager::SqliteSessionManager;
pub use session_data::{needs_reset, RecordView, SessionDataMap, SqlxSessionData};
pub use session_id::{uuid_accepts, uuid_canon, SqlxSessionID};
pub use session_map::{pruned_map, SessionMap};
pub use session_store::{clamped_add, next_sweep_deadline, SqlxSessionStore,
    ID_GENERATION_ATTEMPTS};
pub use session_timers::SqlxSessionTimers;
