//! Process-wide sweep throttle state: when each maintenance sweep next runs.
use vstd::prelude::*;

verus! {

/// The two sweep deadlines, as seconds since the Unix epoch. A sweep runs
/// only once its deadline has passed, and then pushes the deadline one
/// lifespan ahead.
#[derive(Debug, Clone, Copy, PartialEq, Eq, Structural)]
pub struct SqlxSessionTimers {
    /// When the next in-memory eviction sweep is due.
    pub last_expiry_sweep: i64,
    /// When the next durable (database) expiry sweep is due.
    pub last_database_expiry_sweep: i64,
}

} // verus!
