//! The session store orchestrator: it owns the configuration, the dialect,
//! the in-memory cache map, and the sweep timers, and implements identifier
//! resolution, materialization, the throttled sweeps, and the per-session
//! handle operations. Backend statements are prepared here; executing them
//! is the caller layer's part.
use vstd::prelude::*;
use crate::config::SqlxSessionConfig;
use crate::connections::SqlxDialect;
use crate::error::SessionError;
use crate::session_data::{needs_reset, RecordView, SqlxSessionData};
use crate::session_id::{uuid_accepts, uuid_canon, SqlxSessionID};
use crate::session_map::{pruned_map, SessionMap};
use crate::session_timers::SqlxSessionTimers;

verus! {

/// Relies on `chrono::Utc::now`: the current wall-clock time, as seconds
/// since the Unix epoch. The clock is environmental; nothing relates two
/// calls, so every function computing with time takes it as an argument.
#[verifier::external_body]
fn unix_timestamp_now() -> (r: i64) {
    chrono::Utc::now().timestamp()
}

/// `a + b`, clamped into the `i64` range.
pub open spec fn clamped_add(a: int, b: int) -> int {
    if a + b > i64::MAX {
        i64::MAX as int
    } else if a + b < i64::MIN {
        i64::MIN as int
    } else {
        a + b
    }
}

/// The deadline of a sweep after it is checked at `now`: a due sweep pushes
/// its deadline one lifespan ahead; an undue one leaves it alone.
pub open spec fn next_sweep_deadline(deadline: int, lifespan: int, now: int) -> int {
    if deadline <= now {
        now + lifespan
    } else {
        deadline
    }
}

fn exec_clamped_add(a: i64, b: i64) -> (r: i64)
    ensures
        r as int == clamped_add(a as int, b as int),
{
    let wide: i128 = a as i128 + b as i128;
    if wide > i64::MAX as i128 {
        i64::MAX
    } else if wide < i64::MIN as i128 {
        i64::MIN
    } else {
        wide as i64
    }
}

/// How many fresh random identifiers the generation loop may draw before it
/// gives up. The loop is a safety net against in-memory collisions; with
/// 128-bit random identifiers even a second draw is essentially unreachable.
pub const ID_GENERATION_ATTEMPTS: u32 = 64;

/// The session store: configuration, dialect, the in-memory cache map, and
/// the sweep timers.
#[derive(Debug)]
pub struct SqlxSessionStore {
    /// Which relational dialect the prepared statements target.
    pub dialect: SqlxDialect,
    /// The store's configuration.
    pub config: SqlxSessionConfig,
    /// The in-memory cache map from identifier to session record.
    pub inner: SessionMap,
    /// The sweep throttle deadlines.
    pub timers: SqlxSessionTimers,
}

impl SqlxSessionStore {
    /// The model of the cache map.
    pub open spec fn sessions(self) -> Map<Seq<char>, RecordView> {
        self.inner@
    }

    /// The arithmetic bounds under which deadlines computed at `now` fit in
    /// an `i64`: lifespans are non-negative and `now` is small enough.
    pub open spec fn time_ok(self, now: i64) -> bool {
        &&& self.config.lifespan >= 0
        &&& self.config.memory_lifespan >= 0
        &&& now + self.config.lifespan <= i64::MAX
        &&& now + self.config.memory_lifespan <= i64::MAX
    }

    /// A fresh empty record for `id`, as materialization inserts it.
    pub open spec fn fresh_record_view(self, id: Seq<char>, now: int) -> RecordView {
        RecordView {
            id: id,
            data: Map::<Seq<char>, Seq<char>>::empty(),
            expires: now + self.config.lifespan,
            autoremove: now + self.config.memory_lifespan,
            destroy: false,
        }
    }

    /// The cache-hit refresh of a record at `now`: a record past its durable
    /// expiry or marked for destruction loses its data; either way both
    /// deadlines are extended from `now`. The destroy flag and the
    /// identifier are kept.
    pub open spec fn refreshed_record(self, r: RecordView, now: int) -> RecordView {
        RecordView {
            id: r.id,
            data: if needs_reset(r, now) {
                Map::<Seq<char>, Seq<char>>::empty()
            } else {
                r.data
            },
            expires: now + self.config.lifespan,
            autoremove: now + self.config.memory_lifespan,
            destroy: r.destroy,
        }
    }

    /// The record installed on a cache miss: the loaded record if the
    /// backend had a live one, else a fresh empty record; a loaded record
    /// past its expiry or marked for destruction is reset like a hit.
    pub open spec fn installed_record(
        self,
        loaded: Option<RecordView>,
        id: Seq<char>,
        now: int,
    ) -> RecordView {
        match loaded {
            Some(r) => if needs_reset(r, now) {
                RecordView {
                    id: r.id,
                    data: Map::<Seq<char>, Seq<char>>::empty(),
                    expires: now + self.config.lifespan,
                    autoremove: now + self.config.memory_lifespan,
                    destroy: r.destroy,
                }
            } else {
                r
            },
            None => self.fresh_record_view(id, now),
        }
    }

    /// What installing a load result for `id` does to the cache map `m`: a
    /// record already present (inserted by a concurrent materialization
    /// between the presence check and the load) is refreshed instead of
    /// being overwritten by the load result.
    pub open spec fn spec_install(
        self,
        m: Map<Seq<char>, RecordView>,
        id: Seq<char>,
        loaded: Option<RecordView>,
        now: int,
    ) -> Map<Seq<char>, RecordView> {
        if m.dom().contains(id) {
            m.insert(id, self.refreshed_record(m[id], now))
        } else {
            m.insert(id, self.installed_record(loaded, id, now))
        }
    }

    /// A store with an empty cache map. The first sweep of each kind is due
    /// one corresponding lifespan after start-up.
    pub fn new_with_timestamp(dialect: SqlxDialect, config: SqlxSessionConfig, now: i64) -> (r:
        Self)
        ensures
            r.dialect == dialect,
            r.config == config,
            r.sessions() =~= Map::<Seq<char>, RecordView>::empty(),
            r.timers.last_expiry_sweep as int == clamped_add(
                now as int,
                config.memory_lifespan as int,
            ),
            r.timers.last_database_expiry_sweep as int == clamped_add(
                now as int,
                config.lifespan as int,
            ),
    {
        let mem_deadline = exec_clamped_add(now, config.memory_lifespan);
        let db_deadline = exec_clamped_add(now, config.lifespan);
        SqlxSessionStore {
            dialect,
            config,
            inner: SessionMap::new(),
            timers: SqlxSessionTimers {
                last_expiry_sweep: mem_deadline,
                last_database_expiry_sweep: db_deadline,
            },
        }
    }

    /// A store with an empty cache map, with the sweep deadlines taken from
    /// the wall clock.
    pub fn new(dialect: SqlxDialect, config: SqlxSessionConfig) -> (r: Self)
        ensures
            r.dialect == dialect,
            r.config == config,
            r.sessions() =~= Map::<Seq<char>, RecordView>::empty(),
            exists|start: i64|
                {
                    &&& r.timers.last_expiry_sweep as int == clamped_add(
                        start as int,
                        config.memory_lifespan as int,
                    )
                    &&& r.timers.last_database_expiry_sweep as int == clamped_add(
                        start as int,
                        config.lifespan as int,
                    )
                },
    {
        let now = unix_timestamp_now();
        let r = Self::new_with_timestamp(dialect, config, now);
        proof {
            assert(exists|start: i64|
                {
                    &&& r.timers.last_expiry_sweep as int == clamped_add(
                        start as int,
                        config.memory_lifespan as int,
                    )
                    &&& r.timers.last_database_expiry_sweep as int == clamped_add(
                        start as int,
                        config.lifespan as int,
                    )
                }) by {
                assert(r.timers.last_expiry_sweep as int == clamped_add(
                    now as int,
                    config.memory_lifespan as int,
                ));
            }
        }
        r
    }

    /// Some cache-map key is shaped like a canonical identifier: the only
    /// kind of key a fresh random draw can collide with.
    pub open spec fn some_canonical_key_cached(self) -> bool {
        exists|k: Seq<char>|
            {
                &&& self.sessions().dom().contains(k)
                &&& uuid_accepts(k)
                &&& uuid_canon(k) == k
                &&& k.len() == 36
            }
    }

    /// Resolve an optional client-supplied identifier to an identifier and
    /// an is-new flag.
    ///
    /// A supplied identifier is reused in canonical form when it parses,
    /// whether or not a record exists for it; a malformed one is an
    /// `IdentifierParse` error (parse failure is treated as fatal to the
    /// request, not silently regenerated). With no identifier supplied, a
    /// fresh one is generated, redrawing while the draw collides with a key
    /// of the cache map. Only if the bounded redraw safety net is exhausted
    /// — which takes a genuine collision with a canonical cached key on
    /// every draw, unreachable in practice with 128-bit identifiers — does
    /// it return an `InvariantViolation` error; in particular, on a store
    /// whose map holds no canonical-identifier key (an empty map, say)
    /// generation always succeeds.
    pub fn resolve_id(&self, client: Option<&str>) -> (r: Result<
        (SqlxSessionID, bool),
        SessionError,
    >)
        ensures
            match client {
                Some(value) => {
                    &&& uuid_accepts(value@) ==> (r matches Ok(p) && p.0@ == uuid_canon(value@)
                        && p.0.wf() && p.1 == false)
                    &&& !uuid_accepts(value@) ==> r == Err::<(SqlxSessionID, bool), SessionError>(
                        SessionError::IdentifierParse,
                    )
                },
                None => match r {
                    Ok(p) => p.1 == true && p.0.wf() && !self.sessions().dom().contains(p.0@),
                    Err(e) => e == SessionError::InvariantViolation
                        && self.some_canonical_key_cached(),
                },
            },
    {
        match client {
            Some(value) => {
                match SqlxSessionID::parse(value) {
                    Ok(id) => Ok((id, false)),
                    Err(e) => Err(e),
                }
            },
            None => {
                let mut attempts: u32 = 0;
                while attempts < ID_GENERATION_ATTEMPTS
                    invariant
                        client is None,
                        attempts <= ID_GENERATION_ATTEMPTS,
                        attempts > 0 ==> self.some_canonical_key_cached(),
                    decreases ID_GENERATION_ATTEMPTS - attempts,
                {
                    let candidate = SqlxSessionID::generate();
                    let key = candidate.inner();
                    if !self.inner.contains_key(&key) {
                        return Ok((candidate, true));
                    }
                    proof {
                        // The colliding draw itself witnesses a canonical
                        // key in the map.
                        assert(self.sessions().dom().contains(candidate@));
                        assert(self.some_canonical_key_cached());
                    }
                    attempts += 1;
                }
                Err(SessionError::InvariantViolation)
            },
        }
    }

    /// Materialize a known identifier from the cache alone. On a hit the
    /// record is refreshed in place and `true` is returned; this path never
    /// touches the backend. On `false` the identifier is not cached: the
    /// caller must load it from the backend (`load_query`) and hand the
    /// result to `install_loaded_session`.
    pub fn materialize_known(&mut self, id: &SqlxSessionID, now: i64) -> (hit: bool)
        requires
            old(self).time_ok(now),
        ensures
            hit == old(self).sessions().dom().contains(id@),
            hit ==> final(self).sessions() == old(self).sessions().insert(
                id@,
                old(self).refreshed_record(old(self).sessions()[id@], now as int),
            ),
            !hit ==> *final(self) == *old(self),
            final(self).config == old(self).config,
            final(self).dialect == old(self).dialect,
            final(self).timers == old(self).timers,
    {
        let key = id.inner();
        let cached = self.inner.get(&key);
        match cached {
            Some(rec) => {
                let mut r = rec.clone();
                if r.expires < now || r.destroy {
                    // The durable copy expired, or the record was marked for
                    // destruction: reuse the identifier but drop the data.
                    r.data.clear();
                }
                // The session is extended by each request with a valid
                // identifier.
                r.expires = now + self.config.lifespan;
                r.autoremove = now + self.config.memory_lifespan;
                self.inner.insert(key, r);
                true
            },
            None => false,
        }
    }

    /// Install the result of a backend load for an identifier that was
    /// absent from the cache. The presence re-check tolerates a concurrent
    /// materialization having inserted the record since the caller's check:
    /// a record found present is refreshed, not overwritten. Otherwise the
    /// loaded record — or a fresh empty one, if the backend had none — is
    /// inserted, reset first if it is already expired or destroy-flagged.
    pub fn install_loaded_session(
        &mut self,
        id: &SqlxSessionID,
        loaded: Option<SqlxSessionData>,
        now: i64,
    )
        requires
            old(self).time_ok(now),
        ensures
            final(self).sessions() == old(self).spec_install(
                old(self).sessions(),
                id@,
                match loaded {
                    Some(d) => Some(d@),
                    None => None,
                },
                now as int,
            ),
            final(self).config == old(self).config,
            final(self).dialect == old(self).dialect,
            final(self).timers == old(self).timers,
    {
        if self.materialize_known(id, now) {
            return ;
        }
        let key = id.inner();
        let mut rec = match loaded {
            Some(d) => d,
            None => SqlxSessionData::empty_record(
                key.clone(),
                now,
                self.config.lifespan,
                self.config.memory_lifespan,
            ),
        };
        if !rec.validate(now) || rec.destroy {
            rec.data.clear();
            rec.expires = now + self.config.lifespan;
            rec.autoremove = now + self.config.memory_lifespan;
        }
        self.inner.insert(key, rec);
    }

    /// Materialize a brand-new identifier: run the throttled maintenance
    /// sweeps, then insert a fresh empty record under `id`.
    ///
    /// If the memory sweep is due, every record past its eviction deadline
    /// is removed and the memory sweep deadline advances by the memory
    /// lifespan. Independently, if the durable sweep is due, memory is
    /// pruned once more and the durable sweep deadline advances by the
    /// durable lifespan; the result is then `true`, telling the caller to
    /// run the backend's delete-expired statement (`cleanup_query`), whose
    /// failure it may swallow: a missed cleanup cycle costs space, not
    /// correctness.
    pub fn materialize_new(&mut self, id: &SqlxSessionID, now: i64) -> (run_database_cleanup:
        bool)
        requires
            old(self).time_ok(now),
        ensures
            ({
                let m0 = old(self).sessions();
                let mem_due = old(self).timers.last_expiry_sweep <= now;
                let db_due = old(self).timers.last_database_expiry_sweep <= now;
                let m1 = if mem_due {
                    pruned_map(m0, now as int)
                } else {
                    m0
                };
                let m2 = if db_due {
                    pruned_map(m1, now as int)
                } else {
                    m1
                };
                &&& final(self).sessions() == m2.insert(
                    id@,
                    old(self).fresh_record_view(id@, now as int),
                )
                &&& final(self).timers.last_expiry_sweep as int == next_sweep_deadline(
                    old(self).timers.last_expiry_sweep as int,
                    old(self).config.memory_lifespan as int,
                    now as int,
                )
                &&& final(self).timers.last_database_expiry_sweep as int == next_sweep_deadline(
                    old(self).timers.last_database_expiry_sweep as int,
                    old(self).config.lifespan as int,
                    now as int,
                )
                &&& run_database_cleanup == db_due
                &&& final(self).config == old(self).config
                &&& final(self).dialect == old(self).dialect
            }),
    {
        // Memory sweep, throttled by the memory lifespan: do not hog memory
        // for abandoned sessions whose client lost the cookie.
        if self.timers.last_expiry_sweep <= now {
            self.inner.prune_expired(now);
            self.timers.last_expiry_sweep = now + self.config.memory_lifespan;
        }
        // Durable sweep, throttled by the durable lifespan: prune memory
        // once more, and have the caller clean the persistent table.
        let run_database_cleanup = if self.timers.last_database_expiry_sweep <= now {
            self.inner.prune_expired(now);
            self.timers.last_database_expiry_sweep = now + self.config.lifespan;
            true
        } else {
            false
        };
        let rec = SqlxSessionData::empty_record(
            id.inner(),
            now,
            self.config.lifespan,
            self.config.memory_lifespan,
        );
        self.inner.insert(id.inner(), rec);
        run_database_cleanup
    }

    /// The stored value for `key` in the session named by `id`, or absent if
    /// the key is missing. A handle must only name materialized identifiers:
    /// an identifier absent from the cache map is an `InvariantViolation`.
    pub fn get(&self, id: &SqlxSessionID, key: &str) -> (r: Result<Option<String>, SessionError>)
        ensures
            !self.sessions().dom().contains(id@) ==> r == Err::<Option<String>, SessionError>(
                SessionError::InvariantViolation,
            ),
            self.sessions().dom().contains(id@) ==> match r {
                Ok(Some(v)) => self.sessions()[id@].data.dom().contains(key@) && v@
                    == self.sessions()[id@].data[key@],
                Ok(None) => !self.sessions()[id@].data.dom().contains(key@),
                Err(_) => false,
            },
    {
        let id_key = id.inner();
        match self.inner.get(&id_key) {
            Some(rec) => match rec.data.get(key) {
                Some(v) => Ok(Some(v.clone())),
                None => Ok(None),
            },
            None => Err(SessionError::InvariantViolation),
        }
    }

    /// Store `value` under `key` in the session named by `id`, replacing any
    /// earlier value; the write is skipped when the stored form is already
    /// equal. This mutates only the in-memory record: nothing is persisted
    /// until the record is explicitly stored.
    pub fn set(&mut self, id: &SqlxSessionID, key: &str, value: String) -> (r: Result<
        (),
        SessionError,
    >)
        ensures
            !old(self).sessions().dom().contains(id@) ==> r == Err::<(), SessionError>(
                SessionError::InvariantViolation,
            ) && *final(self) == *old(self),
            old(self).sessions().dom().contains(id@) ==> r == Ok::<(), SessionError>(())
                && final(self).sessions() == old(self).sessions().insert(
                id@,
                RecordView {
                    data: old(self).sessions()[id@].data.insert(key@, value@),
                    ..old(self).sessions()[id@]
                },
            ),
            final(self).config == old(self).config,
            final(self).dialect == old(self).dialect,
            final(self).timers == old(self).timers,
    {
        let id_key = id.inner();
        match self.inner.get(&id_key) {
            None => Err(SessionError::InvariantViolation),
            Some(rec) => {
                let differs = match rec.data.get(key) {
                    Some(existing) => !(*existing == value),
                    None => true,
                };
                if differs {
                    let mut r2 = rec.clone();
                    r2.data.insert(key.to_owned(), value);
                    self.inner.insert(id_key, r2);
                } else {
                    proof {
                        let m = old(self).sessions();
                        assert(m[id@].data.insert(key@, value@) =~= m[id@].data);
                        assert(m.insert(id@, m[id@]) =~= m);
                    }
                }
                Ok(())
            },
        }
    }

    /// Delete `key` from the session named by `id`; a no-op if it is absent.
    pub fn remove(&mut self, id: &SqlxSessionID, key: &str) -> (r: Result<(), SessionError>)
        ensures
            !old(self).sessions().dom().contains(id@) ==> r == Err::<(), SessionError>(
                SessionError::InvariantViolation,
            ) && *final(self) == *old(self),
            old(self).sessions().dom().contains(id@) ==> r == Ok::<(), SessionError>(())
                && final(self).sessions() == old(self).sessions().insert(
                id@,
                RecordView {
                    data: old(self).sessions()[id@].data.remove(key@),
                    ..old(self).sessions()[id@]
                },
            ),
            final(self).config == old(self).config,
            final(self).dialect == old(self).dialect,
            final(self).timers == old(self).timers,
    {
        let id_key = id.inner();
        match self.inner.get(&id_key) {
            None => Err(SessionError::InvariantViolation),
            Some(rec) => {
                let mut r2 = rec.clone();
                r2.data.remove(key);
                self.inner.insert(id_key, r2);
                Ok(())
            },
        }
    }

    /// Mark the session named by `id` for destruction. The data is not
    /// cleared now: the flag takes effect on the next materialization, which
    /// resets the record.
    pub fn destroy(&mut self, id: &SqlxSessionID) -> (r: Result<(), SessionError>)
        ensures
            !old(self).sessions().dom().contains(id@) ==> r == Err::<(), SessionError>(
                SessionError::InvariantViolation,
            ) && *final(self) == *old(self),
            old(self).sessions().dom().contains(id@) ==> r == Ok::<(), SessionError>(())
                && final(self).sessions() == old(self).sessions().insert(
                id@,
                RecordView { destroy: true, ..old(self).sessions()[id@] },
            ),
            final(self).config == old(self).config,
            final(self).dialect == old(self).dialect,
            final(self).timers == old(self).timers,
    {
        let id_key = id.inner();
        match self.inner.get(&id_key) {
            None => Err(SessionError::InvariantViolation),
            Some(rec) => {
                let mut r2 = rec.clone();
                r2.destroy = true;
                self.inner.insert(id_key, r2);
                Ok(())
            },
        }
    }

    /// Empty the in-memory data of the session named by `id`. This
    /// operation goes with a store-wide destructive clear of the persistent
    /// table: the caller layer must also execute `clear_query`, which
    /// deletes every session's rows, not only this one's.
    pub fn clear_all(&mut self, id: &SqlxSessionID) -> (r: Result<(), SessionError>)
        ensures
            !old(self).sessions().dom().contains(id@) ==> r == Err::<(), SessionError>(
                SessionError::InvariantViolation,
            ) && *final(self) == *old(self),
            old(self).sessions().dom().contains(id@) ==> r == Ok::<(), SessionError>(())
                && final(self).sessions() == old(self).sessions().insert(
                id@,
                RecordView {
                    data: Map::<Seq<char>, Seq<char>>::empty(),
                    ..old(self).sessions()[id@]
                },
            ),
            final(self).config == old(self).config,
            final(self).dialect == old(self).dialect,
            final(self).timers == old(self).timers,
    {
        let id_key = id.inner();
        match self.inner.get(&id_key) {
            None => Err(SessionError::InvariantViolation),
            Some(rec) => {
                let mut r2 = rec.clone();
                r2.data.clear();
                self.inner.insert(id_key, r2);
                Ok(())
            },
        }
    }

    /// A copy of the record cached under `id`, for explicit persistence:
    /// serializing it and executing `store_query` with its identifier,
    /// serialized form, and expiry is the one path that writes a session to
    /// durable storage, and invoking it is the caller's responsibility.
    pub fn session_record(&self, id: &SqlxSessionID) -> (r: Result<SqlxSessionData, SessionError>)
        ensures
            !self.sessions().dom().contains(id@) ==> r == Err::<SqlxSessionData, SessionError>(
                SessionError::InvariantViolation,
            ),
            self.sessions().dom().contains(id@) ==> match r {
                Ok(d) => d@ == self.sessions()[id@],
                Err(_) => false,
            },
    {
        let id_key = id.inner();
        match self.inner.get(&id_key) {
            Some(rec) => Ok(rec.clone()),
            None => Err(SessionError::InvariantViolation),
        }
    }

    /// The table-creation statement for this store's dialect and table.
    pub fn migrate_query(&self) -> (r: String)
        ensures
            r@ == self.dialect.spec_migrate_query(self.config.table_name@),
    {
        self.dialect.migrate_query(self.config.table_name.as_str())
    }

    /// The delete-expired statement for this store's dialect and table.
    pub fn cleanup_query(&self) -> (r: String)
        ensures
            r@ == self.dialect.spec_cleanup_query(self.config.table_name@),
    {
        self.dialect.cleanup_query(self.config.table_name.as_str())
    }

    /// The row-count statement for this store's dialect and table.
    pub fn count_query(&self) -> (r: String)
        ensures
            r@ == self.dialect.spec_count_query(self.config.table_name@),
    {
        self.dialect.count_query(self.config.table_name.as_str())
    }

    /// The load-by-identifier statement for this store's dialect and table.
    pub fn load_query(&self) -> (r: String)
        ensures
            r@ == self.dialect.spec_load_query(self.config.table_name@),
    {
        self.dialect.load_query(self.config.table_name.as_str())
    }

    /// The upsert statement for this store's dialect and table.
    pub fn store_query(&self) -> (r: String)
        ensures
            r@ == self.dialect.spec_store_query(self.config.table_name@),
    {
        self.dialect.store_query(self.config.table_name.as_str())
    }

    /// The delete-by-identifier statement for this store's dialect and
    /// table.
    pub fn destroy_query(&self) -> (r: String)
        ensures
            r@ == self.dialect.spec_destroy_query(self.config.table_name@),
    {
        self.dialect.destroy_query(self.config.table_name.as_str())
    }

    /// The delete-all statement for this store's dialect and table.
    pub fn clear_query(&self) -> (r: String)
        ensures
            r@ == self.dialect.spec_clear_query(self.config.table_name@),
    {
        self.dialect.clear_query(self.config.table_name.as_str())
    }
}

} // verus!
