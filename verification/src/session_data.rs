//! The session record: the entity that is cached in memory and persisted to
//! the backend, together with its key/value data map.
use vstd::prelude::*;
use crate::kvlist::{kv_map, keys_unique, lemma_kv_map_at, lemma_kv_map_dom, lemma_kv_map_push,
    lemma_kv_map_remove, lemma_kv_map_update};

verus! {

/// The key/value data of one session. Keys are strings; values are
/// string-encoded payloads the caller treats as opaque.
#[derive(Debug)]
pub struct SessionDataMap {
    entries: Vec<(String, String)>,
}

impl View for SessionDataMap {
    type V = Map<Seq<char>, Seq<char>>;

    closed spec fn view(&self) -> Map<Seq<char>, Seq<char>> {
        kv_map(self.entries@)
    }
}

impl SessionDataMap {
    #[verifier::type_invariant]
    spec fn inv(self) -> bool {
        keys_unique(self.entries@)
    }

    /// An empty data map.
    pub fn new() -> (r: SessionDataMap)
        ensures
            r@ == Map::<Seq<char>, Seq<char>>::empty(),
    {
        SessionDataMap { entries: Vec::new() }
    }

    /// The index of the entry carrying `key`, if any.
    fn position_of(&self, key: &String) -> (r: Option<usize>)
        ensures
            match r {
                Some(i) => i < self.entries@.len() && self.entries@[i as int].0@ == key@,
                None => forall|j: int|
                    0 <= j < self.entries@.len() ==> self.entries@[j].0@ != key@,
            },
    {
        let mut i: usize = 0;
        while i < self.entries.len()
            invariant
                i <= self.entries@.len(),
                forall|j: int| 0 <= j < i ==> self.entries@[j].0@ != key@,
            decreases self.entries@.len() - i,
        {
            if self.entries[i].0 == *key {
                return Some(i);
            }
            i += 1;
        }
        None
    }

    /// The stored value for `key`, or absent if the key is missing.
    pub fn get(&self, key: &str) -> (r: Option<&String>)
        ensures
            match r {
                Some(v) => self@.dom().contains(key@) && v@ == self@[key@],
                None => !self@.dom().contains(key@),
            },
    {
        let ks = key.to_owned();
        match self.position_of(&ks) {
            Some(i) => {
                proof {
                    use_type_invariant(self);
                    lemma_kv_map_at(self.entries@, i as int);
                }
                Some(&self.entries[i].1)
            },
            None => {
                proof {
                    lemma_kv_map_dom(self.entries@, key@);
                }
                None
            },
        }
    }

    /// Store `value` under `key`, replacing any earlier value.
    pub fn insert(&mut self, key: String, value: String)
        ensures
            final(self)@ == old(self)@.insert(key@, value@),
    {
        proof {
            use_type_invariant(&*self);
        }
        let pos = self.position_of(&key);
        let mut es: Vec<(String, String)> = Vec::new();
        core::mem::swap(&mut es, &mut self.entries);
        let ghost s = es@;
        match pos {
            Some(i) => {
                let e = &mut es[i];
                e.1 = value;
                proof {
                    lemma_kv_map_update(s, i as int, es@[i as int]);
                }
            },
            None => {
                es.push((key, value));
                proof {
                    lemma_kv_map_push(s, es@.last());
                }
            },
        }
        core::mem::swap(&mut es, &mut self.entries);
    }

    /// Delete `key`; a no-op if it is absent.
    pub fn remove(&mut self, key: &str)
        ensures
            final(self)@ == old(self)@.remove(key@),
    {
        proof {
            use_type_invariant(&*self);
        }
        let ks = key.to_owned();
        let pos = self.position_of(&ks);
        match pos {
            Some(i) => {
                let mut es: Vec<(String, String)> = Vec::new();
                core::mem::swap(&mut es, &mut self.entries);
                proof {
                    lemma_kv_map_remove(es@, i as int);
                }
                es.remove(i);
                core::mem::swap(&mut es, &mut self.entries);
            },
            None => {
                proof {
                    lemma_kv_map_dom(self.entries@, key@);
                    assert(old(self)@.remove(key@) =~= old(self)@);
                }
            },
        }
    }

    /// Empty the data map.
    pub fn clear(&mut self)
        ensures
            final(self)@ == Map::<Seq<char>, Seq<char>>::empty(),
    {
        let mut es: Vec<(String, String)> = Vec::new();
        core::mem::swap(&mut es, &mut self.entries);
    }

    /// The stored entries as key/value pairs, with pairwise-distinct keys,
    /// denoting exactly this map: the serializable form of the data.
    pub fn to_pairs(&self) -> (r: Vec<(String, String)>)
        ensures
            keys_unique(r@),
            kv_map(r@) == self@,
    {
        proof {
            use_type_invariant(self);
        }
        let mut out: Vec<(String, String)> = Vec::new();
        let mut i: usize = 0;
        while i < self.entries.len()
            invariant
                i <= self.entries@.len(),
                out@.len() == i,
                forall|j: int| 0 <= j < i ==> out@[j] == self.entries@[j],
            decreases self.entries@.len() - i,
        {
            let e = &self.entries[i];
            out.push((e.0.clone(), e.1.clone()));
            i += 1;
        }
        assert(out@ =~= self.entries@);
        out
    }

    /// The data map denoted by a sequence of key/value pairs; a later pair
    /// with an already-seen key replaces the earlier value. This is the
    /// deserialized form of the data.
    pub fn from_pairs(pairs: Vec<(String, String)>) -> (r: SessionDataMap)
        ensures
            r@ == kv_map(pairs@),
    {
        let mut r = SessionDataMap::new();
        let mut i: usize = 0;
        while i < pairs.len()
            invariant
                i <= pairs@.len(),
                r@ == kv_map(pairs@.take(i as int)),
            decreases pairs@.len() - i,
        {
            let e = &pairs[i];
            r.insert(e.0.clone(), e.1.clone());
            proof {
                assert(pairs@.take(i + 1).drop_last() =~= pairs@.take(i as int));
                assert(pairs@.take(i + 1).last() == pairs@[i as int]);
            }
            i += 1;
        }
        proof {
            assert(pairs@.take(pairs@.len() as int) =~= pairs@);
        }
        r
    }

}

impl Clone for SessionDataMap {
    /// Cloning preserves the denoted map.
    fn clone(&self) -> (r: Self)
        ensures
            r@ == self@,
    {
        proof {
            use_type_invariant(self);
        }
        let mut out: Vec<(String, String)> = Vec::new();
        let mut i: usize = 0;
        while i < self.entries.len()
            invariant
                i <= self.entries@.len(),
                out@.len() == i,
                forall|j: int| 0 <= j < i ==> out@[j] == self.entries@[j],
            decreases self.entries@.len() - i,
        {
            let e = &self.entries[i];
            out.push((e.0.clone(), e.1.clone()));
            i += 1;
        }
        assert(out@ =~= self.entries@);
        SessionDataMap { entries: out }
    }
}

/// The mathematical model of one session record.
pub struct RecordView {
    pub id: Seq<char>,
    pub data: Map<Seq<char>, Seq<char>>,
    pub expires: int,
    pub autoremove: int,
    pub destroy: bool,
}

/// A record must be reset on its next materialization: its durable expiry
/// has passed, or it was marked for destruction.
pub open spec fn needs_reset(r: RecordView, now: int) -> bool {
    r.expires < now || r.destroy
}

/// One session's record: its identifier, data, durable expiry, memory
/// eviction deadline, and destroy flag. Timestamps are seconds since the
/// Unix epoch.
#[derive(Debug)]
pub struct SqlxSessionData {
    /// The session identifier, in canonical form.
    pub id: String,
    /// The session's key/value data.
    pub data: SessionDataMap,
    /// When the persisted copy expires.
    pub expires: i64,
    /// When the in-memory copy becomes eligible for eviction.
    pub autoremove: i64,
    /// Set by `destroy`: forces a reset on the next materialization.
    pub destroy: bool,
}

impl View for SqlxSessionData {
    type V = RecordView;

    open spec fn view(&self) -> RecordView {
        RecordView {
            id: self.id@,
            data: self.data@,
            expires: self.expires as int,
            autoremove: self.autoremove as int,
            destroy: self.destroy,
        }
    }
}

impl Clone for SqlxSessionData {
    /// Cloning preserves the record's model.
    fn clone(&self) -> (r: Self)
        ensures
            r@ == self@,
    {
        SqlxSessionData {
            id: self.id.clone(),
            data: self.data.clone(),
            expires: self.expires,
            autoremove: self.autoremove,
            destroy: self.destroy,
        }
    }
}

impl SqlxSessionData {
    /// A fresh empty record for `id`, expiring `lifespan` seconds from `now`
    /// in the database and `memory_lifespan` seconds from `now` in memory.
    pub fn empty_record(id: String, now: i64, lifespan: i64, memory_lifespan: i64) -> (r:
        SqlxSessionData)
        requires
            lifespan >= 0,
            memory_lifespan >= 0,
            now + lifespan <= i64::MAX,
            now + memory_lifespan <= i64::MAX,
        ensures
            r@ == (RecordView {
                id: id@,
                data: Map::<Seq<char>, Seq<char>>::empty(),
                expires: now + lifespan,
                autoremove: now + memory_lifespan,
                destroy: false,
            }),
    {
        SqlxSessionData {
            id,
            data: SessionDataMap::new(),
            expires: now + lifespan,
            autoremove: now + memory_lifespan,
            destroy: false,
        }
    }

    /// Whether the record's durable expiry has not yet passed at `now`.
    pub fn validate(&self, now: i64) -> (r: bool)
        ensures
            r == (self@.expires >= now),
    {
        self.expires >= now
    }
}

} // verus!
