//! The in-memory session cache map: identifier string to session record.
//! Its model is a `Map` from identifier characters to record models.
use vstd::prelude::*;
use crate::kvlist::{kv_map, keys_unique, lemma_kv_map_at, lemma_kv_map_dom, lemma_kv_map_push,
    lemma_kv_map_update};
use crate::session_data::{RecordView, SqlxSessionData};

verus! {

/// The part of `m` whose memory-eviction deadline is still in the future at
/// `now`: what a memory sweep leaves behind.
pub open spec fn pruned_map(m: Map<Seq<char>, RecordView>, now: int) -> Map<Seq<char>, RecordView> {
    Map::new(|k: Seq<char>| m.dom().contains(k) && m[k].autoremove > now, |k: Seq<char>| m[k])
}

/// The in-memory mapping from session identifier to session record: the
/// single source of truth for hot sessions.
#[derive(Debug)]
pub struct SessionMap {
    entries: Vec<(String, SqlxSessionData)>,
}

impl View for SessionMap {
    type V = Map<Seq<char>, RecordView>;

    closed spec fn view(&self) -> Map<Seq<char>, RecordView> {
        kv_map(self.entries@)
    }
}

impl SessionMap {
    #[verifier::type_invariant]
    spec fn inv(self) -> bool {
        keys_unique(self.entries@)
    }

    /// An empty cache map.
    pub fn new() -> (r: SessionMap)
        ensures
            r@ == Map::<Seq<char>, RecordView>::empty(),
    {
        SessionMap { entries: Vec::new() }
    }

    /// The index of the entry carrying `key`, if any.
    fn position_of(&self, key: &String) -> (r: Option<usize>)
        ensures
            match r {
                Some(i) => i < self.entries@.len() && self.entries@[i as int].0@ == key@,
                None => forall|j: int|
                    0 <= j < self.entries@.len() ==> self.entries@[j].0@ != key@,
            },
    {
        let mut i: usize = 0;
        while i < self.entries.len()
            invariant
                i <= self.entries@.len(),
                forall|j: int| 0 <= j < i ==> self.entries@[j].0@ != key@,
            decreases self.entries@.len() - i,
        {
            if self.entries[i].0 == *key {
                return Some(i);
            }
            i += 1;
        }
        None
    }

    /// Whether a record is cached under `key`.
    pub fn contains_key(&self, key: &String) -> (r: bool)
        ensures
            r == self@.dom().contains(key@),
    {
        proof {
            lemma_kv_map_dom(self.entries@, key@);
        }
        self.position_of(key).is_some()
    }

    /// The cached record under `key`, if any.
    pub fn get(&self, key: &String) -> (r: Option<&SqlxSessionData>)
        ensures
            match r {
                Some(v) => self@.dom().contains(key@) && v@ == self@[key@],
                None => !self@.dom().contains(key@),
            },
    {
        match self.position_of(key) {
            Some(i) => {
                proof {
                    use_type_invariant(self);
                    lemma_kv_map_at(self.entries@, i as int);
                }
                Some(&self.entries[i].1)
            },
            None => {
                proof {
                    lemma_kv_map_dom(self.entries@, key@);
                }
                None
            },
        }
    }

    /// Cache `record` under `key`, replacing any earlier record.
    pub fn insert(&mut self, key: String, record: SqlxSessionData)
        ensures
            final(self)@ == old(self)@.insert(key@, record@),
    {
        proof {
            use_type_invariant(&*self);
        }
        let pos = self.position_of(&key);
        let mut es: Vec<(String, SqlxSessionData)> = Vec::new();
        core::mem::swap(&mut es, &mut self.entries);
        let ghost s = es@;
        match pos {
            Some(i) => {
                let e = &mut es[i];
                e.1 = record;
                proof {
                    lemma_kv_map_update(s, i as int, es@[i as int]);
                }
            },
            None => {
                es.push((key, record));
                proof {
                    lemma_kv_map_push(s, es@.last());
                }
            },
        }
        core::mem::swap(&mut es, &mut self.entries);
    }

    /// Remove every record whose memory-eviction deadline has passed at
    /// `now`; the surviving records are unchanged.
    pub fn prune_expired(&mut self, now: i64)
        ensures
            final(self)@ == pruned_map(old(self)@, now as int),
    {
        proof {
            use_type_invariant(&*self);
        }
        let mut es: Vec<(String, SqlxSessionData)> = Vec::new();
        core::mem::swap(&mut es, &mut self.entries);
        let ghost s0 = es@;
        let mut kept: Vec<(String, SqlxSessionData)> = Vec::new();
        proof {
            assert(s0.take(s0.len() as int) =~= s0);
            assert(pruned_map(kv_map(s0), now as int).remove_keys(kv_map(s0).dom()) =~= kv_map(
                kept@));
        }
        while es.len() > 0
            invariant
                keys_unique(s0),
                es@.len() <= s0.len(),
                es@ == s0.take(es@.len() as int),
                keys_unique(kept@),
                forall|j: int, l: int|
                    0 <= j < kept@.len() && 0 <= l < es@.len() ==> kept@[j].0@ != es@[l].0@,
                kv_map(kept@) == pruned_map(kv_map(s0), now as int).remove_keys(kv_map(es@).dom()),
            decreases es@.len(),
        {
            let ghost es_pre = es@;
            let ghost i = es@.len() - 1;
            let e = es.pop().unwrap();
            proof {
                assert(es@ =~= s0.take(i));
                assert(s0[i] == e);
                lemma_kv_map_at(s0, i);
                assert(es_pre =~= es@.push(e));
                lemma_kv_map_push(es@, e);
                assert(kv_map(es_pre) == kv_map(es@).insert(e.0@, e.1@));
            }
            if e.1.autoremove > now {
                let ghost kept_pre = kept@;
                kept.push(e);
                proof {
                    lemma_kv_map_push(kept_pre, kept@.last());
                    lemma_kv_map_dom(es@, e.0@);
                    assert(forall|l: int| 0 <= l < es@.len() ==> es@[l] == s0[l]);
                    assert(!kv_map(es@).dom().contains(e.0@));
                    assert(kv_map(kept@) =~= pruned_map(kv_map(s0), now as int).remove_keys(
                        kv_map(es@).dom()));
                }
            } else {
                proof {
                    assert(!pruned_map(kv_map(s0), now as int).dom().contains(e.0@));
                    assert(kv_map(kept@) =~= pruned_map(kv_map(s0), now as int).remove_keys(
                        kv_map(es@).dom()));
                }
            }
        }
        proof {
            assert(kv_map(kept@) =~= pruned_map(kv_map(s0), now as int));
        }
        core::mem::swap(&mut kept, &mut self.entries);
    }
}

} // verus!
