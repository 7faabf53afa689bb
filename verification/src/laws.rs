//! The store's laws: properties relating several operations, stated over the
//! same models the operations' contracts use.
use vstd::prelude::*;
use crate::session_data::{needs_reset, RecordView};
use crate::session_store::{next_sweep_deadline, SqlxSessionStore};

verus! {

/// Isolation: an operation on session `a` — every mutating store operation
/// maps the cache to `m.insert(a, ...)` — neither adds, removes, nor changes
/// the record of any other session `b`.
pub proof fn lemma_other_sessions_unchanged(
    m: Map<Seq<char>, RecordView>,
    a: Seq<char>,
    b: Seq<char>,
    r: RecordView,
)
    requires
        a != b,
    ensures
        m.insert(a, r).dom().contains(b) == m.dom().contains(b),
        m.dom().contains(b) ==> m.insert(a, r)[b] == m[b],
{
}

/// Idempotent insert-if-absent: installing a load result for an identifier
/// leaves exactly one record under it; any further install for the same
/// identifier inserts nothing new, and its outcome no longer depends on what
/// the backend returned — every concurrent materializer of one unseen
/// identifier converges on the same record.
pub proof fn lemma_install_idempotent(
    s: SqlxSessionStore,
    id: Seq<char>,
    l1: Option<RecordView>,
    l2: Option<RecordView>,
    l3: Option<RecordView>,
    now1: int,
    now2: int,
)
    ensures
        ({
            let m1 = s.spec_install(s.sessions(), id, l1, now1);
            &&& m1.dom().contains(id)
            &&& m1.dom() =~= s.sessions().dom().insert(id)
            &&& s.spec_install(m1, id, l2, now2).dom() =~= m1.dom()
            &&& s.spec_install(m1, id, l2, now2) == s.spec_install(m1, id, l3, now2)
        }),
{
}

/// Expiry reset: a record whose durable expiry is past — or which was
/// marked for destruction — comes out of its next materialization with
/// empty data and deadlines freshly computed from `now`, on the cache-hit
/// path and on the load path alike.
pub proof fn lemma_expired_record_reset(
    s: SqlxSessionStore,
    r: RecordView,
    id: Seq<char>,
    now: int,
)
    requires
        needs_reset(r, now),
    ensures
        s.refreshed_record(r, now).data == Map::<Seq<char>, Seq<char>>::empty(),
        s.refreshed_record(r, now).expires == now + s.config.lifespan,
        s.refreshed_record(r, now).autoremove == now + s.config.memory_lifespan,
        s.installed_record(Some(r), id, now).data == Map::<Seq<char>, Seq<char>>::empty(),
        s.installed_record(Some(r), id, now).expires == now + s.config.lifespan,
        s.installed_record(Some(r), id, now).autoremove == now + s.config.memory_lifespan,
{
}

/// Round trip: after `set(id, k, v)` — which maps the cache to the insert
/// below — `get(id, k)` finds exactly `v`.
pub proof fn lemma_set_then_get(
    m: Map<Seq<char>, RecordView>,
    id: Seq<char>,
    k: Seq<char>,
    v: Seq<char>,
)
    requires
        m.dom().contains(id),
    ensures
        ({
            let m2 = m.insert(id, RecordView { data: m[id].data.insert(k, v), ..m[id] });
            &&& m2.dom().contains(id)
            &&& m2[id].data.dom().contains(k)
            &&& m2[id].data[k] == v
        }),
{
}

/// Destroy is deferred: `destroy(id)` — which maps the cache to the insert
/// below — only raises the flag; every stored key still reads the same
/// value until the next materialization resets the record.
pub proof fn lemma_destroy_preserves_data(m: Map<Seq<char>, RecordView>, id: Seq<char>, k: Seq<
    char,
>)
    requires
        m.dom().contains(id),
    ensures
        ({
            let m2 = m.insert(id, RecordView { destroy: true, ..m[id] });
            &&& m2[id].destroy
            &&& m2[id].data == m[id].data
            &&& m2[id].data.dom().contains(k) <==> m[id].data.dom().contains(k)
            &&& (m2[id].data.dom().contains(k) ==> m2[id].data[k] == m[id].data[k])
        }),
{
}

/// Sweep throttling: when a sweep runs at `now1`, its deadline moves to
/// `now1 + lifespan`; at any `now2` within that interval the sweep is not
/// due again, so a second new-identifier materialization prunes nothing.
pub proof fn lemma_sweep_throttled(deadline: int, lifespan: int, now1: int, now2: int)
    requires
        deadline <= now1,
        now2 < now1 + lifespan,
    ensures
        !(next_sweep_deadline(deadline, lifespan, now1) <= now2),
{
}

} // verus!
