//! Laws of the record lifecycle, stated over the queue model.
//!
//! Every operation of a queue is one of `QueueOp`, with the effect `apply`
//! gives it (the contracts of `RecordQueue` say exactly this). A persistent
//! backend confirms an operation only once it is committed, and a restarted
//! instance reads the committed rows back (`RecordQueue::restore` of what
//! `snapshot` gave is the same queue), so the state after a crash and restart
//! is `run` of the confirmed operations.

use vstd::prelude::*;
use crate::queue::{
    batch_fresh, expired, has_key, key_at, mark_entry, marked, pending_entry, pending_of, retained,
    Entry, Record, StorageState,
};

verus! {

/// One operation on a queue of records whose views are `V`.
pub enum QueueOp<V> {
    Store(V),
    StoreBatch(Seq<V>),
    Mark(Seq<u128>, i64),
    Cleanup(u64, i64),
}

/// The queue after one operation.
pub open spec fn apply<T: Record>(s: Seq<Entry<T::V>>, op: QueueOp<T::V>) -> Seq<Entry<T::V>> {
    match op {
        QueueOp::Store(v) => if has_key::<T>(s, T::key_of(v)) {
            s
        } else {
            s.push(pending_entry(v))
        },
        QueueOp::StoreBatch(b) => if batch_fresh::<T>(s, b) {
            s + b.map_values(|v: T::V| pending_entry(v))
        } else {
            s
        },
        QueueOp::Mark(ids, now) => marked::<T>(s, ids, now),
        QueueOp::Cleanup(older_than, now) => retained(s, older_than, now),
    }
}

/// The queue after a sequence of operations, applied in order.
pub open spec fn run<T: Record>(s: Seq<Entry<T::V>>, ops: Seq<QueueOp<T::V>>) -> Seq<Entry<T::V>>
    decreases ops.len(),
{
    if ops.len() == 0 {
        s
    } else {
        apply::<T>(run::<T>(s, ops.drop_last()), ops.last())
    }
}

/// Whether some operation of `ops` marks the id `k`.
pub open spec fn marks_key<V>(ops: Seq<QueueOp<V>>, k: u128) -> bool {
    exists|i: int| 0 <= i < ops.len() && (#[trigger] ops[i] matches QueueOp::Mark(ids, _) && ids.contains(k))
}

/// A record is among the pending ones exactly when some pending entry holds it.
pub proof fn lemma_pending_of_contains<V>(s: Seq<Entry<V>>, v: V)
    ensures
        pending_of(s).contains(v) <==> exists|i: int|
            0 <= i < s.len() && #[trigger] s[i].state == StorageState::Pending && s[i].record == v,
    decreases s.len(),
{
    if s.len() > 0 {
        let d = s.drop_last();
        lemma_pending_of_contains(d, v);
        if pending_of(s).contains(v) {
            if s.last().state == StorageState::Pending && s.last().record == v {
                assert(s[s.len() - 1].state == StorageState::Pending);
            } else {
                if s.last().state == StorageState::Pending {
                    let k = choose|k: int| 0 <= k < pending_of(s).len() && pending_of(s)[k] == v;
                    assert(pending_of(s) == pending_of(d).push(s.last().record));
                    assert(pending_of(d)[k] == v);
                }
                let i = choose|i: int|
                    0 <= i < d.len() && #[trigger] d[i].state == StorageState::Pending && d[i].record
                        == v;
                assert(s[i] == d[i]);
            }
        }
        if exists|i: int|
            0 <= i < s.len() && #[trigger] s[i].state == StorageState::Pending && s[i].record == v {
            let i = choose|i: int|
                0 <= i < s.len() && #[trigger] s[i].state == StorageState::Pending && s[i].record == v;
            if i == s.len() - 1 {
                assert(pending_of(s).last() == v);
            } else {
                assert(d[i] == s[i]);
                let k = choose|k: int| 0 <= k < pending_of(d).len() && pending_of(d)[k] == v;
                if s.last().state == StorageState::Pending {
                    assert(pending_of(s)[k] == v);
                }
            }
        }
    }
}

/// A purge keeps an entry exactly when the entry is not due.
pub proof fn lemma_retained_contains<V>(s: Seq<Entry<V>>, older_than: u64, now: i64, e: Entry<V>)
    ensures
        retained(s, older_than, now).contains(e) <==> (s.contains(e) && !expired(
            e,
            older_than,
            now,
        )),
    decreases s.len(),
{
    if s.len() > 0 {
        let d = s.drop_last();
        lemma_retained_contains(d, older_than, now, e);
        let rd = retained(d, older_than, now);
        if s.contains(e) && !expired(e, older_than, now) {
            let i = choose|i: int| 0 <= i < s.len() && s[i] == e;
            if i < s.len() - 1 {
                assert(d[i] == e);
                let k = choose|k: int| 0 <= k < rd.len() && rd[k] == e;
                if !expired(s.last(), older_than, now) {
                    assert(rd.push(s.last())[k] == e);
                }
            } else {
                assert(rd.push(s.last()).last() == e);
            }
        }
        if retained(s, older_than, now).contains(e) {
            let k = choose|k: int|
                0 <= k < retained(s, older_than, now).len() && retained(s, older_than, now)[k] == e;
            if !expired(s.last(), older_than, now) && k == rd.len() {
                assert(s[s.len() - 1] == e);
            } else {
                assert(rd[k] == e);
                let i = choose|i: int| 0 <= i < d.len() && d[i] == e;
                assert(s[i] == e);
            }
        }
    }
}

/// Marking the same ids a second time, at any time, leaves the queue as the
/// first marking left it.
pub proof fn lemma_mark_uploaded_idempotent<T: Record>(
    s: Seq<Entry<T::V>>,
    ids: Seq<u128>,
    first: i64,
    second: i64,
)
    ensures
        marked::<T>(marked::<T>(s, ids, first), ids, second) == marked::<T>(s, ids, first),
{
    assert(marked::<T>(marked::<T>(s, ids, first), ids, second) =~= marked::<T>(s, ids, first));
}

/// Ids that name no stored record change nothing.
pub proof fn lemma_mark_unknown_ids<T: Record>(s: Seq<Entry<T::V>>, ids: Seq<u128>, now: i64)
    requires
        forall|i: int| 0 <= i < ids.len() ==> !has_key::<T>(s, #[trigger] ids[i]),
    ensures
        marked::<T>(s, ids, now) == s,
{
    assert forall|i: int| 0 <= i < s.len() implies mark_entry::<T>(s[i], ids, now) == s[i] by {
        if ids.contains(T::key_of(s[i].record)) {
            let j = choose|j: int| 0 <= j < ids.len() && ids[j] == T::key_of(s[i].record);
            assert(key_at::<T>(s, i) == ids[j]);
        }
    }
    assert(marked::<T>(s, ids, now) =~= s);
}

/// A purge, whatever its retention window (zero included), deletes no
/// pending record: the pending records and their count are unchanged.
pub proof fn lemma_cleanup_keeps_pending<V>(s: Seq<Entry<V>>, older_than: u64, now: i64)
    ensures
        pending_of(retained(s, older_than, now)) == pending_of(s),
        crate::queue::count_in(retained(s, older_than, now), StorageState::Pending)
            == crate::queue::count_in(s, StorageState::Pending),
    decreases s.len(),
{
    if s.len() > 0 {
        let d = s.drop_last();
        lemma_cleanup_keeps_pending(d, older_than, now);
        if !expired(s.last(), older_than, now) {
            let r = retained(d, older_than, now).push(s.last());
            assert(r.drop_last() =~= retained(d, older_than, now));
        }
    }
}

/// With one record uploaded at `t1` and another at `t2`, where
/// `now - t1 >= older_than > now - t2` and the window is not zero, a purge
/// deletes the first and keeps the second.
pub proof fn lemma_retention_threshold<V>(
    s: Seq<Entry<V>>,
    older_than: u64,
    now: i64,
    i: int,
    j: int,
    t1: i64,
    t2: i64,
)
    requires
        0 <= i < s.len(),
        0 <= j < s.len(),
        s[i].state == StorageState::Uploaded,
        s[j].state == StorageState::Uploaded,
        s[i].uploaded_at == Some(t1),
        s[j].uploaded_at == Some(t2),
        t1 < t2,
        now - t1 >= older_than,
        older_than > now - t2,
        older_than > 0,
    ensures
        !retained(s, older_than, now).contains(s[i]),
        retained(s, older_than, now).contains(s[j]),
{
    lemma_retained_contains(s, older_than, now, s[i]);
    lemma_retained_contains(s, older_than, now, s[j]);
    assert(s.contains(s[j]));
}

/// One operation that marks no id of `v` keeps a pending `v` pending.
pub proof fn lemma_op_keeps_pending<T: Record>(s: Seq<Entry<T::V>>, op: QueueOp<T::V>, v: T::V)
    requires
        pending_of(s).contains(v),
        !(op matches QueueOp::Mark(ids, _) && ids.contains(T::key_of(v))),
    ensures
        pending_of(apply::<T>(s, op)).contains(v),
{
    lemma_pending_of_contains(s, v);
    let i = choose|i: int|
        0 <= i < s.len() && #[trigger] s[i].state == StorageState::Pending && s[i].record == v;
    let a = apply::<T>(s, op);
    match op {
        QueueOp::Store(w) => {
            if !has_key::<T>(s, T::key_of(w)) {
                assert(a[i] == s[i]);
            }
        },
        QueueOp::StoreBatch(b) => {
            if batch_fresh::<T>(s, b) {
                assert(a[i] == s[i]);
            }
        },
        QueueOp::Mark(ids, now) => {
            assert(a[i] == s[i]);
        },
        QueueOp::Cleanup(older_than, now) => {
            assert(s.contains(s[i]));
            lemma_retained_contains(s, older_than, now, s[i]);
            let k = choose|k: int| 0 <= k < a.len() && a[k] == s[i];
            assert(a[k].state == StorageState::Pending);
        },
    }
    lemma_pending_of_contains(a, v);
}

/// At-least-once delivery: a record that is pending stays among the pending
/// records through any sequence of stores, batch stores, markings and
/// purges, as long as none of the markings names its id. A restart that
/// reads back the committed operations therefore still offers it for upload.
pub proof fn lemma_unmarked_stays_pending<T: Record>(
    s: Seq<Entry<T::V>>,
    ops: Seq<QueueOp<T::V>>,
    v: T::V,
)
    requires
        pending_of(s).contains(v),
        !marks_key(ops, T::key_of(v)),
    ensures
        pending_of(run::<T>(s, ops)).contains(v),
    decreases ops.len(),
{
    if ops.len() > 0 {
        let d = ops.drop_last();
        assert(!marks_key(d, T::key_of(v))) by {
            if marks_key(d, T::key_of(v)) {
                let i = choose|i: int|
                    0 <= i < d.len() && (#[trigger] d[i] matches QueueOp::Mark(ids, _) && ids.contains(
                        T::key_of(v),
                    ));
                assert(ops[i] == d[i]);
            }
        }
        lemma_unmarked_stays_pending::<T>(s, d, v);
        assert(ops[ops.len() - 1] == ops.last());
        lemma_op_keeps_pending::<T>(run::<T>(s, d), ops.last(), v);
    }
}

/// A record stored into a queue where its id is not yet present is pending
/// afterwards.
pub proof fn lemma_store_makes_pending<T: Record>(s: Seq<Entry<T::V>>, v: T::V)
    requires
        !has_key::<T>(s, T::key_of(v)),
    ensures
        pending_of(apply::<T>(s, QueueOp::Store(v))).contains(v),
{
    let a = apply::<T>(s, QueueOp::Store(v));
    assert(a[s.len() as int].state == StorageState::Pending);
    lemma_pending_of_contains(a, v);
}

} // verus!
