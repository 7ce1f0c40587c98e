//! A queue of records keyed by id, each either pending upload or uploaded.
//!
//! A record enters as `Pending`, becomes `Uploaded` once (stamped with the
//! time of the transition) when its id is marked, and may then be purged once
//! it is old enough. No operation ever turns an uploaded record back into a
//! pending one, and purging never touches a pending record.

use vstd::prelude::*;

verus! {

/// Upload state of a stored record.
#[derive(Clone, Copy, Debug, PartialEq, Eq, Structural)]
pub enum StorageState {
    Pending,
    Uploaded,
}

/// Why a storage operation did not happen.
#[derive(Clone, Debug, PartialEq, Eq)]
pub enum StorageError {
    /// A record with this id is already stored, or appears twice in a batch.
    DuplicateId(u128),
    /// The backend could not complete the operation, or rows read back are
    /// inconsistent.
    Internal(String),
}

/// A record kind the queue can hold: it has an id and can be copied exactly.
pub trait Record: View + Sized {
    /// The id of a record, from what the record says.
    spec fn key_of(v: Self::V) -> u128;

    fn key(&self) -> (r: u128)
        ensures
            r == Self::key_of(self@),
    ;

    fn duplicate(&self) -> (r: Self)
        ensures
            r@ == self@,
    ;
}

/// A stored record as the contracts see it.
pub struct Entry<V> {
    pub record: V,
    pub state: StorageState,
    pub uploaded_at: Option<i64>,
}

/// A record held by the queue, with its upload metadata.
pub struct Stored<T> {
    pub record: T,
    pub state: StorageState,
    /// When the record was marked uploaded; absent while it is pending.
    pub uploaded_at: Option<i64>,
}

impl<T: View> Stored<T> {
    pub open spec fn entry(&self) -> Entry<T::V> {
        Entry { record: self.record@, state: self.state, uploaded_at: self.uploaded_at }
    }
}

/// What a sequence of stored records says.
pub open spec fn entries_of<T: View>(rows: Seq<Stored<T>>) -> Seq<Entry<T::V>> {
    rows.map_values(|s: Stored<T>| s.entry())
}

/// The views of a sequence of records.
pub open spec fn views<T: View>(s: Seq<T>) -> Seq<T::V> {
    s.map_values(|t: T| t@)
}

pub open spec fn key_at<T: Record>(s: Seq<Entry<T::V>>, i: int) -> u128 {
    T::key_of(s[i].record)
}

pub open spec fn has_key<T: Record>(s: Seq<Entry<T::V>>, k: u128) -> bool {
    exists|i: int| 0 <= i < s.len() && #[trigger] key_at::<T>(s, i) == k
}

/// No two entries share an id, and an entry carries an upload time exactly
/// when it is uploaded.
pub open spec fn well_formed<T: Record>(s: Seq<Entry<T::V>>) -> bool {
    &&& forall|i: int, j: int|
        0 <= i < s.len() && 0 <= j < s.len() && i != j ==> #[trigger] key_at::<T>(s, i)
            != #[trigger] key_at::<T>(s, j)
    &&& forall|i: int|
        0 <= i < s.len() ==> (#[trigger] s[i].state == StorageState::Pending <==> s[i].uploaded_at
            is None)
}

/// A freshly stored record.
pub open spec fn pending_entry<V>(v: V) -> Entry<V> {
    Entry { record: v, state: StorageState::Pending, uploaded_at: None }
}

/// The ids of a sequence of records.
pub open spec fn keys_of<T: Record>(s: Seq<T::V>) -> Seq<u128> {
    s.map_values(|v: T::V| T::key_of(v))
}

/// Every record of a batch has an id that is neither stored already nor
/// repeated within the batch.
pub open spec fn batch_fresh<T: Record>(s: Seq<Entry<T::V>>, batch: Seq<T::V>) -> bool {
    &&& forall|i: int| 0 <= i < batch.len() ==> !has_key::<T>(s, #[trigger] T::key_of(batch[i]))
    &&& forall|i: int, j: int|
        0 <= i < batch.len() && 0 <= j < batch.len() && i != j ==> T::key_of(#[trigger] batch[i])
            != T::key_of(#[trigger] batch[j])
}

/// The entry after marking: a pending entry named in `ids` becomes uploaded
/// at `now`; every other entry is unchanged.
pub open spec fn mark_entry<T: Record>(e: Entry<T::V>, ids: Seq<u128>, now: i64) -> Entry<T::V> {
    if e.state == StorageState::Pending && ids.contains(T::key_of(e.record)) {
        Entry { record: e.record, state: StorageState::Uploaded, uploaded_at: Some(now) }
    } else {
        e
    }
}

pub open spec fn marked<T: Record>(s: Seq<Entry<T::V>>, ids: Seq<u128>, now: i64) -> Seq<
    Entry<T::V>,
> {
    s.map_values(|e: Entry<T::V>| mark_entry::<T>(e, ids, now))
}

/// The records still pending, in queue order.
pub open spec fn pending_of<V>(s: Seq<Entry<V>>) -> Seq<V>
    decreases s.len(),
{
    if s.len() == 0 {
        Seq::empty()
    } else if s.last().state == StorageState::Pending {
        pending_of(s.drop_last()).push(s.last().record)
    } else {
        pending_of(s.drop_last())
    }
}

/// How many entries are in state `st`.
pub open spec fn count_in<V>(s: Seq<Entry<V>>, st: StorageState) -> nat
    decreases s.len(),
{
    if s.len() == 0 {
        0
    } else if s.last().state == st {
        count_in(s.drop_last(), st) + 1
    } else {
        count_in(s.drop_last(), st)
    }
}

/// An uploaded entry is due for purging when the retention window is zero,
/// or when at least `older_than` milliseconds have passed since its upload.
pub open spec fn expired<V>(e: Entry<V>, older_than: u64, now: i64) -> bool {
    &&& e.state == StorageState::Uploaded
    &&& (older_than == 0 || (e.uploaded_at matches Some(t) && now - t >= older_than))
}

/// The entries that survive a purge, in queue order.
pub open spec fn retained<V>(s: Seq<Entry<V>>, older_than: u64, now: i64) -> Seq<Entry<V>>
    decreases s.len(),
{
    if s.len() == 0 {
        Seq::empty()
    } else if expired(s.last(), older_than, now) {
        retained(s.drop_last(), older_than, now)
    } else {
        retained(s.drop_last(), older_than, now).push(s.last())
    }
}

/// A queue of records of one kind.
///
/// The records sit in a `Vec` in the order they were stored, with unique ids
/// as an invariant (`well_formed`), rather than in a map keyed by id: pending
/// records are handed out in store order, and a map's walk order is left
/// open, so no contract could say in which order `fetch_pending` returns
/// them. Lookups by id are linear scans.
pub struct RecordQueue<T> {
    entries: Vec<Stored<T>>,
}

impl<T: Record> View for RecordQueue<T> {
    type V = Seq<Entry<T::V>>;

    closed spec fn view(&self) -> Seq<Entry<T::V>> {
        entries_of(self.entries@)
    }
}

/// Whether `k` occurs in `ids`.
fn contains_id(ids: &[u128], k: u128) -> (r: bool)
    ensures
        r == ids@.contains(k),
{
    let mut i: usize = 0;
    while i < ids.len()
        invariant
            i <= ids.len(),
            forall|j: int| 0 <= j < i ==> ids@[j] != k,
        decreases ids.len() - i,
    {
        if ids[i] == k {
            return true;
        }
        i = i + 1;
    }
    false
}

impl<T: Record> RecordQueue<T> {
    pub open spec fn wf(&self) -> bool {
        well_formed::<T>(self@)
    }

    /// An empty queue.
    pub fn new() -> (q: Self)
        ensures
            q@ == Seq::<Entry<T::V>>::empty(),
            q.wf(),
    {
        let q = RecordQueue { entries: Vec::new() };
        assert(q@ =~= Seq::<Entry<T::V>>::empty());
        q
    }

    /// How many records are stored.
    pub fn len(&self) -> (r: usize)
        ensures
            r == self@.len(),
    {
        self.entries.len()
    }

    /// Where the record with id `k` is, if it is stored.
    fn position(&self, k: u128) -> (r: Option<usize>)
        ensures
            r matches Some(i) ==> i < self@.len() && key_at::<T>(self@, i as int) == k,
            r is None ==> !has_key::<T>(self@, k),
    {
        let mut i: usize = 0;
        while i < self.entries.len()
            invariant
                i <= self@.len(),
                forall|j: int| 0 <= j < i ==> key_at::<T>(self@, j) != k,
            decreases self.entries.len() - i,
        {
            if self.entries[i].record.key() == k {
                return Some(i);
            }
            i = i + 1;
        }
        None
    }

    /// Stores `record` as pending. Fails, changing nothing, when a record
    /// with the same id is already stored.
    pub fn store(&mut self, record: T) -> (r: Result<(), StorageError>)
        requires
            old(self).wf(),
        ensures
            final(self).wf(),
            r is Ok <==> !has_key::<T>(old(self)@, T::key_of(record@)),
            r is Ok ==> final(self)@ == old(self)@.push(pending_entry(record@)),
            r is Err ==> final(self)@ == old(self)@ && r == Err::<(), StorageError>(
                StorageError::DuplicateId(T::key_of(record@)),
            ),
    {
        let k = record.key();
        match self.position(k) {
            Some(_) => Err(StorageError::DuplicateId(k)),
            None => {
                let ghost before = self@;
                self.entries.push(Stored { record, state: StorageState::Pending, uploaded_at: None });
                assert(self@ =~= before.push(pending_entry(record@)));
                assert forall|i: int, j: int|
                    0 <= i < self@.len() && 0 <= j < self@.len() && i != j implies #[trigger] key_at::<
                        T,
                    >(self@, i) != #[trigger] key_at::<T>(self@, j) by {
                    if i == before.len() {
                        assert(key_at::<T>(before, j) == key_at::<T>(self@, j));
                    } else if j == before.len() {
                        assert(key_at::<T>(before, i) == key_at::<T>(self@, i));
                    } else {
                        assert(key_at::<T>(before, i) == key_at::<T>(self@, i));
                        assert(key_at::<T>(before, j) == key_at::<T>(self@, j));
                    }
                }
                Ok(())
            },
        }
    }

    /// The pending records, in queue order, as copies.
    pub fn fetch_pending(&self) -> (r: Vec<T>)
        ensures
            views(r@) == pending_of(self@),
    {
        let mut r: Vec<T> = Vec::new();
        let mut i: usize = 0;
        while i < self.entries.len()
            invariant
                i <= self@.len(),
                views(r@) == pending_of(self@.subrange(0, i as int)),
            decreases self.entries.len() - i,
        {
            let ghost prefix = self@.subrange(0, i as int + 1);
            assert(prefix.drop_last() =~= self@.subrange(0, i as int));
            let ghost before = r@;
            if self.entries[i].state == StorageState::Pending {
                r.push(self.entries[i].record.duplicate());
                assert(views(r@) =~= views(before).push(prefix.last().record));
            }
            i = i + 1;
        }
        assert(self@.subrange(0, self@.len() as int) =~= self@);
        r
    }

    /// How many entries are in state `st`.
    pub fn count(&self, st: StorageState) -> (r: usize)
        ensures
            r == count_in(self@, st),
    {
        let mut n: usize = 0;
        let mut i: usize = 0;
        while i < self.entries.len()
            invariant
                i <= self@.len(),
                n == count_in(self@.subrange(0, i as int), st),
                n <= i,
            decreases self.entries.len() - i,
        {
            let ghost prefix = self@.subrange(0, i as int + 1);
            assert(prefix.drop_last() =~= self@.subrange(0, i as int));
            if self.entries[i].state == st {
                n = n + 1;
            }
            i = i + 1;
        }
        assert(self@.subrange(0, self@.len() as int) =~= self@);
        n
    }

    /// Marks as uploaded at `now` every pending record whose id is in `ids`.
    /// Ids that name no record, or an already uploaded one, change nothing.
    pub fn mark_uploaded_at(&mut self, ids: &[u128], now: i64)
        requires
            old(self).wf(),
        ensures
            final(self).wf(),
            final(self)@ == marked::<T>(old(self)@, ids@, now),
    {
        let ghost start = self@;
        let mut i: usize = 0;
        while i < self.entries.len()
            invariant
                i <= self@.len(),
                self@.len() == start.len(),
                forall|j: int| 0 <= j < i ==> self@[j] == mark_entry::<T>(start[j], ids@, now),
                forall|j: int| i <= j < self@.len() ==> self@[j] == start[j],
                well_formed::<T>(start),
            decreases self.entries.len() - i,
        {
            let ghost before = self@;
            let pending = self.entries[i].state == StorageState::Pending;
            let k = self.entries[i].record.key();
            if pending && contains_id(ids, k) {
                self.entries[i].state = StorageState::Uploaded;
                self.entries[i].uploaded_at = Some(now);
                assert(self@[i as int] == mark_entry::<T>(start[i as int], ids@, now));
                assert(forall|j: int| 0 <= j < self@.len() && j != i ==> self@[j] == before[j]);
            } else {
                assert(self@ == before);
                assert(self@[i as int] == mark_entry::<T>(start[i as int], ids@, now));
            }
            assert forall|j: int| 0 <= j <= i implies self@[j] == mark_entry::<T>(
                start[j],
                ids@,
                now,
            ) by {
                if j < i {
                    assert(before[j] == mark_entry::<T>(start[j], ids@, now));
                }
            }
            i = i + 1;
        }
        assert(self@ =~= marked::<T>(start, ids@, now));
        assert forall|a: int, b: int|
            0 <= a < self@.len() && 0 <= b < self@.len() && a != b implies #[trigger] key_at::<T>(
                self@,
                a,
            ) != #[trigger] key_at::<T>(self@, b) by {
            assert(key_at::<T>(start, a) == key_at::<T>(self@, a));
            assert(key_at::<T>(start, b) == key_at::<T>(self@, b));
        }
    }

    /// Stores every record of `batch` as pending, in order, or none of them:
    /// it fails, changing nothing, when an id is already stored or repeats
    /// within the batch. An empty batch succeeds and changes nothing.
    pub fn store_batch(&mut self, batch: Vec<T>) -> (r: Result<(), StorageError>)
        requires
            old(self).wf(),
        ensures
            final(self).wf(),
            r is Ok <==> batch_fresh::<T>(old(self)@, views(batch@)),
            r is Ok ==> final(self)@ == old(self)@ + views(batch@).map_values(
                |v: T::V| pending_entry(v),
            ),
            r is Err ==> final(self)@ == old(self)@ && r matches Err(StorageError::DuplicateId(_)),
    {
        let ghost bv = views(batch@);
        let mut i: usize = 0;
        while i < batch.len()
            invariant
                self.wf(),
                i <= batch.len(),
                bv == views(batch@),
                forall|a: int| 0 <= a < i ==> !has_key::<T>(self@, #[trigger] T::key_of(bv[a])),
                forall|a: int, b: int|
                    0 <= a < i && 0 <= b < i && a != b ==> T::key_of(#[trigger] bv[a]) != T::key_of(
                        #[trigger] bv[b],
                    ),
            decreases batch.len() - i,
        {
            let k = batch[i].key();
            assert(bv[i as int] == batch@[i as int]@);
            if self.position(k).is_some() {
                return Err(StorageError::DuplicateId(k));
            }
            let mut j: usize = 0;
            while j < i
                invariant
                    self.wf(),
                    j <= i,
                    i < batch.len(),
                    bv == views(batch@),
                    k == T::key_of(bv[i as int]),
                    forall|b: int| 0 <= b < j ==> T::key_of(#[trigger] bv[b]) != k,
                decreases i - j,
            {
                assert(bv[j as int] == batch@[j as int]@);
                if batch[j].key() == k {
                    assert(T::key_of(bv[j as int]) == T::key_of(bv[i as int]));
                    return Err(StorageError::DuplicateId(k));
                }
                j = j + 1;
            }
            i = i + 1;
        }
        let ghost start = self@;
        let mut batch = batch;
        let ghost n: int = 0;
        while batch.len() > 0
            invariant
                self.wf(),
                n + batch.len() == bv.len(),
                0 <= n,
                views(batch@) == bv.subrange(n, bv.len() as int),
                self@ == start + bv.subrange(0, n).map_values(|v: T::V| pending_entry(v)),
                batch_fresh::<T>(start, bv),
            decreases batch.len(),
        {
            let ghost before_batch = batch@;
            let x = batch.remove(0);
            let ghost k = T::key_of(x@);
            assert(x@ == bv[n]) by {
                assert(views(before_batch)[0] == before_batch[0]@);
            }
            assert(!has_key::<T>(self@, k)) by {
                if has_key::<T>(self@, k) {
                    let idx = choose|idx: int| 0 <= idx < self@.len() && #[trigger] key_at::<T>(self@, idx) == k;
                    if idx < start.len() {
                        assert(key_at::<T>(start, idx) == k);
                        assert(has_key::<T>(start, T::key_of(bv[n])));
                    } else {
                        let m = idx - start.len();
                        assert(self@[idx].record == bv[m]);
                        assert(T::key_of(bv[m]) == T::key_of(bv[n]));
                    }
                }
            }
            let res = self.store(x);
            proof {
                n = n + 1;
            }
            assert forall|t: int| 0 <= t < batch@.len() implies views(batch@)[t] == bv[n + t] by {
                assert(batch@[t] == before_batch[t + 1]);
                assert(views(before_batch)[t + 1] == before_batch[t + 1]@);
            }
            assert(views(batch@) =~= bv.subrange(n, bv.len() as int));
            assert(self@ =~= start + bv.subrange(0, n).map_values(|v: T::V| pending_entry(v)));
        }
        assert(bv.subrange(0, n) =~= bv);
        Ok(())
    }

    /// Purges the uploaded records that are due (see `expired`) as of `now`,
    /// keeping the order of the rest, and returns how many were purged.
    pub fn cleanup_at(&mut self, older_than: u64, now: i64) -> (deleted: usize)
        requires
            old(self).wf(),
        ensures
            final(self).wf(),
            final(self)@ == retained(old(self)@, older_than, now),
            deleted == old(self)@.len() - final(self)@.len(),
    {
        let ghost start = self@;
        let mut i: usize = 0;
        let mut deleted: usize = 0;
        let ghost j: int = 0;
        assert(start.len() == self.entries.len());
        while i < self.entries.len()
            invariant
                self.wf(),
                start.len() <= usize::MAX,
                0 <= i <= j <= start.len(),
                deleted == j - i,
                self@ == retained(start.subrange(0, j), older_than, now) + start.subrange(
                    j,
                    start.len() as int,
                ),
                retained(start.subrange(0, j), older_than, now).len() == i,
                self@.len() == i + (start.len() - j),
            decreases self@.len() - i,
        {
            let ghost before = self@;
            let ghost prefix = start.subrange(0, j + 1);
            assert(prefix.drop_last() =~= start.subrange(0, j));
            assert(before[i as int] == start[j]);
            let due = self.entries[i].state == StorageState::Uploaded && (older_than == 0
                || match self.entries[i].uploaded_at {
                Some(t) => (now as i128) - (t as i128) >= older_than as i128,
                None => false,
            });
            assert(due == expired(start[j], older_than, now));
            if due {
                let _ = self.entries.remove(i);
                deleted = deleted + 1;
                assert(self@ =~= before.remove(i as int));
                assert forall|a: int, b: int|
                    0 <= a < self@.len() && 0 <= b < self@.len() && a != b implies #[trigger] key_at::<
                        T,
                    >(self@, a) != #[trigger] key_at::<T>(self@, b) by {
                    let a2 = if a < i { a } else { a + 1 };
                    let b2 = if b < i { b } else { b + 1 };
                    assert(key_at::<T>(before, a2) == key_at::<T>(self@, a));
                    assert(key_at::<T>(before, b2) == key_at::<T>(self@, b));
                }
                assert forall|a: int| 0 <= a < self@.len() implies (#[trigger] self@[a].state
                    == StorageState::Pending <==> self@[a].uploaded_at is None) by {
                    let a2 = if a < i { a } else { a + 1 };
                    assert(before[a2] == self@[a]);
                }
            } else {
                i = i + 1;
            }
            proof {
                j = j + 1;
            }
            assert(self@ =~= retained(start.subrange(0, j), older_than, now) + start.subrange(
                j,
                start.len() as int,
            ));
        }
        assert(start.subrange(0, j) =~= start);
        assert(start.subrange(j, start.len() as int) =~= Seq::<Entry<T::V>>::empty());
        assert(self@ =~= retained(start, older_than, now));
        deleted
    }

    /// The stored records with their metadata, in queue order, as copies:
    /// the rows a persistent backend keeps.
    pub fn snapshot(&self) -> (r: Vec<Stored<T>>)
        ensures
            entries_of(r@) == self@,
    {
        let mut r: Vec<Stored<T>> = Vec::new();
        let mut i: usize = 0;
        while i < self.entries.len()
            invariant
                i <= self@.len(),
                r@.len() == i,
                forall|k: int| 0 <= k < i ==> #[trigger] r@[k].entry() == self@[k],
            decreases self.entries.len() - i,
        {
            let e = &self.entries[i];
            r.push(Stored { record: e.record.duplicate(), state: e.state, uploaded_at: e.uploaded_at });
            i = i + 1;
        }
        assert(entries_of(r@) =~= self@);
        r
    }

    /// A queue holding `rows`, as after a restart that reads back persisted
    /// rows. Fails when two rows share an id, or a row's upload time does not
    /// match its state.
    pub fn restore(rows: Vec<Stored<T>>) -> (r: Result<Self, StorageError>)
        ensures
            r is Ok <==> well_formed::<T>(entries_of(rows@)),
            r matches Ok(q) ==> q.wf() && q@ == entries_of(rows@),
    {
        let ghost v = entries_of(rows@);
        let mut i: usize = 0;
        while i < rows.len()
            invariant
                i <= rows@.len(),
                v == entries_of(rows@),
                forall|a: int| 0 <= a < i ==> (#[trigger] v[a].state == StorageState::Pending <==> v[a].uploaded_at is None),
                forall|a: int, b: int|
                    0 <= a < i && 0 <= b < i && a != b ==> #[trigger] key_at::<T>(v, a)
                        != #[trigger] key_at::<T>(v, b),
            decreases rows.len() - i,
        {
            assert(v[i as int] == rows@[i as int].entry());
            let pending = rows[i].state == StorageState::Pending;
            if pending != rows[i].uploaded_at.is_none() {
                assert(!(v[i as int].state == StorageState::Pending <==> v[i as int].uploaded_at is None));
                return Err(StorageError::Internal("upload time does not match state".to_string()));
            }
            let k = rows[i].record.key();
            let mut j: usize = 0;
            while j < i
                invariant
                    j <= i,
                    i < rows@.len(),
                    v == entries_of(rows@),
                    k == key_at::<T>(v, i as int),
                    forall|b: int| 0 <= b < j ==> key_at::<T>(v, b) != k,
                decreases i - j,
            {
                assert(v[j as int] == rows@[j as int].entry());
                if rows[j].record.key() == k {
                    assert(key_at::<T>(v, j as int) == key_at::<T>(v, i as int));
                    return Err(StorageError::DuplicateId(k));
                }
                j = j + 1;
            }
            i = i + 1;
        }
        let q = RecordQueue { entries: rows };
        assert(q@ == v);
        Ok(q)
    }
}

} // verus!
