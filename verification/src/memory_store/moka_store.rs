use crate::cache::cache::{
    CacheMetaData, DeltaParam, DeltaResult, KeyType, Record, RecordModel, SetStatus,
};
use crate::cache::error::{CacheError, Result};
use crate::memcache::cli::parser::MokaConfig;
use crate::cache::cache::copy_bytes;
use crate::memory_store::dash_map_store::{concat_bytes, no_records, with_time_to_live};
use crate::memory_store::engine::StoreEngine;
use crate::memory_store::numeric::u64_to_decimal;
use crate::memory_store::shared_store_state::{read_counter, SharedStoreState};
use crate::memory_store::store_spec::{
    spec_add, spec_append_prepend, spec_delete, spec_flush, spec_get, spec_incr_decr,
    spec_replace, spec_set, spec_set_all_ttl, store_outcome, StoreView,
};
use crate::protocol::binary::network::DELTA_NO_INITIAL_VALUE;
use moka::sync::Cache as MokaCache;
use vstd::prelude::*;

verus! {

#[verifier::external_type_specification]
#[verifier::external_body]
#[verifier::reject_recursive_types(K)]
#[verifier::reject_recursive_types(V)]
#[verifier::reject_recursive_types(S)]
pub struct ExMokaCache<K, V, S>(MokaCache<K, V, S>);

/// What a cache of records holds, as its `get` would return it: for each
/// key, the record as (cas, flags, time to live, value).
pub uninterp spec fn moka_contents(c: MokaCache<Vec<u8>, Record>) -> Map<Seq<u8>, RecordModel>;

/// How many more entries a cache of records is sure to admit: the capacity
/// it was made with, less its weighted size (one per admitted entry, as no
/// weigher is set) and less the inserts still waiting in its write log.
/// While this is positive every insert is admitted and nothing is evicted:
/// the cache admits a new entry whenever its weighted size plus the
/// entry's weight stays within the capacity, and evicts only when the
/// weighted size exceeds it.
pub uninterp spec fn moka_room(c: MokaCache<Vec<u8>, Record>) -> int;

/// `moka::sync::Cache::new`: an empty cache bounded to `max_capacity`
/// entries.
#[verifier::external_body]
fn moka_new(max_capacity: u64) -> (c: MokaCache<Vec<u8>, Record>)
    ensures
        moka_contents(c) == no_records(),
        moka_room(c) == max_capacity,
{
    MokaCache::new(max_capacity)
}

/// `moka::sync::Cache::get`: a clone of the record under `key`, if the
/// cache holds one. The lookup comes first; then the call may run the
/// cache's maintenance, which can drop entries but adds or changes none,
/// counts no new entry, and drops none while the cache has room.
#[verifier::external_body]
fn moka_get(c: &mut MokaCache<Vec<u8>, Record>, key: &Vec<u8>) -> (r: Option<Record>)
    ensures
        match r {
            Some(rec) => moka_contents(*old(c)).contains_key(key@) && rec@ == moka_contents(
                *old(c),
            )[key@],
            None => !moka_contents(*old(c)).contains_key(key@),
        },
        moka_contents(*final(c)).submap_of(moka_contents(*old(c))),
        moka_room(*final(c)) >= moka_room(*old(c)),
        moka_room(*old(c)) >= 0 ==> moka_contents(*final(c)) == moka_contents(*old(c)),
{
    c.get(key)
}

/// `moka::sync::Cache::insert`: the record is stored under `key`, and the
/// write counts at most one more entry against the capacity. A full cache
/// may reject or later drop entries to stay within its capacity, so
/// afterwards it holds at most what it held plus the new record; one with
/// room keeps them all.
#[verifier::external_body]
fn moka_insert(c: &mut MokaCache<Vec<u8>, Record>, key: Vec<u8>, value: Record)
    ensures
        moka_contents(*final(c)).submap_of(moka_contents(*old(c)).insert(key@, value@)),
        moka_room(*final(c)) >= moka_room(*old(c)) - 1,
        moka_room(*old(c)) >= 1 ==> moka_contents(*final(c)) == moka_contents(*old(c)).insert(
            key@,
            value@,
        ),
{
    c.insert(key, value);
}

/// `moka::sync::Cache::invalidate`: the record under `key` is discarded;
/// the call counts no new entry, and with room it drops no other.
#[verifier::external_body]
fn moka_invalidate(c: &mut MokaCache<Vec<u8>, Record>, key: &Vec<u8>)
    ensures
        moka_contents(*final(c)).submap_of(moka_contents(*old(c)).remove(key@)),
        moka_room(*final(c)) >= moka_room(*old(c)),
        moka_room(*old(c)) >= 0 ==> moka_contents(*final(c)) == moka_contents(*old(c)).remove(
            key@,
        ),
{
    c.invalidate(key);
}

/// `moka::sync::Cache::invalidate_all`: no record stored before the call is
/// returned after it, as the crate documents. The entries stay counted
/// until maintenance removes them, so the room does not shrink but need
/// not grow.
#[verifier::external_body]
fn moka_invalidate_all(c: &mut MokaCache<Vec<u8>, Record>)
    ensures
        moka_contents(*final(c)) == no_records(),
        moka_room(*final(c)) >= moka_room(*old(c)),
{
    c.invalidate_all();
}

/// `entries` lists the records of `m`: each entry is a record of `m`, no key
/// comes twice, and every key of `m` comes.
pub open spec fn lists_records(entries: Seq<(Vec<u8>, Record)>, m: Map<Seq<u8>, RecordModel>) -> bool {
    &&& forall|i: int| 0 <= i < entries.len() ==> m.contains_key(#[trigger] entries[i].0@) && m[entries[i].0@] == entries[i].1@
    &&& forall|i: int, j: int| 0 <= i < j < entries.len() ==> #[trigger] entries[i].0@ != #[trigger] entries[j].0@
    &&& forall|k: Seq<u8>| #[trigger] m.contains_key(k) ==> exists|i: int| 0 <= i < entries.len() && #[trigger] entries[i].0@ == k
}

/// `moka::sync::Cache::iter`, each key copied out of its `Arc`: every
/// record the cache holds, once each, in an order the crate does not fix.
/// The walk reads entries as `get` does, without recording the reads, so
/// it changes nothing.
#[verifier::external_body]
fn moka_entries(c: &MokaCache<Vec<u8>, Record>) -> (r: Vec<(Vec<u8>, Record)>)
    ensures
        lists_records(r@, moka_contents(*c)),
{
    c.iter().map(|(key, record)| ((*key).clone(), record)).collect()
}

/// `moka::sync::Cache::run_pending_tasks`: maintenance, which can drop
/// entries but adds or changes none, counts no new entry, and drops none
/// while the cache has room.
#[verifier::external_body]
fn moka_run_pending_tasks(c: &mut MokaCache<Vec<u8>, Record>)
    ensures
        moka_contents(*final(c)).submap_of(moka_contents(*old(c))),
        moka_room(*final(c)) >= moka_room(*old(c)),
        moka_room(*old(c)) >= 0 ==> moka_contents(*final(c)) == moka_contents(*old(c)),
{
    c.run_pending_tasks();
}

/// A listing of the records of `m` has as many entries as `m` has keys.
proof fn lemma_listed_len(entries: Seq<(Vec<u8>, Record)>, m: Map<Seq<u8>, RecordModel>)
    requires
        lists_records(entries, m),
    ensures
        m.dom().finite(),
        m.len() == entries.len(),
{
    broadcast use vstd::seq_lib::group_seq_properties;
    let keys = Seq::new(entries.len(), |i: int| entries[i].0@);
    assert forall|i: int, j: int| 0 <= i < keys.len() && 0 <= j < keys.len() && i != j implies keys[i] != keys[j] by {
        if i < j {
            assert(entries[i].0@ != entries[j].0@);
        } else {
            assert(entries[j].0@ != entries[i].0@);
        }
    }
    assert(keys.no_duplicates());
    keys.unique_seq_to_set();
    assert forall|k: Seq<u8>| m.dom().contains(k) <==> keys.to_set().contains(k) by {
        if m.dom().contains(k) {
            let i = choose|i: int| 0 <= i < entries.len() && #[trigger] entries[i].0@ == k;
            assert(keys[i] == k);
            assert(keys.contains(k));
        }
        if keys.to_set().contains(k) {
            assert(keys.contains(k));
            let i = choose|i: int| 0 <= i < keys.len() && keys[i] == k;
            assert(m.contains_key(entries[i].0@));
        }
    }
    assert(m.dom() =~= keys.to_set());
}

/// `m` with the time to live `ttl` given to the records of the first `n`
/// entries.
pub open spec fn ttl_given(m: Map<Seq<u8>, RecordModel>, entries: Seq<(Vec<u8>, Record)>, n: int, ttl: u32) -> Map<Seq<u8>, RecordModel> {
    Map::new(
        |k: Seq<u8>| m.contains_key(k),
        |k: Seq<u8>| if exists|j: int| 0 <= j < n && #[trigger] entries[j].0@ == k {
            (m[k].0, m[k].1, ttl, m[k].3)
        } else {
            m[k]
        },
    )
}

proof fn lemma_ttl_given_step(m: Map<Seq<u8>, RecordModel>, entries: Seq<(Vec<u8>, Record)>, n: int, ttl: u32)
    requires
        0 <= n < entries.len(),
        lists_records(entries, m),
    ensures
        ttl_given(m, entries, n, ttl).insert(
            entries[n].0@,
            (entries[n].1@.0, entries[n].1@.1, ttl, entries[n].1@.3),
        ) == ttl_given(m, entries, n + 1, ttl),
{
    let k0 = entries[n].0@;
    assert(m.contains_key(k0) && m[k0] == entries[n].1@);
    let lhs = ttl_given(m, entries, n, ttl).insert(k0, (entries[n].1@.0, entries[n].1@.1, ttl, entries[n].1@.3));
    let rhs = ttl_given(m, entries, n + 1, ttl);
    assert forall|k: Seq<u8>| #[trigger] rhs.contains_key(k) implies lhs.contains_key(k) && lhs[k] == rhs[k] by {
        if k == k0 {
            assert(entries[n].0@ == k);
        } else {
            if exists|j: int| 0 <= j < n + 1 && #[trigger] entries[j].0@ == k {
                let j = choose|j: int| 0 <= j < n + 1 && #[trigger] entries[j].0@ == k;
                assert(j != n);
                assert(0 <= j < n && entries[j].0@ == k);
            }
        }
    }
    assert(lhs =~= rhs);
}

proof fn lemma_ttl_given_all(m: Map<Seq<u8>, RecordModel>, entries: Seq<(Vec<u8>, Record)>, ttl: u32)
    requires
        lists_records(entries, m),
    ensures
        ttl_given(m, entries, entries.len() as int, ttl) == spec_set_all_ttl(m, ttl),
{
    let lhs = ttl_given(m, entries, entries.len() as int, ttl);
    let rhs = spec_set_all_ttl(m, ttl);
    assert forall|k: Seq<u8>| #[trigger] rhs.contains_key(k) implies lhs.contains_key(k) && lhs[k] == rhs[k] by {
        assert(m.contains_key(k));
        let i = choose|i: int| 0 <= i < entries.len() && #[trigger] entries[i].0@ == k;
        assert(0 <= i < entries.len() && entries[i].0@ == k);
    }
    assert(lhs =~= rhs);
}

proof fn lemma_submap_trans(a: Map<Seq<u8>, RecordModel>, b: Map<Seq<u8>, RecordModel>, c: Map<Seq<u8>, RecordModel>)
    requires
        a.submap_of(b),
        b.submap_of(c),
    ensures
        a.submap_of(c),
{
    assert forall|k: Seq<u8>| #[trigger] a.dom().contains(k) implies c.dom().contains(k) && a[k] == c[k] by {
        assert(b.dom().contains(k));
    }
}

proof fn lemma_submap_insert(a: Map<Seq<u8>, RecordModel>, b: Map<Seq<u8>, RecordModel>, k: Seq<u8>, v: RecordModel)
    requires
        a.submap_of(b),
    ensures
        a.insert(k, v).submap_of(b.insert(k, v)),
{
    assert forall|j: Seq<u8>| #[trigger] a.insert(k, v).dom().contains(j) implies b.insert(k, v).dom().contains(j)
        && a.insert(k, v)[j] == b.insert(k, v)[j] by {
        if j != k {
            assert(a.dom().contains(j));
        }
    }
}

proof fn lemma_submap_remove(a: Map<Seq<u8>, RecordModel>, b: Map<Seq<u8>, RecordModel>, k: Seq<u8>)
    requires
        a.submap_of(b),
    ensures
        a.remove(k).submap_of(b.remove(k)),
{
    assert forall|j: Seq<u8>| #[trigger] a.remove(k).dom().contains(j) implies b.remove(k).dom().contains(j)
        && a.remove(k)[j] == b.remove(k)[j] by {
        assert(a.dom().contains(j));
    }
}

/// Store backed by a bounded concurrent cache, which evicts records on its
/// own when it is full.
///
/// Every answer is exact against the records the cache held before the
/// call. While the cache has room (each write takes at most one place of
/// its capacity) it keeps every record the model holds. Once it is full,
/// which records it keeps is left open: its TinyLFU admission compares
/// frequency estimates of hashed keys, with a hasher seeded anew in every
/// process, so a record just written may be rejected or another evicted;
/// the contracts then say only that the records kept are among those the
/// model holds, each as the model holds it.
pub struct MokaMemoryStore {
    memory: MokaCache<KeyType, Record>,
    store_state: SharedStoreState,
}

impl View for MokaMemoryStore {
    type V = StoreView;

    closed spec fn view(&self) -> StoreView {
        StoreView {
            contents: moka_contents(self.memory),
            now: self.store_state.spec_timestamp(),
            next_cas: self.store_state.spec_cas_id(),
            engine: StoreEngine::Moka,
            room: moka_room(self.memory),
        }
    }
}

impl MokaMemoryStore {
    /// An empty store at time 0 that holds at most `config.max_capacity`
    /// records.
    pub fn new(config: MokaConfig) -> (r: MokaMemoryStore)
        ensures
            r@ == (StoreView {
                contents: Map::empty(),
                now: 0,
                next_cas: 1,
                engine: StoreEngine::Moka,
                room: config.max_capacity as int,
            }),
    {
        let store_state = SharedStoreState::new();
        MokaMemoryStore { memory: moka_new(config.max_capacity), store_state }
    }

    /// Sets the store's clock, in seconds.
    pub fn set_timestamp(&mut self, timestamp: u32)
        ensures
            final(self)@ == (StoreView { now: timestamp, ..old(self)@ }),
    {
        self.store_state.set_timestamp(timestamp);
    }

    /// The record under `key`, as the cache holds it now.
    fn lookup(&mut self, key: &KeyType) -> (r: Option<Record>)
        ensures
            match r {
                Some(rec) => old(self)@.contents.contains_key(key@) && rec@ == old(self)@.contents[key@],
                None => !old(self)@.contents.contains_key(key@),
            },
            final(self)@.contents.submap_of(old(self)@.contents),
            old(self)@.room >= 0 ==> final(self)@.contents == old(self)@.contents,
            final(self)@.room >= old(self)@.room,
            final(self)@.now == old(self)@.now,
            final(self)@.next_cas == old(self)@.next_cas,
    {
        moka_get(&mut self.memory, key)
    }

    /// Stores a record; the cache holds at most what `base` holds with the
    /// record stored, and exactly that when it held `base` and had room.
    fn store_record(&mut self, key: KeyType, record: Record, Ghost(base): Ghost<Map<Seq<u8>, RecordModel>>)
        requires
            old(self)@.contents.submap_of(base),
        ensures
            final(self)@.contents.submap_of(base.insert(key@, record@)),
            old(self)@.room >= 1 && old(self)@.contents == base ==> final(self)@.contents
                == base.insert(key@, record@),
            final(self)@.room >= old(self)@.room - 1,
            final(self)@.now == old(self)@.now,
            final(self)@.next_cas == old(self)@.next_cas,
    {
        let ghost before = self@.contents;
        let ghost k = key@;
        let ghost v = record@;
        moka_insert(&mut self.memory, key, record);
        proof {
            lemma_submap_insert(before, base, k, v);
            lemma_submap_trans(self@.contents, before.insert(k, v), base.insert(k, v));
        }
    }

    /// Discards the record under `key`; the cache holds at most what `base`
    /// holds without it, and exactly that when it held `base` and had room.
    fn discard(&mut self, key: &KeyType, Ghost(base): Ghost<Map<Seq<u8>, RecordModel>>)
        requires
            old(self)@.contents.submap_of(base),
        ensures
            final(self)@.contents.submap_of(base.remove(key@)),
            old(self)@.room >= 0 && old(self)@.contents == base ==> final(self)@.contents
                == base.remove(key@),
            final(self)@.room >= old(self)@.room,
            final(self)@.now == old(self)@.now,
            final(self)@.next_cas == old(self)@.next_cas,
    {
        let ghost before = self@.contents;
        moka_invalidate(&mut self.memory, key);
        proof {
            lemma_submap_remove(before, base, key@);
            lemma_submap_trans(self@.contents, before.remove(key@), base.remove(key@));
        }
    }

    fn append_prepend_common(&mut self, key: KeyType, new_record: Record, is_append: bool) -> (r:
        Result<SetStatus>)
        ensures
            store_outcome(final(self)@, spec_append_prepend(old(self)@, key@, new_record@, is_append).state),
            match r {
                Ok(status) => spec_append_prepend(old(self)@, key@, new_record@, is_append).result
                    == Ok::<u64, CacheError>(status.cas),
                Err(e) => spec_append_prepend(old(self)@, key@, new_record@, is_append).result
                    == Err::<u64, CacheError>(e),
            },
    {
        let mut new_record = new_record;
        match self.lookup(&key) {
            Some(prev_record) => {
                if SharedStoreState::cas_mismatch(&new_record, prev_record.header.cas) {
                    return Err(CacheError::KeyExists);
                }
                self.store_state.set_cas_ttl(&mut new_record);
                let new_value = if is_append {
                    concat_bytes(&prev_record.value, &new_record.value)
                } else {
                    concat_bytes(&new_record.value, &prev_record.value)
                };
                new_record.value = new_value;
                let cas = new_record.header.cas;
                self.store_record(key, new_record, Ghost(old(self)@.contents));
                Ok(SetStatus { cas })
            },
            None => Err(CacheError::NotFound),
        }
    }

    /// Returns a value associated with a key
    pub fn get(&mut self, key: &KeyType) -> (r: Result<Record>)
        ensures
            store_outcome(final(self)@, spec_get(old(self)@, key@).state),
            match r {
                Ok(rec) => spec_get(old(self)@, key@).result == Ok::<RecordModel, CacheError>(rec@),
                Err(e) => spec_get(old(self)@, key@).result == Err::<RecordModel, CacheError>(e),
            },
    {
        match self.lookup(key) {
            Some(value) => {
                if self.store_state.check_if_expired(key, &value) {
                    self.discard(key, Ghost(old(self)@.contents));
                    return Err(CacheError::NotFound);
                }
                Ok(value)
            },
            None => Err(CacheError::NotFound),
        }
    }

    /// Sets the value of a key. When the key is present and the record's CAS
    /// is not 0, it must equal the stored one, else `KeyExists`.
    pub fn set(&mut self, key: KeyType, record: Record) -> (r: Result<SetStatus>)
        ensures
            store_outcome(final(self)@, spec_set(old(self)@, key@, record@).state),
            match r {
                Ok(status) => spec_set(old(self)@, key@, record@).result == Ok::<u64, CacheError>(status.cas),
                Err(e) => spec_set(old(self)@, key@, record@).result == Err::<u64, CacheError>(e),
            },
    {
        let mut record = record;
        if let Some(existing) = self.lookup(&key) {
            if SharedStoreState::cas_mismatch(&record, existing.header.cas) {
                return Err(CacheError::KeyExists);
            }
        }
        let cas = self.store_state.set_cas_ttl(&mut record);
        self.store_record(key, record, Ghost(old(self)@.contents));
        Ok(SetStatus { cas })
    }

    /// Removes a key and returns its record when `header.cas` is 0 or equals
    /// the stored version.
    pub fn delete(&mut self, key: KeyType, header: CacheMetaData) -> (r: Result<Record>)
        ensures
            store_outcome(final(self)@, spec_delete(old(self)@, key@, header.cas).state),
            match r {
                Ok(rec) => spec_delete(old(self)@, key@, header.cas).result == Ok::<RecordModel, CacheError>(rec@),
                Err(e) => spec_delete(old(self)@, key@, header.cas).result == Err::<RecordModel, CacheError>(e),
            },
    {
        match self.lookup(&key) {
            Some(record) => {
                if header.cas == 0 || record.header.cas == header.cas {
                    self.discard(&key, Ghost(old(self)@.contents));
                    Ok(record)
                } else {
                    Err(CacheError::KeyExists)
                }
            },
            None => Err(CacheError::NotFound),
        }
    }

    /// Removes all values when no time to live is given; with one, every
    /// record gets it.
    pub fn flush(&mut self, header: CacheMetaData)
        ensures
            store_outcome(final(self)@, spec_flush(old(self)@, header.time_to_live)),
    {
        if header.time_to_live == 0 {
            moka_invalidate_all(&mut self.memory);
        } else {
            self.set_all_ttl(header.time_to_live);
        }
    }

    /// Gives every record the time to live `ttl`, writing each anew.
    fn set_all_ttl(&mut self, ttl: u32)
        ensures
            final(self)@.contents.submap_of(spec_set_all_ttl(old(self)@.contents, ttl)),
            old(self)@.room >= old(self)@.contents.len() ==> final(self)@.contents
                == spec_set_all_ttl(old(self)@.contents, ttl),
            final(self)@.room >= old(self)@.room - old(self)@.contents.len(),
            final(self)@.now == old(self)@.now,
            final(self)@.next_cas == old(self)@.next_cas,
    {
        let ghost start = self@.contents;
        let ghost start_room = self@.room;
        let entries = moka_entries(&self.memory);
        let mut i: usize = 0;
        proof {
            assert(ttl_given(start, entries@, 0, ttl) =~= start);
            lemma_listed_len(entries@, start);
        }
        while i < entries.len()
            invariant
                i <= entries@.len(),
                lists_records(entries@, start),
                start.len() == entries@.len(),
                self@.contents.submap_of(ttl_given(start, entries@, i as int, ttl)),
                start_room >= entries@.len() ==> self@.contents == ttl_given(start, entries@, i as int, ttl),
                self@.room >= start_room - i,
                self@.now == old(self)@.now,
                self@.next_cas == old(self)@.next_cas,
            decreases entries@.len() - i,
        {
            let key = copy_bytes(&entries[i].0);
            let record = with_time_to_live(entries[i].1.duplicate(), ttl);
            proof {
                lemma_ttl_given_step(start, entries@, i as int, ttl);
            }
            self.store_record(key, record, Ghost(ttl_given(start, entries@, i as int, ttl)));
            i = i + 1;
        }
        proof {
            lemma_ttl_given_all(start, entries@, ttl);
        }
    }

    /// Runs the cache's pending maintenance, which may evict records.
    pub fn run_pending_tasks(&mut self)
        ensures
            store_outcome(final(self)@, old(self)@),
    {
        moka_run_pending_tasks(&mut self.memory);
    }

    /// Adds a new key-value pair to the cache, but only if the key does not already exist.
    pub fn add(&mut self, key: KeyType, record: Record) -> (r: Result<SetStatus>)
        ensures
            store_outcome(final(self)@, spec_add(old(self)@, key@, record@).state),
            match r {
                Ok(status) => spec_add(old(self)@, key@, record@).result == Ok::<u64, CacheError>(status.cas),
                Err(e) => spec_add(old(self)@, key@, record@).result == Err::<u64, CacheError>(e),
            },
    {
        let mut record = record;
        let cas = self.store_state.set_cas_ttl(&mut record);
        match self.lookup(&key) {
            Some(_) => Err(CacheError::KeyExists),
            None => {
                self.store_record(key, record, Ghost(old(self)@.contents));
                Ok(SetStatus { cas })
            },
        }
    }

    /// Replaces the value of an existing key in the cache, but only if the key already exists.
    pub fn replace(&mut self, key: KeyType, record: Record) -> (r: Result<SetStatus>)
        ensures
            store_outcome(final(self)@, spec_replace(old(self)@, key@, record@).state),
            match r {
                Ok(status) => spec_replace(old(self)@, key@, record@).result == Ok::<u64, CacheError>(status.cas),
                Err(e) => spec_replace(old(self)@, key@, record@).result == Err::<u64, CacheError>(e),
            },
    {
        let mut record = record;
        match self.lookup(&key) {
            Some(existing) => {
                if SharedStoreState::cas_mismatch(&record, existing.header.cas) {
                    return Err(CacheError::KeyExists);
                }
                let cas = self.store_state.set_cas_ttl(&mut record);
                self.store_record(key, record, Ghost(old(self)@.contents));
                Ok(SetStatus { cas })
            },
            None => Err(CacheError::NotFound),
        }
    }

    /// Appends the new value to the existing value for the given key.
    pub fn append(&mut self, key: KeyType, new_record: Record) -> (r: Result<SetStatus>)
        ensures
            store_outcome(final(self)@, spec_append_prepend(old(self)@, key@, new_record@, true).state),
            match r {
                Ok(status) => spec_append_prepend(old(self)@, key@, new_record@, true).result
                    == Ok::<u64, CacheError>(status.cas),
                Err(e) => spec_append_prepend(old(self)@, key@, new_record@, true).result
                    == Err::<u64, CacheError>(e),
            },
    {
        self.append_prepend_common(key, new_record, true)
    }

    /// Prepends the new value to the existing value for the given key.
    pub fn prepend(&mut self, key: KeyType, new_record: Record) -> (r: Result<SetStatus>)
        ensures
            store_outcome(final(self)@, spec_append_prepend(old(self)@, key@, new_record@, false).state),
            match r {
                Ok(status) => spec_append_prepend(old(self)@, key@, new_record@, false).result
                    == Ok::<u64, CacheError>(status.cas),
                Err(e) => spec_append_prepend(old(self)@, key@, new_record@, false).result
                    == Err::<u64, CacheError>(e),
            },
    {
        self.append_prepend_common(key, new_record, false)
    }

    /// Increments (or decrements, saturating at zero) the counter stored
    /// under `key`; a missing counter is created from `delta.value` unless
    /// the expiration is `DELTA_NO_INITIAL_VALUE`.
    pub fn incr_decr(&mut self, header: CacheMetaData, key: KeyType, delta: DeltaParam, increment: bool) -> (r: Result<DeltaResult>)
        ensures
            store_outcome(final(self)@, spec_incr_decr(old(self)@, header.cas, header.time_to_live, key@, delta.delta, delta.value, increment).state),
            match r {
                Ok(d) => spec_incr_decr(old(self)@, header.cas, header.time_to_live, key@, delta.delta, delta.value, increment).result
                    == Ok::<(u64, u64), CacheError>((d.cas, d.value)),
                Err(e) => spec_incr_decr(old(self)@, header.cas, header.time_to_live, key@, delta.delta, delta.value, increment).result
                    == Err::<(u64, u64), CacheError>(e),
            },
    {
        let cas = header.cas;
        match self.lookup(&key) {
            Some(record) => {
                let mut record = record;
                let entry_cas = record.header.cas;
                let tmp_record = Record::new(Vec::new(), cas, 0, 0);
                if SharedStoreState::cas_mismatch(&tmp_record, entry_cas) {
                    return Err(CacheError::KeyExists);
                }
                match self.store_state.incr_decr_common(&record, delta, increment) {
                    Ok(text) => {
                        let new_value = read_counter(&text);
                        let new_cas = self.store_state.get_cas_id();
                        record.value = text;
                        record.header.cas = new_cas;
                        self.store_record(key, record, Ghost(old(self)@.contents));
                        Ok(DeltaResult { value: new_value, cas: new_cas })
                    },
                    Err(e) => Err(e),
                }
            },
            None => {
                if header.get_expiration() != DELTA_NO_INITIAL_VALUE {
                    let cas = self.store_state.get_cas_id();
                    let record = Record::new(u64_to_decimal(delta.value), cas, 0, header.get_expiration());
                    self.store_record(key, record, Ghost(old(self)@.contents));
                    return Ok(DeltaResult { cas, value: delta.value });
                }
                Err(CacheError::NotFound)
            },
        }
    }
}

} // verus!
