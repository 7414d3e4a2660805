use crate::cache::cache::{
    copy_bytes, CacheMetaData, DeltaParam, DeltaResult, KeyType, Record, SetStatus,
};
use crate::cache::error::{CacheError, Result};
use crate::memcache::cli::parser::DashMapConfig;
use crate::memory_store::engine::StoreEngine;
use crate::memory_store::numeric::u64_to_decimal;
use crate::memory_store::parallelism::{get_number_of_shards, is_power_of_two};
use crate::memory_store::shared_store_state::{read_counter, SharedStoreState};
use crate::memory_store::store_spec::{
    spec_add, spec_append_prepend, spec_delete, spec_flush, spec_get, spec_incr_decr,
    spec_replace, spec_set, spec_set_all_ttl, StoreView,
};
use crate::protocol::binary::network::DELTA_NO_INITIAL_VALUE;
use dashmap::DashMap;
use vstd::prelude::*;

verus! {

#[verifier::external_type_specification]
#[verifier::external_body]
#[verifier::reject_recursive_types(K)]
#[verifier::reject_recursive_types(V)]
#[verifier::reject_recursive_types(S)]
pub struct ExDashMap<K, V, S>(DashMap<K, V, S>);

/// What a map of records holds: for each key, the record as
/// (cas, flags, time to live, value).
pub uninterp spec fn dash_map_contents(m: DashMap<Vec<u8>, Record>) -> Map<
    Seq<u8>,
    (u64, u32, u32, Seq<u8>),
>;

/// A map that holds no record.
pub open spec fn no_records() -> Map<Seq<u8>, (u64, u32, u32, Seq<u8>)> {
    Map::empty()
}

/// `DashMap::with_shard_amount`: an empty map. The crate asserts that the
/// shard amount is a power of two greater than one, so that is required.
#[verifier::external_body]
fn dash_map_with_shard_amount(shard_amount: usize) -> (m: DashMap<Vec<u8>, Record>)
    requires
        shard_amount > 1,
        is_power_of_two(shard_amount as int),
    ensures
        dash_map_contents(m) == no_records(),
{
    DashMap::with_shard_amount(shard_amount)
}

/// `DashMap::get`: a copy of the record stored under `key`, if any.
#[verifier::external_body]
fn dash_map_get(m: &DashMap<Vec<u8>, Record>, key: &Vec<u8>) -> (r: Option<Record>)
    ensures
        match r {
            Some(rec) => dash_map_contents(*m).contains_key(key@) && rec@ == dash_map_contents(
                *m,
            )[key@],
            None => !dash_map_contents(*m).contains_key(key@),
        },
{
    match m.get(key) {
        Some(entry) => Some(entry.value().clone()),
        None => None,
    }
}

/// `DashMap::insert`: the record is stored under `key`, replacing any other.
#[verifier::external_body]
fn dash_map_insert(m: &mut DashMap<Vec<u8>, Record>, key: Vec<u8>, value: Record)
    ensures
        dash_map_contents(*final(m)) == dash_map_contents(*old(m)).insert(key@, value@),
{
    m.insert(key, value);
}

/// `DashMap::remove`: the record under `key` goes.
#[verifier::external_body]
fn dash_map_remove(m: &mut DashMap<Vec<u8>, Record>, key: &Vec<u8>)
    ensures
        dash_map_contents(*final(m)) == dash_map_contents(*old(m)).remove(key@),
{
    m.remove(key);
}

/// `DashMap::clear`: the map becomes empty.
#[verifier::external_body]
fn dash_map_clear(m: &mut DashMap<Vec<u8>, Record>)
    ensures
        dash_map_contents(*final(m)) == no_records(),
{
    m.clear();
}

/// `DashMap::alter_all`, with a function that gives each record the time
/// to live `ttl`: the keys stay, every record gets `ttl`.
#[verifier::external_body]
fn dash_map_alter_all_ttl(m: &mut DashMap<Vec<u8>, Record>, ttl: u32)
    ensures
        dash_map_contents(*final(m)) == spec_set_all_ttl(dash_map_contents(*old(m)), ttl),
{
    m.alter_all(|_key, value| with_time_to_live(value, ttl));
}

/// The record with its time to live replaced.
pub fn with_time_to_live(record: Record, ttl: u32) -> (r: Record)
    ensures
        r@ == (record@.0, record@.1, ttl, record@.3),
{
    let mut record = record;
    record.header.time_to_live = ttl;
    record
}

/// The concatenation of two byte strings.
pub fn concat_bytes(a: &Vec<u8>, b: &Vec<u8>) -> (r: Vec<u8>)
    ensures
        r@ == a@ + b@,
{
    let mut r = copy_bytes(a);
    crate::protocol::binary::bytes::put_slice(&mut r, b.as_slice());
    r
}

/// Store backed by a concurrent hash map.
pub struct DashMapMemoryStore {
    memory: DashMap<KeyType, Record>,
    store_state: SharedStoreState,
}

impl View for DashMapMemoryStore {
    type V = StoreView;

    closed spec fn view(&self) -> StoreView {
        StoreView {
            contents: dash_map_contents(self.memory),
            now: self.store_state.spec_timestamp(),
            next_cas: self.store_state.spec_cas_id(),
            engine: StoreEngine::DashMap,
            room: 0,
        }
    }
}

impl DashMapMemoryStore {
    /// An empty store at time 0 whose map has as many shards as
    /// `get_number_of_shards` gives for the machine's parallelism.
    pub fn new(_cfg: DashMapConfig, parallelism: usize) -> (r: DashMapMemoryStore)
        ensures
            r@ == (StoreView { contents: Map::empty(), now: 0, next_cas: 1, engine: StoreEngine::DashMap, room: 0 }),
    {
        let shards = get_number_of_shards(parallelism);
        let store_state = SharedStoreState::new();
        DashMapMemoryStore { memory: dash_map_with_shard_amount(shards), store_state }
    }

    /// Sets the store's clock, in seconds.
    pub fn set_timestamp(&mut self, timestamp: u32)
        ensures
            final(self)@ == (StoreView { now: timestamp, ..old(self)@ }),
    {
        self.store_state.set_timestamp(timestamp);
    }

    fn append_prepend_common(&mut self, key: KeyType, new_record: Record, is_append: bool) -> (r:
        Result<SetStatus>)
        ensures
            final(self)@ == spec_append_prepend(old(self)@, key@, new_record@, is_append).state,
            match r {
                Ok(status) => spec_append_prepend(old(self)@, key@, new_record@, is_append).result
                    == Ok::<u64, CacheError>(status.cas),
                Err(e) => spec_append_prepend(old(self)@, key@, new_record@, is_append).result
                    == Err::<u64, CacheError>(e),
            },
    {
        let mut new_record = new_record;
        let cas = new_record.header.cas;
        let new_cas = self.store_state.set_cas_ttl(&mut new_record);
        match dash_map_get(&self.memory, &key) {
            Some(prev_record) => {
                if cas != 0 && prev_record.header.cas != cas {
                    return Err(CacheError::KeyExists);
                }
                let new_value = if is_append {
                    concat_bytes(&prev_record.value, &new_record.value)
                } else {
                    concat_bytes(&new_record.value, &prev_record.value)
                };
                new_record.value = new_value;
                dash_map_insert(&mut self.memory, key, new_record);
                Ok(SetStatus { cas: new_cas })
            },
            None => Err(CacheError::NotFound),
        }
    }

    /// Returns a value associated with a key
    pub fn get(&mut self, key: &KeyType) -> (r: Result<Record>)
        ensures
            final(self)@ == spec_get(old(self)@, key@).state,
            match r {
                Ok(rec) => spec_get(old(self)@, key@).result == Ok::<(u64, u32, u32, Seq<u8>), CacheError>(rec@),
                Err(e) => spec_get(old(self)@, key@).result == Err::<(u64, u32, u32, Seq<u8>), CacheError>(e),
            },
    {
        match dash_map_get(&self.memory, key) {
            Some(value) => {
                if self.store_state.check_if_expired(key, &value) {
                    dash_map_remove(&mut self.memory, key);
                    return Err(CacheError::NotFound);
                }
                Ok(value)
            },
            None => Err(CacheError::NotFound),
        }
    }

    /// Sets the value of a key. When the key is present and the record's CAS
    /// is not 0, it must equal the stored one, else `KeyExists`.
    pub fn set(&mut self, key: KeyType, record: Record) -> (r: Result<SetStatus>)
        ensures
            final(self)@ == spec_set(old(self)@, key@, record@).state,
            match r {
                Ok(status) => spec_set(old(self)@, key@, record@).result == Ok::<u64, CacheError>(status.cas),
                Err(e) => spec_set(old(self)@, key@, record@).result == Err::<u64, CacheError>(e),
            },
    {
        let mut record = record;
        match dash_map_get(&self.memory, &key) {
            Some(existing) => {
                if SharedStoreState::cas_mismatch(&record, existing.header.cas) {
                    return Err(CacheError::KeyExists);
                }
                let cas = self.store_state.set_cas_ttl(&mut record);
                dash_map_insert(&mut self.memory, key, record);
                Ok(SetStatus { cas })
            },
            None => {
                let cas = self.store_state.set_cas_ttl(&mut record);
                dash_map_insert(&mut self.memory, key, record);
                Ok(SetStatus { cas })
            },
        }
    }

    /// Removes a key and returns its record when `header.cas` is 0 or equals
    /// the stored version.
    pub fn delete(&mut self, key: KeyType, header: CacheMetaData) -> (r: Result<Record>)
        ensures
            final(self)@ == spec_delete(old(self)@, key@, header.cas).state,
            match r {
                Ok(rec) => spec_delete(old(self)@, key@, header.cas).result == Ok::<(u64, u32, u32, Seq<u8>), CacheError>(rec@),
                Err(e) => spec_delete(old(self)@, key@, header.cas).result == Err::<(u64, u32, u32, Seq<u8>), CacheError>(e),
            },
    {
        match dash_map_get(&self.memory, &key) {
            Some(record) => {
                if header.cas == 0 || record.header.cas == header.cas {
                    dash_map_remove(&mut self.memory, &key);
                    Ok(record)
                } else {
                    Err(CacheError::KeyExists)
                }
            },
            None => Err(CacheError::NotFound),
        }
    }

    /// Removes all values, or with a time to live gives it to all of them.
    pub fn flush(&mut self, header: CacheMetaData)
        ensures
            final(self)@ == spec_flush(old(self)@, header.time_to_live),
    {
        if header.time_to_live > 0 {
            dash_map_alter_all_ttl(&mut self.memory, header.time_to_live);
        } else {
            dash_map_clear(&mut self.memory);
        }
    }

    /// Nothing is pending in this store.
    pub fn run_pending_tasks(&mut self)
        ensures
            final(self)@ == old(self)@,
    {
    }

    /// Adds a new key-value pair to the cache, but only if the key does not already exist.
    pub fn add(&mut self, key: KeyType, record: Record) -> (r: Result<SetStatus>)
        ensures
            final(self)@ == spec_add(old(self)@, key@, record@).state,
            match r {
                Ok(status) => spec_add(old(self)@, key@, record@).result == Ok::<u64, CacheError>(status.cas),
                Err(e) => spec_add(old(self)@, key@, record@).result == Err::<u64, CacheError>(e),
            },
    {
        let mut record = record;
        let cas = self.store_state.set_cas_ttl(&mut record);
        match dash_map_get(&self.memory, &key) {
            Some(_) => Err(CacheError::KeyExists),
            None => {
                dash_map_insert(&mut self.memory, key, record);
                Ok(SetStatus { cas })
            },
        }
    }

    /// Replaces the value of an existing key in the cache, but only if the key already exists.
    pub fn replace(&mut self, key: KeyType, record: Record) -> (r: Result<SetStatus>)
        ensures
            final(self)@ == spec_replace(old(self)@, key@, record@).state,
            match r {
                Ok(status) => spec_replace(old(self)@, key@, record@).result == Ok::<u64, CacheError>(status.cas),
                Err(e) => spec_replace(old(self)@, key@, record@).result == Err::<u64, CacheError>(e),
            },
    {
        let mut record = record;
        match dash_map_get(&self.memory, &key) {
            Some(existing) => {
                if SharedStoreState::cas_mismatch(&record, existing.header.cas) {
                    return Err(CacheError::KeyExists);
                }
                let new_cas = self.store_state.set_cas_ttl(&mut record);
                dash_map_insert(&mut self.memory, key, record);
                Ok(SetStatus { cas: new_cas })
            },
            None => Err(CacheError::NotFound),
        }
    }

    /// Appends the new value to the existing value for the given key.
    pub fn append(&mut self, key: KeyType, new_record: Record) -> (r: Result<SetStatus>)
        ensures
            final(self)@ == spec_append_prepend(old(self)@, key@, new_record@, true).state,
            match r {
                Ok(status) => spec_append_prepend(old(self)@, key@, new_record@, true).result
                    == Ok::<u64, CacheError>(status.cas),
                Err(e) => spec_append_prepend(old(self)@, key@, new_record@, true).result
                    == Err::<u64, CacheError>(e),
            },
    {
        self.append_prepend_common(key, new_record, true)
    }

    /// Prepends the new value to the existing value for the given key.
    pub fn prepend(&mut self, key: KeyType, new_record: Record) -> (r: Result<SetStatus>)
        ensures
            final(self)@ == spec_append_prepend(old(self)@, key@, new_record@, false).state,
            match r {
                Ok(status) => spec_append_prepend(old(self)@, key@, new_record@, false).result
                    == Ok::<u64, CacheError>(status.cas),
                Err(e) => spec_append_prepend(old(self)@, key@, new_record@, false).result
                    == Err::<u64, CacheError>(e),
            },
    {
        self.append_prepend_common(key, new_record, false)
    }

    /// Increments (or decrements, saturating at zero) the counter stored
    /// under `key`; a missing counter is created from `delta.value` unless
    /// the expiration is `DELTA_NO_INITIAL_VALUE`.
    pub fn incr_decr(&mut self, header: CacheMetaData, key: KeyType, delta: DeltaParam, increment: bool) -> (r: Result<DeltaResult>)
        ensures
            final(self)@ == spec_incr_decr(old(self)@, header.cas, header.time_to_live, key@, delta.delta, delta.value, increment).state,
            match r {
                Ok(d) => spec_incr_decr(old(self)@, header.cas, header.time_to_live, key@, delta.delta, delta.value, increment).result
                    == Ok::<(u64, u64), CacheError>((d.cas, d.value)),
                Err(e) => spec_incr_decr(old(self)@, header.cas, header.time_to_live, key@, delta.delta, delta.value, increment).result
                    == Err::<(u64, u64), CacheError>(e),
            },
    {
        let cas = header.cas;
        match dash_map_get(&self.memory, &key) {
            Some(record) => {
                let mut record = record;
                match self.store_state.incr_decr_common(&record, delta, increment) {
                    Ok(text) => {
                        let new_value = read_counter(&text);
                        let tmp_record = Record::new(Vec::new(), cas, 0, 0);
                        if SharedStoreState::cas_mismatch(&tmp_record, record.header.cas) {
                            return Err(CacheError::KeyExists);
                        }
                        let new_cas = self.store_state.set_cas_ttl(&mut record);
                        record.value = text;
                        record.header.cas = new_cas;
                        dash_map_insert(&mut self.memory, key, record);
                        Ok(DeltaResult { value: new_value, cas: new_cas })
                    },
                    Err(e) => Err(e),
                }
            },
            None => {
                if header.get_expiration() != DELTA_NO_INITIAL_VALUE {
                    let cas = self.store_state.get_cas_id();
                    let record = Record::new(u64_to_decimal(delta.value), cas, 0, header.get_expiration());
                    dash_map_insert(&mut self.memory, key, record);
                    return Ok(DeltaResult { cas, value: delta.value });
                }
                Err(CacheError::NotFound)
            },
        }
    }
}

} // verus!
