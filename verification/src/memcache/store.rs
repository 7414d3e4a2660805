use crate::cache::cache::{
    CacheMetaData, DecrementParam, DeltaParam, DeltaResult, IncrementParam, KeyType,
    Record as CacheRecord, SetStatus as CacheSetStatus,
};
use crate::cache::error::{CacheError, Result};
use crate::memory_store::dash_map_store::DashMapMemoryStore;
use crate::memory_store::moka_store::MokaMemoryStore;
use crate::memory_store::store_spec::{
    spec_add, spec_append_prepend, spec_delete, spec_flush, spec_get, spec_incr_decr,
    spec_replace, spec_set, store_outcome, StoreView,
};
use vstd::prelude::*;

verus! {

pub type Record = CacheRecord;

pub type Meta = CacheMetaData;

pub type SetStatus = CacheSetStatus;

/// The store engine a `MemcStore` runs on.
pub enum CacheStore {
    DashMap(DashMapMemoryStore),
    Moka(MokaMemoryStore),
}

impl View for CacheStore {
    type V = StoreView;

    open spec fn view(&self) -> StoreView {
        match self {
            CacheStore::DashMap(store) => store@,
            CacheStore::Moka(store) => store@,
        }
    }
}

/// Implements Memcache commands based on a key-value store.
pub struct MemcStore {
    store: CacheStore,
}

impl View for MemcStore {
    type V = StoreView;

    closed spec fn view(&self) -> StoreView {
        self.store@
    }
}

impl MemcStore {
    pub fn new(store: CacheStore) -> (r: MemcStore)
        ensures
            r@ == store@,
    {
        MemcStore { store }
    }

    /// Sets the store's clock, in seconds.
    pub fn set_timestamp(&mut self, timestamp: u32)
        ensures
            final(self)@ == (StoreView { now: timestamp, ..old(self)@ }),
    {
        match &mut self.store {
            CacheStore::DashMap(store) => store.set_timestamp(timestamp),
            CacheStore::Moka(store) => store.set_timestamp(timestamp),
        };
    }

    /// Runs the store's pending maintenance, if any.
    pub fn run_pending_tasks(&mut self)
        ensures
            store_outcome(final(self)@, old(self)@),
    {
        match &mut self.store {
            CacheStore::DashMap(store) => store.run_pending_tasks(),
            CacheStore::Moka(store) => store.run_pending_tasks(),
        };
    }

    pub fn set(&mut self, key: KeyType, record: Record) -> (r: Result<SetStatus>)
        ensures
            store_outcome(final(self)@, spec_set(old(self)@, key@, record@).state),
            match r {
                Ok(status) => spec_set(old(self)@, key@, record@).result == Ok::<u64, CacheError>(status.cas),
                Err(e) => spec_set(old(self)@, key@, record@).result == Err::<u64, CacheError>(e),
            },
    {
        match &mut self.store {
            CacheStore::DashMap(store) => store.set(key, record),
            CacheStore::Moka(store) => store.set(key, record),
        }
    }

    pub fn get(&mut self, key: &KeyType) -> (r: Result<Record>)
        ensures
            store_outcome(final(self)@, spec_get(old(self)@, key@).state),
            match r {
                Ok(rec) => spec_get(old(self)@, key@).result == Ok::<(u64, u32, u32, Seq<u8>), CacheError>(rec@),
                Err(e) => spec_get(old(self)@, key@).result == Err::<(u64, u32, u32, Seq<u8>), CacheError>(e),
            },
    {
        match &mut self.store {
            CacheStore::DashMap(store) => store.get(key),
            CacheStore::Moka(store) => store.get(key),
        }
    }

    pub fn add(&mut self, key: KeyType, record: Record) -> (r: Result<SetStatus>)
        ensures
            store_outcome(final(self)@, spec_add(old(self)@, key@, record@).state),
            match r {
                Ok(status) => spec_add(old(self)@, key@, record@).result == Ok::<u64, CacheError>(status.cas),
                Err(e) => spec_add(old(self)@, key@, record@).result == Err::<u64, CacheError>(e),
            },
    {
        match &mut self.store {
            CacheStore::DashMap(store) => store.add(key, record),
            CacheStore::Moka(store) => store.add(key, record),
        }
    }

    pub fn replace(&mut self, key: KeyType, record: Record) -> (r: Result<SetStatus>)
        ensures
            store_outcome(final(self)@, spec_replace(old(self)@, key@, record@).state),
            match r {
                Ok(status) => spec_replace(old(self)@, key@, record@).result == Ok::<u64, CacheError>(status.cas),
                Err(e) => spec_replace(old(self)@, key@, record@).result == Err::<u64, CacheError>(e),
            },
    {
        match &mut self.store {
            CacheStore::DashMap(store) => store.replace(key, record),
            CacheStore::Moka(store) => store.replace(key, record),
        }
    }

    pub fn append(&mut self, key: KeyType, new_record: Record) -> (r: Result<SetStatus>)
        ensures
            store_outcome(final(self)@, spec_append_prepend(old(self)@, key@, new_record@, true).state),
            match r {
                Ok(status) => spec_append_prepend(old(self)@, key@, new_record@, true).result
                    == Ok::<u64, CacheError>(status.cas),
                Err(e) => spec_append_prepend(old(self)@, key@, new_record@, true).result
                    == Err::<u64, CacheError>(e),
            },
    {
        match &mut self.store {
            CacheStore::DashMap(store) => store.append(key, new_record),
            CacheStore::Moka(store) => store.append(key, new_record),
        }
    }

    pub fn prepend(&mut self, key: KeyType, new_record: Record) -> (r: Result<SetStatus>)
        ensures
            store_outcome(final(self)@, spec_append_prepend(old(self)@, key@, new_record@, false).state),
            match r {
                Ok(status) => spec_append_prepend(old(self)@, key@, new_record@, false).result
                    == Ok::<u64, CacheError>(status.cas),
                Err(e) => spec_append_prepend(old(self)@, key@, new_record@, false).result
                    == Err::<u64, CacheError>(e),
            },
    {
        match &mut self.store {
            CacheStore::DashMap(store) => store.prepend(key, new_record),
            CacheStore::Moka(store) => store.prepend(key, new_record),
        }
    }

    pub fn increment(&mut self, header: Meta, key: KeyType, increment: IncrementParam) -> (r: Result<DeltaResult>)
        ensures
            store_outcome(final(self)@, spec_incr_decr(old(self)@, header.cas, header.time_to_live, key@, increment.delta, increment.value, true).state),
            match r {
                Ok(d) => spec_incr_decr(old(self)@, header.cas, header.time_to_live, key@, increment.delta, increment.value, true).result
                    == Ok::<(u64, u64), CacheError>((d.cas, d.value)),
                Err(e) => spec_incr_decr(old(self)@, header.cas, header.time_to_live, key@, increment.delta, increment.value, true).result
                    == Err::<(u64, u64), CacheError>(e),
            },
    {
        self.add_delta(header, key, increment, true)
    }

    pub fn decrement(&mut self, header: Meta, key: KeyType, decrement: DecrementParam) -> (r: Result<DeltaResult>)
        ensures
            store_outcome(final(self)@, spec_incr_decr(old(self)@, header.cas, header.time_to_live, key@, decrement.delta, decrement.value, false).state),
            match r {
                Ok(d) => spec_incr_decr(old(self)@, header.cas, header.time_to_live, key@, decrement.delta, decrement.value, false).result
                    == Ok::<(u64, u64), CacheError>((d.cas, d.value)),
                Err(e) => spec_incr_decr(old(self)@, header.cas, header.time_to_live, key@, decrement.delta, decrement.value, false).result
                    == Err::<(u64, u64), CacheError>(e),
            },
    {
        self.add_delta(header, key, decrement, false)
    }

    fn add_delta(&mut self, header: Meta, key: KeyType, delta: DeltaParam, increment: bool) -> (r: Result<DeltaResult>)
        ensures
            store_outcome(final(self)@, spec_incr_decr(old(self)@, header.cas, header.time_to_live, key@, delta.delta, delta.value, increment).state),
            match r {
                Ok(d) => spec_incr_decr(old(self)@, header.cas, header.time_to_live, key@, delta.delta, delta.value, increment).result
                    == Ok::<(u64, u64), CacheError>((d.cas, d.value)),
                Err(e) => spec_incr_decr(old(self)@, header.cas, header.time_to_live, key@, delta.delta, delta.value, increment).result
                    == Err::<(u64, u64), CacheError>(e),
            },
    {
        match &mut self.store {
            CacheStore::DashMap(store) => store.incr_decr(header, key, delta, increment),
            CacheStore::Moka(store) => store.incr_decr(header, key, delta, increment),
        }
    }

    pub fn delete(&mut self, key: KeyType, header: Meta) -> (r: Result<Record>)
        ensures
            store_outcome(final(self)@, spec_delete(old(self)@, key@, header.cas).state),
            match r {
                Ok(rec) => spec_delete(old(self)@, key@, header.cas).result == Ok::<(u64, u32, u32, Seq<u8>), CacheError>(rec@),
                Err(e) => spec_delete(old(self)@, key@, header.cas).result == Err::<(u64, u32, u32, Seq<u8>), CacheError>(e),
            },
    {
        match &mut self.store {
            CacheStore::DashMap(store) => store.delete(key, header),
            CacheStore::Moka(store) => store.delete(key, header),
        }
    }

    pub fn flush(&mut self, header: Meta)
        ensures
            store_outcome(final(self)@, spec_flush(old(self)@, header.time_to_live)),
    {
        match &mut self.store {
            CacheStore::DashMap(store) => store.flush(header),
            CacheStore::Moka(store) => store.flush(header),
        }
    }
}

} // verus!
