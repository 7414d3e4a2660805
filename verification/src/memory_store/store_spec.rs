use crate::cache::cache::RecordModel;
use crate::cache::error::CacheError;
use crate::memory_store::numeric::spec_decimal;
use crate::memory_store::shared_store_state::{
    spec_cas_mismatch, spec_expired, spec_incr_decr_common, spec_next_after_stamp, spec_stamp,
};
use crate::memory_store::engine::StoreEngine;
use vstd::prelude::*;

verus! {

/// Mathematical model of a key-value store: what it holds, its clock and
/// its next fresh CAS id.
#[verifier::ext_equal]
pub struct StoreView {
    pub contents: Map<Seq<u8>, RecordModel>,
    pub now: u32,
    pub next_cas: u64,
    /// the implementation behind the store
    pub engine: StoreEngine,
    /// For a store that may evict: how many more records it is sure to
    /// keep, its capacity less the records it counts against it. A store
    /// that never evicts leaves it as it is.
    pub room: int,
}

/// Whether a store may drop records on its own (a bounded cache does).
pub open spec fn may_evict(s: StoreView) -> bool {
    s.engine == StoreEngine::Moka
}

/// The room of `s` once `n` records have been written to it: a store that
/// may evict counts each against its capacity.
pub open spec fn room_after_writes(s: StoreView, n: int) -> int {
    if may_evict(s) {
        s.room - n
    } else {
        s.room
    }
}

/// What a store looks like after an operation whose model outcome is
/// `expected`. A store that does not evict is exactly that. A store that
/// may evict has at least the room the model gives it, holds only records
/// of the model, each as the model holds it, and, as long as the model
/// leaves it room, all of them.
pub open spec fn store_outcome(actual: StoreView, expected: StoreView) -> bool {
    if may_evict(expected) {
        &&& actual.contents.submap_of(expected.contents)
        &&& expected.room >= 0 ==> actual.contents == expected.contents
        &&& actual.room >= expected.room
        &&& actual.now == expected.now
        &&& actual.next_cas == expected.next_cas
        &&& actual.engine == expected.engine
    } else {
        actual == expected
    }
}

/// The state after an operation and what the operation returned.
#[verifier::ext_equal]
pub struct StoreStep<R> {
    pub state: StoreView,
    pub result: R,
}

pub open spec fn with_contents(s: StoreView, contents: Map<Seq<u8>, RecordModel>) -> StoreView {
    StoreView { contents, ..s }
}

pub open spec fn with_next_cas(s: StoreView, next_cas: u64) -> StoreView {
    StoreView { next_cas, ..s }
}

/// Lookup: an expired record is removed and reported as missing.
pub open spec fn spec_get(s: StoreView, key: Seq<u8>) -> StoreStep<Result<RecordModel, CacheError>> {
    if !s.contents.contains_key(key) {
        StoreStep { state: s, result: Err(CacheError::NotFound) }
    } else if spec_expired(s.contents[key], s.now) {
        StoreStep {
            state: with_contents(s, s.contents.remove(key)),
            result: Err(CacheError::NotFound),
        }
    } else {
        StoreStep { state: s, result: Ok(s.contents[key]) }
    }
}

/// Stores `r` under `key` unless its CAS does not match the stored record.
pub open spec fn spec_set(s: StoreView, key: Seq<u8>, r: RecordModel) -> StoreStep<Result<u64, CacheError>> {
    if s.contents.contains_key(key) && spec_cas_mismatch(r.0, s.contents[key].0) {
        StoreStep { state: s, result: Err(CacheError::KeyExists) }
    } else {
        let stored = spec_stamp(r, s.now, s.next_cas);
        StoreStep {
            state: StoreView {
                contents: s.contents.insert(key, stored),
                now: s.now,
                next_cas: spec_next_after_stamp(r, s.next_cas),
                engine: s.engine,
                room: room_after_writes(s, 1),
            },
            result: Ok(stored.0),
        }
    }
}

/// Removes the record of `key` when `cas` is 0 or equals its version.
pub open spec fn spec_delete(s: StoreView, key: Seq<u8>, cas: u64) -> StoreStep<Result<RecordModel, CacheError>> {
    if !s.contents.contains_key(key) {
        StoreStep { state: s, result: Err(CacheError::NotFound) }
    } else if cas == 0 || s.contents[key].0 == cas {
        StoreStep {
            state: with_contents(s, s.contents.remove(key)),
            result: Ok(s.contents[key]),
        }
    } else {
        StoreStep { state: s, result: Err(CacheError::KeyExists) }
    }
}

/// Every record with its time to live replaced by `ttl`.
pub open spec fn spec_set_all_ttl(m: Map<Seq<u8>, RecordModel>, ttl: u32) -> Map<Seq<u8>, RecordModel> {
    m.map_values(|r: RecordModel| (r.0, r.1, ttl, r.3))
}

/// Flush: without a time to live all records go; with one, every record
/// gets it, so that all of them expire once the clock reaches it. Each
/// record is written anew then.
pub open spec fn spec_flush(s: StoreView, ttl: u32) -> StoreView {
    if ttl > 0 {
        StoreView {
            contents: spec_set_all_ttl(s.contents, ttl),
            room: room_after_writes(s, s.contents.len() as int),
            ..s
        }
    } else {
        with_contents(s, Map::empty())
    }
}

/// Stores `r` only when `key` is absent; the version is drawn either way.
pub open spec fn spec_add(s: StoreView, key: Seq<u8>, r: RecordModel) -> StoreStep<Result<u64, CacheError>> {
    let stored = spec_stamp(r, s.now, s.next_cas);
    let next = spec_next_after_stamp(r, s.next_cas);
    if s.contents.contains_key(key) {
        StoreStep { state: with_next_cas(s, next), result: Err(CacheError::KeyExists) }
    } else {
        StoreStep {
            state: StoreView {
                contents: s.contents.insert(key, stored),
                now: s.now,
                next_cas: next,
                engine: s.engine,
                room: room_after_writes(s, 1),
            },
            result: Ok(stored.0),
        }
    }
}

/// Stores `r` only when `key` is present and its CAS matches.
pub open spec fn spec_replace(s: StoreView, key: Seq<u8>, r: RecordModel) -> StoreStep<Result<u64, CacheError>> {
    if !s.contents.contains_key(key) {
        StoreStep { state: s, result: Err(CacheError::NotFound) }
    } else if spec_cas_mismatch(r.0, s.contents[key].0) {
        StoreStep { state: s, result: Err(CacheError::KeyExists) }
    } else {
        let stored = spec_stamp(r, s.now, s.next_cas);
        StoreStep {
            state: StoreView {
                contents: s.contents.insert(key, stored),
                now: s.now,
                next_cas: spec_next_after_stamp(r, s.next_cas),
                engine: s.engine,
                room: room_after_writes(s, 1),
            },
            result: Ok(stored.0),
        }
    }
}

/// Value of an append (`prev + new`) or prepend (`new + prev`).
pub open spec fn spec_joined(prev: Seq<u8>, new: Seq<u8>, is_append: bool) -> Seq<u8> {
    if is_append {
        prev + new
    } else {
        new + prev
    }
}

/// Appends or prepends the value of `r` to the value stored under `key`;
/// the record takes the new record's meta data. A DashMap store draws the
/// version before it looks at the key; a Moka store only once the join
/// is made.
pub open spec fn spec_append_prepend(
    s: StoreView,
    key: Seq<u8>,
    r: RecordModel,
    is_append: bool,
) -> StoreStep<Result<u64, CacheError>> {
    let stamped = spec_stamp(r, s.now, s.next_cas);
    let next = spec_next_after_stamp(r, s.next_cas);
    let failed = if s.engine == StoreEngine::Moka {
        s
    } else {
        with_next_cas(s, next)
    };
    if !s.contents.contains_key(key) {
        StoreStep { state: failed, result: Err(CacheError::NotFound) }
    } else if r.0 != 0 && s.contents[key].0 != r.0 {
        StoreStep { state: failed, result: Err(CacheError::KeyExists) }
    } else {
        let stored = (stamped.0, stamped.1, stamped.2, spec_joined(s.contents[key].3, r.3, is_append));
        StoreStep {
            state: StoreView {
                contents: s.contents.insert(key, stored),
                now: s.now,
                next_cas: next,
                engine: s.engine,
                room: room_after_writes(s, 1),
            },
            result: Ok(stamped.0),
        }
    }
}

/// Counter update of a Moka store: the version is checked before the
/// value is parsed, and the record gets a fresh version and keeps its
/// time to live.
pub open spec fn spec_moka_counter_update(
    s: StoreView,
    cas: u64,
    key: Seq<u8>,
    delta: u64,
    increment: bool,
) -> StoreStep<Result<(u64, u64), CacheError>> {
    let rec = s.contents[key];
    if spec_cas_mismatch(cas, rec.0) {
        StoreStep { state: s, result: Err(CacheError::KeyExists) }
    } else {
        match spec_incr_decr_common(rec.3, delta, increment) {
            Err(e) => StoreStep { state: s, result: Err(e) },
            Ok(new_value) => {
                let stored = (s.next_cas, rec.1, rec.2, spec_decimal(new_value));
                StoreStep {
                    state: StoreView {
                        contents: s.contents.insert(key, stored),
                        now: s.now,
                        next_cas: s.next_cas.wrapping_add(1),
                        engine: s.engine,
                        room: room_after_writes(s, 1),
                    },
                    result: Ok((s.next_cas, new_value)),
                }
            },
        }
    }
}

/// Counter update of a DashMap store: the value is parsed before the
/// version is checked, and the record is stamped as a stored record is.
pub open spec fn spec_dash_map_counter_update(
    s: StoreView,
    cas: u64,
    key: Seq<u8>,
    delta: u64,
    increment: bool,
) -> StoreStep<Result<(u64, u64), CacheError>> {
    let rec = s.contents[key];
    match spec_incr_decr_common(rec.3, delta, increment) {
        Err(e) => StoreStep { state: s, result: Err(e) },
        Ok(new_value) => {
            if spec_cas_mismatch(cas, rec.0) {
                StoreStep { state: s, result: Err(CacheError::KeyExists) }
            } else {
                let stamped = spec_stamp(rec, s.now, s.next_cas);
                let stored = (stamped.0, stamped.1, stamped.2, spec_decimal(new_value));
                StoreStep {
                    state: StoreView {
                        contents: s.contents.insert(key, stored),
                        now: s.now,
                        next_cas: spec_next_after_stamp(rec, s.next_cas),
                        engine: s.engine,
                        room: room_after_writes(s, 1),
                    },
                    result: Ok((stamped.0, new_value)),
                }
            }
        },
    }
}

/// Increment or decrement of the counter under `key`; (new version, new value).
///
/// A missing counter is created with the initial value unless the
/// expiration is `0xffffffff`.
pub open spec fn spec_incr_decr(
    s: StoreView,
    cas: u64,
    expiration: u32,
    key: Seq<u8>,
    delta: u64,
    initial: u64,
    increment: bool,
) -> StoreStep<Result<(u64, u64), CacheError>> {
    if s.contents.contains_key(key) {
        if s.engine == StoreEngine::Moka {
            spec_moka_counter_update(s, cas, key, delta, increment)
        } else {
            spec_dash_map_counter_update(s, cas, key, delta, increment)
        }
    } else if expiration != 0xffffffff {
        let stored = (s.next_cas, 0u32, expiration, spec_decimal(initial));
        StoreStep {
            state: StoreView {
                contents: s.contents.insert(key, stored),
                now: s.now,
                next_cas: s.next_cas.wrapping_add(1),
                engine: s.engine,
                room: room_after_writes(s, 1),
            },
            result: Ok((s.next_cas, initial)),
        }
    } else {
        StoreStep { state: s, result: Err(CacheError::NotFound) }
    }
}

} // verus!
