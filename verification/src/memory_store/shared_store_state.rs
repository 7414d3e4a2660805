use crate::cache::cache::{DeltaParam, KeyType, Record, RecordModel};
use crate::cache::error::{CacheError, Result};
use crate::memory_store::numeric::{
    lemma_parse_decimal, parse_u64, spec_decimal, spec_parse_u64, u64_to_decimal,
};
use vstd::prelude::*;

verus! {

/// A record's CAS does not match the stored one: a CAS of 0 matches anything.
pub open spec fn spec_cas_mismatch(record_cas: u64, stored_cas: u64) -> bool {
    record_cas != 0 && stored_cas != record_cas
}

/// The version a record gets when it is stored: a fresh id when it has
/// none, its own version plus one otherwise.
pub open spec fn spec_stamp_cas(r: RecordModel, next_cas: u64) -> u64 {
    if r.0 == 0 {
        next_cas
    } else {
        r.0.wrapping_add(1)
    }
}

/// A record as it is stored: new version, and a time to live that becomes
/// absolute (relative to `now`) unless it is 0.
pub open spec fn spec_stamp(r: RecordModel, now: u32, next_cas: u64) -> RecordModel {
    (
        spec_stamp_cas(r, next_cas),
        r.1,
        if r.2 > 0 {
            r.2.wrapping_add(now)
        } else {
            r.2
        },
        r.3,
    )
}

/// The next fresh version after stamping `r`.
pub open spec fn spec_next_after_stamp(r: RecordModel, next_cas: u64) -> u64 {
    if r.0 == 0 {
        next_cas.wrapping_add(1)
    } else {
        next_cas
    }
}

/// A record with a non-zero time to live has expired once the time reaches it.
pub open spec fn spec_expired(r: RecordModel, now: u32) -> bool {
    r.2 != 0 && r.2 <= now
}

/// Counter arithmetic: increments wrap around, decrements stop at zero.
pub open spec fn spec_apply_delta(v: u64, delta: u64, increment: bool) -> u64 {
    if increment {
        v.wrapping_add(delta)
    } else if delta > v {
        0
    } else {
        (v - delta) as u64
    }
}

/// The new value of a counter whose text is `value`, or an error when the
/// text is not a number.
pub open spec fn spec_incr_decr_common(value: Seq<u8>, delta: u64, increment: bool) -> Result<u64> {
    match spec_parse_u64(value) {
        Some(v) => Ok(spec_apply_delta(v, delta, increment)),
        None => Err(CacheError::ArithOnNonNumeric),
    }
}

/// The number whose decimal text is `text`.
pub fn read_counter(text: &Vec<u8>) -> (v: u64)
    requires
        exists|n: u64| spec_decimal(n) == text@,
    ensures
        spec_decimal(v) == text@,
        forall|n: u64| #[trigger] spec_decimal(n) == text@ ==> n == v,
{
    let ghost n = choose|n: u64| spec_decimal(n) == text@;
    proof {
        lemma_parse_decimal(n);
    }
    let v = match parse_u64(text.as_slice()) {
        Some(v) => v,
        None => 0,
    };
    proof {
        assert forall|m: u64| #[trigger] spec_decimal(m) == text@ implies m == v by {
            lemma_parse_decimal(m);
        }
    }
    v
}

/// State shared by the operations of a store: the current time in seconds
/// and the next fresh CAS id.
pub struct SharedStoreState {
    current_time: u32,
    cas_id: u64,
}

impl SharedStoreState {
    pub closed spec fn spec_timestamp(&self) -> u32 {
        self.current_time
    }

    pub closed spec fn spec_cas_id(&self) -> u64 {
        self.cas_id
    }

    /// A state at time 0 whose first CAS id is 1.
    pub fn new() -> (r: SharedStoreState)
        ensures
            r.spec_timestamp() == 0,
            r.spec_cas_id() == 1,
    {
        SharedStoreState { current_time: 0, cas_id: 1 }
    }

    pub fn cas_mismatch(record: &Record, cas: u64) -> (r: bool)
        ensures
            r == spec_cas_mismatch(record.header.cas, cas),
    {
        record.header.cas != 0 && cas != record.header.cas
    }

    /// Gives a record its stored version and absolute time to live; returns
    /// the version.
    pub fn set_cas_ttl(&mut self, record: &mut Record) -> (r: u64)
        ensures
            final(record)@ == spec_stamp(old(record)@, old(self).spec_timestamp(), old(self).spec_cas_id()),
            r == final(record).header.cas,
            final(self).spec_cas_id() == spec_next_after_stamp(old(record)@, old(self).spec_cas_id()),
            final(self).spec_timestamp() == old(self).spec_timestamp(),
    {
        record.header.cas = if record.header.cas == 0 {
            self.get_cas_id()
        } else {
            record.header.cas.wrapping_add(1)
        };
        let timestamp = self.timestamp();
        if record.header.time_to_live > 0 {
            record.header.time_to_live = record.header.time_to_live.wrapping_add(timestamp);
        }
        record.header.cas
    }

    pub fn timestamp(&self) -> (r: u32)
        ensures
            r == self.spec_timestamp(),
    {
        self.current_time
    }

    /// Sets the current time, in seconds.
    pub fn set_timestamp(&mut self, timestamp: u32)
        ensures
            final(self).spec_timestamp() == timestamp,
            final(self).spec_cas_id() == old(self).spec_cas_id(),
    {
        self.current_time = timestamp;
    }

    /// Returns a fresh CAS id.
    pub fn get_cas_id(&mut self) -> (r: u64)
        ensures
            r == old(self).spec_cas_id(),
            final(self).spec_cas_id() == old(self).spec_cas_id().wrapping_add(1),
            final(self).spec_timestamp() == old(self).spec_timestamp(),
    {
        let id = self.cas_id;
        self.cas_id = self.cas_id.wrapping_add(1);
        id
    }

    /// Parses the record's value as a number, adds or subtracts the delta
    /// (increments wrap around, decrements stop at zero) and returns the new
    /// value as its decimal text. Fails if the value is not a number.
    pub fn incr_decr_common(&self, record: &Record, delta: DeltaParam, increment: bool) -> (r:
        Result<Vec<u8>>)
        ensures
            match spec_incr_decr_common(record.value@, delta.delta, increment) {
                Ok(v) => r is Ok && r->Ok_0@ == spec_decimal(v),
                Err(e) => r == Err::<Vec<u8>, CacheError>(e),
            },
    {
        match parse_u64(record.value.as_slice()) {
            Some(value) => {
                let mut value = value;
                if increment {
                    value = value.wrapping_add(delta.delta);
                } else if delta.delta > value {
                    value = 0;
                } else {
                    value = value - delta.delta;
                }
                Ok(u64_to_decimal(value))
            },
            None => Err(CacheError::ArithOnNonNumeric),
        }
    }

    pub fn check_if_expired(&self, _key: &KeyType, record: &Record) -> (r: bool)
        ensures
            r == spec_expired(record@, self.spec_timestamp()),
    {
        let current_time = self.timestamp();
        if record.header.time_to_live == 0 {
            return false;
        }
        if record.header.time_to_live > current_time {
            return false;
        }
        true
    }
}

} // verus!
