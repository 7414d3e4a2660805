use crate::cache::cache::RecordModel;
use crate::cache::error::CacheError;
use crate::memory_store::numeric::{lemma_parse_decimal, spec_decimal, spec_parse_u64};
use crate::memory_store::shared_store_state::{spec_expired, spec_stamp};
use crate::memory_store::store_spec::{
    spec_add, spec_append_prepend, spec_delete, spec_flush, spec_get, spec_incr_decr,
    spec_replace, spec_set, may_evict, room_after_writes, store_outcome, StoreView,
};
use crate::memory_store::engine::StoreEngine;
use vstd::prelude::*;

verus! {

/// The time to live of `r`, once stamped at time `now`, does not wrap
/// around the clock.
pub open spec fn ttl_fits(r: RecordModel, now: u32) -> bool {
    r.2 as int + now as int <= u32::MAX
}

/// A record that was stored reads back: a get right after a successful set
/// returns the stored record (with its new version and absolute time to
/// live) and the value that was set, as long as its time to live does not
/// wrap around the clock.
pub proof fn law_get_after_set(s: StoreView, key: Seq<u8>, r: RecordModel)
    requires
        spec_set(s, key, r).result is Ok,
        ttl_fits(r, s.now),
    ensures
        spec_get(spec_set(s, key, r).state, key).result == Ok::<RecordModel, CacheError>(
            spec_stamp(r, s.now, s.next_cas),
        ),
        spec_get(spec_set(s, key, r).state, key).state == spec_set(s, key, r).state,
        spec_stamp(r, s.now, s.next_cas).3 == r.3,
{
}

/// What any store that ran a successful set holds: a store that does not
/// evict, or one that had room for the record, answers a get of that key
/// with the stored record; a full store that may evict answers with the
/// stored record or with `NotFound`, never with another record.
pub proof fn law_get_after_set_in_any_store(s: StoreView, key: Seq<u8>, r: RecordModel, actual: StoreView)
    requires
        spec_set(s, key, r).result is Ok,
        ttl_fits(r, s.now),
        store_outcome(actual, spec_set(s, key, r).state),
    ensures
        spec_get(actual, key).result == Ok::<RecordModel, CacheError>(spec_stamp(r, s.now, s.next_cas))
            || (may_evict(s) && spec_get(actual, key).result == Err::<RecordModel, CacheError>(
            CacheError::NotFound,
        )),
        !may_evict(s) || s.room >= 1 ==> spec_get(actual, key).result == Ok::<RecordModel, CacheError>(
            spec_stamp(r, s.now, s.next_cas),
        ),
{
    let expected = spec_set(s, key, r).state;
    if may_evict(s) && actual.contents.dom().contains(key) {
        assert(expected.contents.dom().contains(key) && actual.contents[key] == expected.contents[key]);
    }
}

/// A store that has room left after an operation holds exactly what the
/// model of that operation holds, with its clock and next version: only a
/// full store that may evict can hold less. So every law of the model
/// holds of such a store too.
pub proof fn law_store_with_room_is_model(actual: StoreView, expected: StoreView)
    requires
        store_outcome(actual, expected),
        !may_evict(expected) || expected.room >= 0,
    ensures
        actual.contents == expected.contents,
        actual.now == expected.now,
        actual.next_cas == expected.next_cas,
        actual.engine == expected.engine,
        actual.room >= expected.room,
{
}

/// Each command takes at most one place of a store's room (a flush that
/// gives a time to live takes one per record), and a lookup, a delete, a
/// flush that empties the store or a refused set takes none.
pub proof fn law_commands_use_room(
    s: StoreView,
    key: Seq<u8>,
    r: RecordModel,
    cas: u64,
    expiration: u32,
    delta: u64,
    initial: u64,
    flag: bool,
    ttl: u32,
)
    ensures
        spec_get(s, key).state.room == s.room,
        spec_delete(s, key, cas).state.room == s.room,
        spec_set(s, key, r).state.room >= room_after_writes(s, 1),
        spec_add(s, key, r).state.room >= room_after_writes(s, 1),
        spec_replace(s, key, r).state.room >= room_after_writes(s, 1),
        spec_append_prepend(s, key, r, flag).state.room >= room_after_writes(s, 1),
        spec_incr_decr(s, cas, expiration, key, delta, initial, flag).state.room >= room_after_writes(
            s,
            1,
        ),
        spec_flush(s, 0).room == s.room,
        spec_flush(s, ttl).room >= room_after_writes(s, s.contents.len() as int),
        spec_set(s, key, r).result is Err ==> spec_set(s, key, r).state.room == s.room,
{
}

/// A set succeeds whenever the key is absent, or the record carries no
/// version, or its version is the stored one; it fails with `KeyExists`
/// otherwise and then leaves the store as it was.
pub proof fn law_set_outcome(s: StoreView, key: Seq<u8>, r: RecordModel)
    ensures
        (spec_set(s, key, r).result is Ok) <==> (!s.contents.contains_key(key) || r.0 == 0
            || s.contents[key].0 == r.0),
        spec_set(s, key, r).result is Err ==> spec_set(s, key, r).result == Err::<u64, CacheError>(
            CacheError::KeyExists,
        ) && spec_set(s, key, r).state == s,
{
}

/// Optimistic concurrency: the version a set returns is the one to use for
/// the next set of that key, and a version that was used once no longer
/// matches.
pub proof fn law_cas_versions(s: StoreView, key: Seq<u8>, r: RecordModel, next: RecordModel)
    requires
        spec_set(s, key, r).result is Ok,
    ensures
        next.0 == spec_set(s, key, r).result->Ok_0 ==> spec_set(
            spec_set(s, key, r).state,
            key,
            next,
        ).result is Ok,
        r.0 != 0 && next.0 == r.0 ==> spec_set(spec_set(s, key, r).state, key, next).result
            == Err::<u64, CacheError>(CacheError::KeyExists),
{
}

/// A deleted key is gone: a get right after a successful delete fails with
/// `NotFound`.
pub proof fn law_get_after_delete(s: StoreView, key: Seq<u8>, cas: u64)
    requires
        spec_delete(s, key, cas).result is Ok,
    ensures
        spec_get(spec_delete(s, key, cas).state, key).result == Err::<RecordModel, CacheError>(
            CacheError::NotFound,
        ),
        !spec_delete(s, key, cas).state.contents.contains_key(key),
{
}

/// A delete whose version does not match leaves the record in place and
/// fails with `KeyExists`.
pub proof fn law_delete_cas_mismatch(s: StoreView, key: Seq<u8>, cas: u64)
    requires
        s.contents.contains_key(key),
        cas != 0,
        s.contents[key].0 != cas,
    ensures
        spec_delete(s, key, cas).result == Err::<RecordModel, CacheError>(CacheError::KeyExists),
        spec_delete(s, key, cas).state == s,
{
}

/// An add of a key that is present fails with `KeyExists` and leaves every
/// record as it was.
pub proof fn law_add_present_key(s: StoreView, key: Seq<u8>, r: RecordModel)
    requires
        s.contents.contains_key(key),
    ensures
        spec_add(s, key, r).result == Err::<u64, CacheError>(CacheError::KeyExists),
        spec_add(s, key, r).state.contents == s.contents,
{
}

/// An add of an absent key stores the record.
pub proof fn law_add_absent_key(s: StoreView, key: Seq<u8>, r: RecordModel)
    requires
        !s.contents.contains_key(key),
    ensures
        spec_add(s, key, r).result == Ok::<u64, CacheError>(spec_stamp(r, s.now, s.next_cas).0),
        spec_add(s, key, r).state.contents == s.contents.insert(key, spec_stamp(r, s.now, s.next_cas)),
{
}

/// A replace of an absent key fails with `NotFound` and changes nothing.
pub proof fn law_replace_absent_key(s: StoreView, key: Seq<u8>, r: RecordModel)
    requires
        !s.contents.contains_key(key),
    ensures
        spec_replace(s, key, r).result == Err::<u64, CacheError>(CacheError::NotFound),
        spec_replace(s, key, r).state == s,
{
}

/// Append and prepend join the stored value and the new one: a get right
/// after a successful append returns the old value followed by the new
/// one, after a prepend the new value followed by the old one.
pub proof fn law_get_after_append_prepend(
    s: StoreView,
    key: Seq<u8>,
    r: RecordModel,
    is_append: bool,
)
    requires
        spec_append_prepend(s, key, r, is_append).result is Ok,
        ttl_fits(r, s.now),
    ensures
        spec_get(spec_append_prepend(s, key, r, is_append).state, key).result is Ok,
        spec_get(spec_append_prepend(s, key, r, is_append).state, key).result->Ok_0.3 == (
        if is_append {
            s.contents[key].3 + r.3
        } else {
            r.3 + s.contents[key].3
        }),
{
}

/// Append and prepend need the key: on an absent key they fail with
/// `NotFound` and store nothing.
pub proof fn law_append_prepend_absent_key(
    s: StoreView,
    key: Seq<u8>,
    r: RecordModel,
    is_append: bool,
)
    requires
        !s.contents.contains_key(key),
    ensures
        spec_append_prepend(s, key, r, is_append).result == Err::<u64, CacheError>(
            CacheError::NotFound,
        ),
        spec_append_prepend(s, key, r, is_append).state.contents == s.contents,
{
}

/// A counter is kept as decimal text: after a successful increment or
/// decrement the stored value is the decimal text of the returned number,
/// which reads back as that number.
pub proof fn law_counter_text(
    s: StoreView,
    cas: u64,
    expiration: u32,
    key: Seq<u8>,
    delta: u64,
    initial: u64,
    increment: bool,
)
    requires
        spec_incr_decr(s, cas, expiration, key, delta, initial, increment).result is Ok,
    ensures
        ({
            let step = spec_incr_decr(s, cas, expiration, key, delta, initial, increment);
            let v = step.result->Ok_0.1;
            &&& step.state.contents.contains_key(key)
            &&& step.state.contents[key].3 == spec_decimal(v)
            &&& spec_parse_u64(step.state.contents[key].3) == Some(v)
        }),
{
    let step = spec_incr_decr(s, cas, expiration, key, delta, initial, increment);
    lemma_parse_decimal(step.result->Ok_0.1);
}

/// A decrement undoes an increment: incrementing a counter by `delta` and
/// then decrementing it by `delta` gives back the counter's value, as long
/// as the increment does not wrap around.
pub proof fn law_decrement_undoes_increment(
    s: StoreView,
    key: Seq<u8>,
    delta: u64,
    initial: u64,
    expiration: u32,
)
    requires
        spec_incr_decr(s, 0, expiration, key, delta, initial, true).result is Ok,
        s.contents.contains_key(key),
        spec_parse_u64(s.contents[key].3) is Some,
        spec_parse_u64(s.contents[key].3)->Some_0 + delta <= u64::MAX,
    ensures
        ({
            let up = spec_incr_decr(s, 0, expiration, key, delta, initial, true);
            let down = spec_incr_decr(up.state, 0, expiration, key, delta, initial, false);
            &&& down.result is Ok
            &&& down.result->Ok_0.1 == spec_parse_u64(s.contents[key].3)->Some_0
        }),
{
    let up = spec_incr_decr(s, 0, expiration, key, delta, initial, true);
    lemma_parse_decimal(up.result->Ok_0.1);
}

/// Arithmetic needs a number: on a stored value that is not decimal text
/// (an optional `+` and digits of a 64-bit number), an increment or
/// decrement without a version fails with `ArithOnNonNumeric` and changes
/// nothing.
pub proof fn law_counter_needs_number(
    s: StoreView,
    expiration: u32,
    key: Seq<u8>,
    delta: u64,
    initial: u64,
    increment: bool,
)
    requires
        s.contents.contains_key(key),
        spec_parse_u64(s.contents[key].3) is None,
    ensures
        spec_incr_decr(s, 0, expiration, key, delta, initial, increment).result == Err::<
            (u64, u64),
            CacheError,
        >(CacheError::ArithOnNonNumeric),
        spec_incr_decr(s, 0, expiration, key, delta, initial, increment).state == s,
{
}

/// A missing counter is created with its initial value, unless the
/// expiration says that no initial value is wanted.
pub proof fn law_counter_created(
    s: StoreView,
    cas: u64,
    expiration: u32,
    key: Seq<u8>,
    delta: u64,
    initial: u64,
    increment: bool,
)
    requires
        !s.contents.contains_key(key),
    ensures
        expiration != 0xffffffff ==> spec_incr_decr(
            s,
            cas,
            expiration,
            key,
            delta,
            initial,
            increment,
        ).result == Ok::<(u64, u64), CacheError>((s.next_cas, initial)),
        expiration == 0xffffffff ==> spec_incr_decr(
            s,
            cas,
            expiration,
            key,
            delta,
            initial,
            increment,
        ).result == Err::<(u64, u64), CacheError>(CacheError::NotFound) && spec_incr_decr(
            s,
            cas,
            expiration,
            key,
            delta,
            initial,
            increment,
        ).state == s,
{
}

/// A get never returns an expired record, and it drops an expired record
/// that it finds.
pub proof fn law_get_never_expired(s: StoreView, key: Seq<u8>)
    ensures
        spec_get(s, key).result is Ok ==> !spec_expired(spec_get(s, key).result->Ok_0, s.now),
        s.contents.contains_key(key) && spec_expired(s.contents[key], s.now) ==> !spec_get(
            s,
            key,
        ).state.contents.contains_key(key),
{
}

/// On either engine, once the clock has reached the time to live a flush
/// gave, no record the store holds is returned.
pub proof fn law_flush_expires_in_any_store(s: StoreView, ttl: u32, key: Seq<u8>, later: u32, actual: StoreView)
    requires
        ttl > 0,
        later >= ttl,
        store_outcome(actual, spec_flush(s, ttl)),
    ensures
        spec_get(StoreView { now: later, ..actual }, key).result == Err::<RecordModel, CacheError>(
            CacheError::NotFound,
        ),
{
    let expected = spec_flush(s, ttl);
    if actual.contents.dom().contains(key) {
        assert(expected.contents.dom().contains(key) && actual.contents[key] == expected.contents[key]);
    }
}

/// A flush without a time to live empties the store; with one, every key
/// stays and gets that time to live, so that from that time on no record
/// is returned.
pub proof fn law_flush(s: StoreView, ttl: u32, key: Seq<u8>, later: u32)
    ensures
        ttl == 0 ==> spec_get(spec_flush(s, ttl), key).result == Err::<RecordModel, CacheError>(
            CacheError::NotFound,
        ),
        ttl > 0 ==> spec_flush(s, ttl).contents.dom() == s.contents.dom(),
        ttl > 0 && s.contents.contains_key(key) ==> spec_flush(
            s,
            ttl,
        ).contents[key].2 == ttl,
        spec_flush(s, ttl).now == s.now,
        spec_flush(s, ttl).next_cas == s.next_cas,
        ttl > 0 && later >= ttl ==> spec_get(
            StoreView { now: later, ..spec_flush(s, ttl) },
            key,
        ).result == Err::<RecordModel, CacheError>(CacheError::NotFound),
{
    if ttl > 0 {
        assert(spec_flush(s, ttl).contents.dom() =~= s.contents.dom());
    }
}

/// Every command touches only its own key: the record of any other key is
/// the same after it as before.
pub proof fn law_other_keys_unchanged(
    s: StoreView,
    key: Seq<u8>,
    other: Seq<u8>,
    r: RecordModel,
    cas: u64,
    expiration: u32,
    delta: u64,
    initial: u64,
    flag: bool,
)
    requires
        other != key,
    ensures
        spec_get(s, key).state.contents.get(other) == s.contents.get(other),
        spec_set(s, key, r).state.contents.get(other) == s.contents.get(other),
        spec_add(s, key, r).state.contents.get(other) == s.contents.get(other),
        spec_replace(s, key, r).state.contents.get(other) == s.contents.get(other),
        spec_append_prepend(s, key, r, flag).state.contents.get(other) == s.contents.get(other),
        spec_delete(s, key, cas).state.contents.get(other) == s.contents.get(other),
        spec_incr_decr(s, cas, expiration, key, delta, initial, flag).state.contents.get(other)
            == s.contents.get(other),
{
}

/// Optimistic concurrency guards a replace: on a present key, a record
/// carrying a version other than 0 and other than the stored one is
/// refused with `KeyExists`, and the store stays as it was.
pub proof fn law_replace_cas_mismatch(s: StoreView, key: Seq<u8>, r: RecordModel)
    requires
        s.contents.contains_key(key),
        r.0 != 0,
        r.0 != s.contents[key].0,
    ensures
        spec_replace(s, key, r).result == Err::<u64, CacheError>(CacheError::KeyExists),
        spec_replace(s, key, r).state == s,
{
}

/// A replace of a present key whose version is 0 or the stored one stores
/// the record, stamped with the clock and the next version, and returns
/// that version.
pub proof fn law_replace_present_key(s: StoreView, key: Seq<u8>, r: RecordModel)
    requires
        s.contents.contains_key(key),
        r.0 == 0 || r.0 == s.contents[key].0,
    ensures
        spec_replace(s, key, r).result == Ok::<u64, CacheError>(spec_stamp(r, s.now, s.next_cas).0),
        spec_replace(s, key, r).state.contents == s.contents.insert(key, spec_stamp(r, s.now, s.next_cas)),
{
}

/// Optimistic concurrency guards an append or a prepend: on a present key,
/// a record carrying a version other than 0 and other than the stored one
/// is refused with `KeyExists`, and no record changes.
pub proof fn law_append_prepend_cas_mismatch(s: StoreView, key: Seq<u8>, r: RecordModel, is_append: bool)
    requires
        s.contents.contains_key(key),
        r.0 != 0,
        r.0 != s.contents[key].0,
    ensures
        spec_append_prepend(s, key, r, is_append).result == Err::<u64, CacheError>(
            CacheError::KeyExists,
        ),
        spec_append_prepend(s, key, r, is_append).state.contents == s.contents,
        spec_append_prepend(s, key, r, is_append).state.now == s.now,
        spec_append_prepend(s, key, r, is_append).state.room == s.room,
{
}

/// Optimistic concurrency guards a counter: an increment or a decrement of
/// a present counter with a version other than 0 and other than the
/// stored one fails and leaves the store as it was. The failure is
/// `KeyExists`, except that a DashMap store first finds a stored value
/// that is no number (`ArithOnNonNumeric`).
pub proof fn law_counter_cas_mismatch(
    s: StoreView,
    cas: u64,
    expiration: u32,
    key: Seq<u8>,
    delta: u64,
    initial: u64,
    increment: bool,
)
    requires
        s.contents.contains_key(key),
        cas != 0,
        cas != s.contents[key].0,
    ensures
        spec_incr_decr(s, cas, expiration, key, delta, initial, increment).result is Err,
        spec_incr_decr(s, cas, expiration, key, delta, initial, increment).state == s,
        s.engine == StoreEngine::Moka || spec_parse_u64(s.contents[key].3) is Some ==> spec_incr_decr(
            s,
            cas,
            expiration,
            key,
            delta,
            initial,
            increment,
        ).result == Err::<(u64, u64), CacheError>(CacheError::KeyExists),
{
}

} // verus!
