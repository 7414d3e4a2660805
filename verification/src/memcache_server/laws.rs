use crate::cache::error::{lemma_message_ascii, CacheError};
use crate::memcache_server::handler::{
    spec_add_replace_response, spec_append_prepend_response, spec_delete_response,
    spec_flush_response, spec_get_response, spec_handle, spec_incr_decr_response,
    spec_set_response,
};
use crate::memory_store::store_spec::{may_evict, spec_get, store_outcome, StoreView};
use crate::protocol::binary::decoder::{RequestKind, RequestView};
use crate::protocol::binary::encoder::{spec_encode_payload, ResponseKind, ResponseView};
use crate::memory_store::shared_store_state::{spec_expired, spec_stamp};
use crate::protocol::binary::network::{spec_opcode, Command};
use crate::version::lemma_version_ascii;
use vstd::prelude::*;

verus! {

/// Every answer is a response to the request it answers: it carries the
/// response magic and the request's opcode and opaque value.
pub proof fn law_response_matches_request(s: StoreView, req: RequestView)
    ensures
        spec_handle(s, req).response is Some ==> {
            let h = spec_handle(s, req).response->Some_0.header;
            &&& h.magic == 0x81
            &&& h.opcode == req.header.opcode
            &&& h.opaque == req.header.opaque
        },
{
    reveal(spec_get_response);
    reveal(spec_set_response);
    reveal(spec_add_replace_response);
    reveal(spec_append_prepend_response);
    reveal(spec_delete_response);
    reveal(spec_flush_response);
    reveal(spec_incr_decr_response);
}

/// Every answer is framed as the protocol asks: the body length in its
/// header is the number of bytes that follow the header on the wire. A
/// stored value is assumed small enough for its length, with the key and
/// the flags, to fit the 32-bit body length.
#[verifier::spinoff_prover]
#[verifier::rlimit(40)]
pub proof fn law_response_framing(s: StoreView, req: RequestView)
    requires
        s.contents.contains_key(req.key) ==> s.contents[req.key].3.len() + req.key.len() + 4
            <= u32::MAX,
    ensures
        spec_handle(s, req).response is Some ==> {
            let r = spec_handle(s, req).response->Some_0;
            r.header.body_length == spec_encode_payload(r).len()
        },
{
    reveal(spec_get_response);
    reveal(spec_set_response);
    reveal(spec_add_replace_response);
    reveal(spec_append_prepend_response);
    reveal(spec_delete_response);
    reveal(spec_flush_response);
    reveal(spec_incr_decr_response);
    lemma_version_ascii();
    lemma_message_ascii(CacheError::NotFound);
    lemma_message_ascii(CacheError::KeyExists);
    lemma_message_ascii(CacheError::ValueTooLarge);
    lemma_message_ascii(CacheError::ArithOnNonNumeric);
    if spec_handle(s, req).response is Some {
        let r = spec_handle(s, req).response->Some_0;
        if r.kind == ResponseKind::Error {
            lemma_message_ascii(CacheError::InvalidArguments);
            lemma_message_ascii(CacheError::ItemNotStored);
            lemma_message_ascii(CacheError::UnkownCommand);
            lemma_message_ascii(CacheError::OutOfMemory);
            lemma_message_ascii(CacheError::NotSupported);
            lemma_message_ascii(CacheError::InternalError);
            lemma_message_ascii(CacheError::Busy);
            lemma_message_ascii(CacheError::TemporaryFailure);
        }
    }
}

/// Handling a request never moves the store's clock.
pub proof fn lemma_handle_keeps_clock(s: StoreView, req: RequestView)
    ensures
        spec_handle(s, req).state.now == s.now,
        spec_handle(s, req).state.engine == s.engine,
{
    reveal(spec_get_response);
    reveal(spec_set_response);
    reveal(spec_add_replace_response);
    reveal(spec_append_prepend_response);
    reveal(spec_delete_response);
    reveal(spec_flush_response);
    reveal(spec_incr_decr_response);
}

/// A quiet get of a missing key is not answered, and a quiet command that
/// succeeds is not answered either; a loud command is always answered.
pub proof fn law_quiet_commands(s: StoreView, req: RequestView)
    ensures
        (req.kind == RequestKind::GetQuietly || req.kind == RequestKind::GetKeyQuietly)
            && !s.contents.contains_key(req.key) ==> spec_handle(s, req).response is None,
        (req.kind == RequestKind::SetQuietly) && (spec_handle(s, req).response is Some)
            ==> spec_handle(s, req).response->Some_0.kind == ResponseKind::Error,
        (req.kind == RequestKind::Get || req.kind == RequestKind::SetValue || req.kind
            == RequestKind::Delete || req.kind == RequestKind::Increment || req.kind
            == RequestKind::Noop || req.kind == RequestKind::Version) ==> spec_handle(
            s,
            req,
        ).response is Some,
{
    reveal(spec_get_response);
    reveal(spec_set_response);
}

/// The loud command of which `k` is the quiet form (`k` itself if it is loud).
pub open spec fn loud_twin(k: RequestKind) -> RequestKind {
    match k {
        RequestKind::DeleteQuiet => RequestKind::Delete,
        RequestKind::FlushQuietly => RequestKind::Flush,
        RequestKind::GetQuietly => RequestKind::Get,
        RequestKind::GetKeyQuietly => RequestKind::GetKey,
        RequestKind::IncrementQuiet => RequestKind::Increment,
        RequestKind::DecrementQuiet => RequestKind::Decrement,
        RequestKind::QuitQuietly => RequestKind::Quit,
        RequestKind::SetQuietly => RequestKind::SetValue,
        RequestKind::AddQuietly => RequestKind::Add,
        RequestKind::ReplaceQuietly => RequestKind::Replace,
        RequestKind::AppendQuietly => RequestKind::Append,
        RequestKind::PrependQuietly => RequestKind::Prepend,
        _ => k,
    }
}

/// A quiet command does to the store exactly what its loud twin does. A
/// quiet get answers as the loud get unless that answer is a `NotFound`
/// error, which it leaves unanswered; any other quiet command answers only
/// the errors of its loud twin.
pub proof fn law_quiet_like_loud(s: StoreView, req: RequestView)
    requires
        loud_twin(req.kind) != req.kind,
    ensures
        ({
            let loud = spec_handle(s, RequestView { kind: loud_twin(req.kind), ..req });
            let quiet = spec_handle(s, req);
            let answer = loud.response->Some_0;
            &&& loud.response is Some
            &&& quiet.state == loud.state
            &&& (req.kind == RequestKind::GetQuietly || req.kind == RequestKind::GetKeyQuietly)
                ==> quiet.response == (if answer.kind == ResponseKind::Error && answer.header.status
                == 1 {
                None::<ResponseView>
            } else {
                Some(answer)
            })
            &&& !(req.kind == RequestKind::GetQuietly || req.kind == RequestKind::GetKeyQuietly)
                ==> quiet.response == (if answer.kind == ResponseKind::Error {
                Some(answer)
            } else {
                None::<ResponseView>
            })
        }),
{
}

/// On a real store a quiet command and its loud twin leave the same
/// records, clock and next version, as long as the store does not evict or
/// the command leaves it room.
pub proof fn law_quiet_like_loud_in_any_store(
    s: StoreView,
    req: RequestView,
    after_quiet: StoreView,
    after_loud: StoreView,
)
    requires
        loud_twin(req.kind) != req.kind,
        store_outcome(after_quiet, spec_handle(s, req).state),
        store_outcome(after_loud, spec_handle(s, (RequestView { kind: loud_twin(req.kind), ..req })).state),
        !may_evict(spec_handle(s, req).state) || spec_handle(s, req).state.room >= 0,
    ensures
        after_quiet.contents == after_loud.contents,
        after_quiet.now == after_loud.now,
        after_quiet.next_cas == after_loud.next_cas,
{
    law_quiet_like_loud(s, req);
}

/// Reading does not write: a get changes the store only by dropping an
/// expired record, exactly as a store lookup does.
pub proof fn law_get_reads_store(s: StoreView, req: RequestView)
    requires
        req.kind == RequestKind::Get || req.kind == RequestKind::GetKey || req.kind
            == RequestKind::GetQuietly || req.kind == RequestKind::GetKeyQuietly,
    ensures
        spec_handle(s, req).state == spec_get(s, req.key).state,
{
    reveal(spec_get_response);
}

/// An add or a replace request does what the command its opcode names
/// does. An add (the opcode of add or addq) stores the record, stamped
/// with the store's clock and next version, exactly when the key is
/// absent; on a present key it changes no record and answers `KeyExists`
/// (status 2). A replace (the opcode of replace or replaceq) on an absent
/// key changes no record and answers `NotFound` (status 1); on a present
/// key it stores the record when its version is 0 or the stored one, and
/// otherwise changes no record and answers `KeyExists`. A quiet request
/// that succeeds is not answered; a loud one is answered with the new
/// version.
pub proof fn law_add_replace_by_opcode(s: StoreView, req: RequestView)
    requires
        req.kind == RequestKind::Add || req.kind == RequestKind::AddQuietly || req.kind
            == RequestKind::Replace || req.kind == RequestKind::ReplaceQuietly,
    ensures
        ({
            let out = spec_handle(s, req);
            let op = req.header.opcode;
            let is_add = op == spec_opcode(Command::Add) || op == spec_opcode(Command::AddQuiet);
            let is_replace = op == spec_opcode(Command::Replace) || op == spec_opcode(
                Command::ReplaceQuiet,
            );
            let quiet = req.kind == RequestKind::AddQuietly || req.kind == RequestKind::ReplaceQuietly;
            let stored = spec_stamp(
                (req.header.cas, req.flags, req.expiration, req.value),
                s.now,
                s.next_cas,
            );
            let present = s.contents.contains_key(req.key);
            let version_ok = req.header.cas == 0 || (present && req.header.cas == s.contents[req.key].0);
            let stores = (is_add && !present) || (is_replace && present && version_ok);
            let refused_status: u16 = if is_add {
                2
            } else if !present {
                1
            } else {
                2
            };
            &&& stores ==> out.state.contents == s.contents.insert(req.key, stored)
            &&& stores && quiet ==> out.response is None
            &&& stores && !quiet ==> out.response is Some && out.response->Some_0.kind
                == ResponseKind::SetValue && out.response->Some_0.header.cas == stored.0
            &&& (is_add || is_replace) && !stores ==> out.state.contents == s.contents
                && out.response is Some && out.response->Some_0.kind == ResponseKind::Error
                && out.response->Some_0.header.status == refused_status
        }),
{
    reveal(spec_add_replace_response);
}

/// An append or a prepend request joins values by the command its opcode
/// names: with the opcode of append or appendq the stored value is
/// followed by the new one, with that of prepend or prependq the new
/// value comes first. On a present key whose version is 0 or matches, the
/// joined value is stored and a quiet request is not answered; on an
/// absent key no record changes and the answer is `NotFound` (status 1).
pub proof fn law_append_prepend_by_opcode(s: StoreView, req: RequestView)
    requires
        req.kind == RequestKind::Append || req.kind == RequestKind::AppendQuietly || req.kind
            == RequestKind::Prepend || req.kind == RequestKind::PrependQuietly,
    ensures
        ({
            let out = spec_handle(s, req);
            let op = req.header.opcode;
            let is_append = op == spec_opcode(Command::Append) || op == spec_opcode(
                Command::AppendQuiet,
            );
            let is_prepend = op == spec_opcode(Command::Prepend) || op == spec_opcode(
                Command::PrependQuiet,
            );
            let quiet = req.kind == RequestKind::AppendQuietly || req.kind
                == RequestKind::PrependQuietly;
            let present = s.contents.contains_key(req.key);
            let joins = present && (req.header.cas == 0 || req.header.cas == s.contents[req.key].0);
            &&& joins && is_append ==> out.state.contents.contains_key(req.key)
                && out.state.contents[req.key].3 == s.contents[req.key].3 + req.value
            &&& joins && is_prepend ==> out.state.contents.contains_key(req.key)
                && out.state.contents[req.key].3 == req.value + s.contents[req.key].3
            &&& joins && quiet ==> out.response is None
            &&& !present ==> out.state.contents == s.contents && out.response is Some
                && out.response->Some_0.kind == ResponseKind::Error
                && out.response->Some_0.header.status == 1
        }),
{
    reveal(spec_append_prepend_response);
}

/// A get request answers a live record with its value and flags; the
/// answer carries the key exactly when the opcode is that of getk or
/// getkq.
pub proof fn law_get_key_by_opcode(s: StoreView, req: RequestView)
    requires
        req.kind == RequestKind::Get || req.kind == RequestKind::GetKey || req.kind
            == RequestKind::GetQuietly || req.kind == RequestKind::GetKeyQuietly,
        s.contents.contains_key(req.key),
        !spec_expired(s.contents[req.key], s.now),
    ensures
        ({
            let out = spec_handle(s, req);
            let op = req.header.opcode;
            let with_key = op == spec_opcode(Command::GetKey) || op == spec_opcode(
                Command::GetKeyQuiet,
            );
            &&& out.response is Some
            &&& out.response->Some_0.value == s.contents[req.key].3
            &&& out.response->Some_0.flags == s.contents[req.key].1
            &&& out.response->Some_0.key == (if with_key {
                req.key
            } else {
                Seq::<u8>::empty()
            })
        }),
{
    reveal(spec_get_response);
}

} // verus!
