use crate::cache::cache::{CacheMetaData, DeltaParam};
use crate::cache::error::{spec_message, spec_status, CacheError};
use crate::memcache::store;
use crate::memory_store::store_spec::{
    spec_add, spec_append_prepend, spec_delete, spec_flush, spec_get, spec_incr_decr,
    spec_replace, spec_set, store_outcome, StoreView,
};
use crate::protocol::binary::decoder::{BinaryRequest, RequestKind, RequestView};
use crate::protocol::binary::encoder::{
    response_view, storage_error_to_response, BinaryResponse, ResponseKind, ResponseView,
};
use crate::protocol::binary::network;
use crate::protocol::binary::network::{spec_response_header, RequestHeader, ResponseHeader};
use crate::version::MEMCRS_VERSION;
use vstd::prelude::*;

verus! {

/// Length of the extras (the flags) of a get response.
pub const EXTRAS_LENGTH: u8 = 4;

/// The response that reports a store error.
pub open spec fn spec_error_response(e: CacheError, base: ResponseHeader) -> ResponseView {
    response_view(
        ResponseKind::Error,
        ResponseHeader { status: spec_status(e), body_length: spec_message(e).len() as u32, ..base },
        0,
        Seq::empty(),
        Seq::empty(),
        spec_message(e),
        0,
    )
}

/// A response that carries nothing but its header.
pub open spec fn header_response(kind: ResponseKind, h: ResponseHeader) -> ResponseView {
    response_view(kind, h, 0, Seq::empty(), Seq::empty(), Seq::empty(), 0)
}

/// The store after a command, and the response to it.
pub struct HandlerStep {
    pub state: StoreView,
    pub response: ResponseView,
}

/// The store after a request, and the response (none for a quiet success).
pub struct HandlerOutcome {
    pub state: StoreView,
    pub response: Option<ResponseView>,
}

/// Quiet get: a miss is not answered.
pub open spec fn spec_quiet_get(r: ResponseView) -> Option<ResponseView> {
    if r.kind == ResponseKind::Error && r.header.status == 0x01 {
        None
    } else {
        Some(r)
    }
}

/// Quiet mutation: only errors are answered.
pub open spec fn spec_quiet_mutation(r: ResponseView) -> Option<ResponseView> {
    if r.kind == ResponseKind::Error {
        Some(r)
    } else {
        None
    }
}

pub open spec fn loud(st: HandlerStep) -> HandlerOutcome {
    HandlerOutcome { state: st.state, response: Some(st.response) }
}

pub open spec fn quiet_get(st: HandlerStep) -> HandlerOutcome {
    HandlerOutcome { state: st.state, response: spec_quiet_get(st.response) }
}

pub open spec fn quiet_mutation(st: HandlerStep) -> HandlerOutcome {
    HandlerOutcome { state: st.state, response: spec_quiet_mutation(st.response) }
}

pub open spec fn is_get_key_opcode(opcode: u8) -> bool {
    opcode == 0x0c || opcode == 0x0d
}

pub open spec fn is_add_opcode(opcode: u8) -> bool {
    opcode == 0x02 || opcode == 0x12
}

pub open spec fn is_append_opcode(opcode: u8) -> bool {
    opcode == 0x0e || opcode == 0x19
}

#[verifier::opaque]
pub open spec fn spec_get_response(s: StoreView, h: RequestHeader, key: Seq<u8>, base: ResponseHeader) -> HandlerStep {
    let step = spec_get(s, key);
    match step.result {
        Ok(rec) => {
            let k = if is_get_key_opcode(h.opcode) {
                key
            } else {
                Seq::<u8>::empty()
            };
            let hdr = ResponseHeader {
                body_length: ((rec.3.len() as u32).wrapping_add(4)).wrapping_add(k.len() as u32),
                key_length: k.len() as u16,
                extras_length: 4,
                cas: rec.0,
                ..base
            };
            HandlerStep {
                state: step.state,
                response: response_view(ResponseKind::Get, hdr, rec.1, k, rec.3, Seq::empty(), 0),
            }
        },
        Err(e) => HandlerStep { state: step.state, response: spec_error_response(e, base) },
    }
}

#[verifier::opaque]
pub open spec fn spec_set_response(
    s: StoreView,
    h: RequestHeader,
    flags: u32,
    expiration: u32,
    key: Seq<u8>,
    value: Seq<u8>,
    base: ResponseHeader,
) -> HandlerStep {
    let step = spec_set(s, key, (h.cas, flags, expiration, value));
    match step.result {
        Ok(cas) => HandlerStep {
            state: step.state,
            response: header_response(ResponseKind::SetValue, ResponseHeader { cas, ..base }),
        },
        Err(e) => HandlerStep { state: step.state, response: spec_error_response(e, base) },
    }
}

#[verifier::opaque]
pub open spec fn spec_add_replace_response(
    s: StoreView,
    h: RequestHeader,
    flags: u32,
    expiration: u32,
    key: Seq<u8>,
    value: Seq<u8>,
    base: ResponseHeader,
) -> HandlerStep {
    let record = (h.cas, flags, expiration, value);
    let step = if is_add_opcode(h.opcode) {
        spec_add(s, key, record)
    } else {
        spec_replace(s, key, record)
    };
    match step.result {
        Ok(cas) => HandlerStep {
            state: step.state,
            response: header_response(ResponseKind::SetValue, ResponseHeader { cas, ..base }),
        },
        Err(e) => HandlerStep { state: step.state, response: spec_error_response(e, base) },
    }
}

#[verifier::opaque]
pub open spec fn spec_append_prepend_response(
    s: StoreView,
    h: RequestHeader,
    key: Seq<u8>,
    value: Seq<u8>,
    base: ResponseHeader,
) -> HandlerStep {
    let is_append = is_append_opcode(h.opcode);
    let step = spec_append_prepend(s, key, (h.cas, 0u32, 0u32, value), is_append);
    match step.result {
        Ok(cas) => HandlerStep {
            state: step.state,
            response: header_response(
                if is_append {
                    ResponseKind::Append
                } else {
                    ResponseKind::Prepend
                },
                ResponseHeader { cas, ..base },
            ),
        },
        Err(e) => HandlerStep { state: step.state, response: spec_error_response(e, base) },
    }
}

#[verifier::opaque]
pub open spec fn spec_delete_response(s: StoreView, h: RequestHeader, key: Seq<u8>, base: ResponseHeader) -> HandlerStep {
    let step = spec_delete(s, key, h.cas);
    match step.result {
        Ok(_) => HandlerStep { state: step.state, response: header_response(ResponseKind::Delete, base) },
        Err(e) => HandlerStep { state: step.state, response: spec_error_response(e, base) },
    }
}

#[verifier::opaque]
pub open spec fn spec_flush_response(s: StoreView, expiration: u32, base: ResponseHeader) -> HandlerStep {
    HandlerStep {
        state: spec_flush(s, expiration),
        response: header_response(ResponseKind::Flush, base),
    }
}

#[verifier::opaque]
pub open spec fn spec_incr_decr_response(
    s: StoreView,
    h: RequestHeader,
    delta: u64,
    initial: u64,
    expiration: u32,
    key: Seq<u8>,
    base: ResponseHeader,
    increment: bool,
) -> HandlerStep {
    let step = spec_incr_decr(s, h.cas, expiration, key, delta, initial, increment);
    match step.result {
        Ok((cas, value)) => HandlerStep {
            state: step.state,
            response: response_view(
                if increment {
                    ResponseKind::Increment
                } else {
                    ResponseKind::Decrement
                },
                ResponseHeader { body_length: 8, cas, ..base },
                0,
                Seq::empty(),
                Seq::empty(),
                Seq::empty(),
                value,
            ),
        },
        Err(e) => HandlerStep { state: step.state, response: spec_error_response(e, base) },
    }
}

pub open spec fn unchanged(s: StoreView, r: ResponseView) -> HandlerStep {
    HandlerStep { state: s, response: r }
}

/// What handling a request does to the store and what it answers.
pub open spec fn spec_handle(s: StoreView, req: RequestView) -> HandlerOutcome {
    let base = spec_response_header(req.header.opcode, req.header.opaque);
    match req.kind {
        RequestKind::Delete => loud(spec_delete_response(s, req.header, req.key, base)),
        RequestKind::DeleteQuiet => quiet_mutation(spec_delete_response(s, req.header, req.key, base)),
        RequestKind::Flush => loud(spec_flush_response(s, req.expiration, base)),
        RequestKind::FlushQuietly => quiet_mutation(spec_flush_response(s, req.expiration, base)),
        RequestKind::Get | RequestKind::GetKey => loud(spec_get_response(s, req.header, req.key, base)),
        RequestKind::GetQuietly | RequestKind::GetKeyQuietly => quiet_get(
            spec_get_response(s, req.header, req.key, base),
        ),
        RequestKind::Increment => loud(spec_incr_decr_response(s, req.header, req.delta, req.initial, req.expiration, req.key, base, true)),
        RequestKind::IncrementQuiet => quiet_mutation(spec_incr_decr_response(s, req.header, req.delta, req.initial, req.expiration, req.key, base, true)),
        RequestKind::Decrement => loud(spec_incr_decr_response(s, req.header, req.delta, req.initial, req.expiration, req.key, base, false)),
        RequestKind::DecrementQuiet => quiet_mutation(spec_incr_decr_response(s, req.header, req.delta, req.initial, req.expiration, req.key, base, false)),
        RequestKind::Noop => loud(unchanged(s, header_response(ResponseKind::Noop, base))),
        RequestKind::Stats => loud(unchanged(s, header_response(ResponseKind::Stats, base))),
        RequestKind::Quit => loud(unchanged(s, header_response(ResponseKind::Quit, base))),
        RequestKind::QuitQuietly => quiet_mutation(unchanged(s, header_response(ResponseKind::Quit, base))),
        RequestKind::SetValue => loud(spec_set_response(s, req.header, req.flags, req.expiration, req.key, req.value, base)),
        RequestKind::SetQuietly => quiet_mutation(spec_set_response(s, req.header, req.flags, req.expiration, req.key, req.value, base)),
        RequestKind::Add | RequestKind::Replace => loud(spec_add_replace_response(s, req.header, req.flags, req.expiration, req.key, req.value, base)),
        RequestKind::AddQuietly | RequestKind::ReplaceQuietly => quiet_mutation(
            spec_add_replace_response(s, req.header, req.flags, req.expiration, req.key, req.value, base),
        ),
        RequestKind::Append | RequestKind::Prepend => loud(spec_append_prepend_response(s, req.header, req.key, req.value, base)),
        RequestKind::AppendQuietly | RequestKind::PrependQuietly => quiet_mutation(
            spec_append_prepend_response(s, req.header, req.key, req.value, base),
        ),
        RequestKind::Version => loud(
            unchanged(
                s,
                response_view(
                    ResponseKind::Version,
                    ResponseHeader { body_length: vstd::string::StringSliceAdditionalSpecFns::spec_bytes(MEMCRS_VERSION).len() as u32, ..base },
                    0,
                    Seq::empty(),
                    Seq::empty(),
                    MEMCRS_VERSION@,
                    0,
                ),
            ),
        ),
        RequestKind::ItemTooLarge => loud(
            unchanged(s, spec_error_response(CacheError::ValueTooLarge, base)),
        ),
    }
}

/// The model of an optional response.
pub open spec fn option_view(r: Option<BinaryResponse>) -> Option<ResponseView> {
    match r {
        Some(resp) => Some(resp@),
        None => None,
    }
}

fn into_record_meta(request_header: &RequestHeader, expiration: u32) -> (r: store::Meta)
    ensures
        r == (CacheMetaData {
            cas: request_header.cas,
            flags: request_header.opaque,
            time_to_live: expiration,
        }),
{
    store::Meta::new(request_header.cas, request_header.opaque, expiration)
}

fn into_quiet_get(response: BinaryResponse) -> (r: Option<BinaryResponse>)
    ensures
        option_view(r) == spec_quiet_get(response@),
{
    if let BinaryResponse::Error(resp) = &response {
        if resp.header.status == CacheError::NotFound.status() {
            return None;
        }
    }
    Some(response)
}

fn into_quiet_mutation(response: BinaryResponse) -> (r: Option<BinaryResponse>)
    ensures
        option_view(r) == spec_quiet_mutation(response@),
{
    if let BinaryResponse::Error(_resp) = &response {
        return Some(response);
    }
    None
}

/// Answers binary protocol requests from a store.
pub struct BinaryHandler {
    storage: store::MemcStore,
}

impl View for BinaryHandler {
    type V = StoreView;

    closed spec fn view(&self) -> StoreView {
        self.storage@
    }
}

impl BinaryHandler {
    pub fn new(store: store::MemcStore) -> (r: BinaryHandler)
        ensures
            r@ == store@,
    {
        BinaryHandler { storage: store }
    }

    /// Sets the clock of the handler's store, in seconds.
    pub fn set_timestamp(&mut self, timestamp: u32)
        ensures
            final(self)@ == (StoreView { now: timestamp, ..old(self)@ }),
    {
        self.storage.set_timestamp(timestamp);
    }

    /// Runs the store's pending maintenance.
    pub fn run_pending_tasks(&mut self)
        ensures
            store_outcome(final(self)@, old(self)@),
    {
        self.storage.run_pending_tasks();
    }

    /// Executes a request on the store and builds the response, if the
    /// request gets one.
    pub fn handle_request(&mut self, req: BinaryRequest) -> (r: Option<BinaryResponse>)
        ensures
            store_outcome(final(self)@, spec_handle(old(self)@, req@).state),
            option_view(r) == spec_handle(old(self)@, req@).response,
    {
        let request_header = req.get_header();
        let mut response_header = ResponseHeader::new(request_header.opcode, request_header.opaque);
        match req {
            BinaryRequest::Delete(delete_request) => {
                Some(self.delete(delete_request, &mut response_header))
            },
            BinaryRequest::DeleteQuiet(delete_request) => {
                into_quiet_mutation(self.delete(delete_request, &mut response_header))
            },
            BinaryRequest::Flush(flush_request) => {
                Some(self.flush(flush_request, &mut response_header))
            },
            BinaryRequest::FlushQuietly(flush_request) => {
                into_quiet_mutation(self.flush(flush_request, &mut response_header))
            },
            BinaryRequest::Get(get_request) | BinaryRequest::GetKey(get_request) => {
                Some(self.get(get_request, &mut response_header))
            },
            BinaryRequest::GetQuietly(get_quiet_req) | BinaryRequest::GetKeyQuietly(get_quiet_req) => {
                into_quiet_get(self.get(get_quiet_req, &mut response_header))
            },
            BinaryRequest::Increment(inc_request) => {
                Some(self.increment(inc_request, &mut response_header))
            },
            BinaryRequest::IncrementQuiet(inc_request) => {
                into_quiet_mutation(self.increment(inc_request, &mut response_header))
            },
            BinaryRequest::Decrement(dec_request) => {
                Some(self.decrement(dec_request, &mut response_header))
            },
            BinaryRequest::DecrementQuiet(dec_request) => {
                into_quiet_mutation(self.decrement(dec_request, &mut response_header))
            },
            BinaryRequest::Noop(_noop_request) => {
                Some(BinaryResponse::Noop(network::NoopResponse { header: response_header }))
            },
            BinaryRequest::Stats(_stat_request) => {
                Some(BinaryResponse::Stats(network::StatsResponse { header: response_header }))
            },
            BinaryRequest::Quit(_quit_req) => {
                Some(BinaryResponse::Quit(network::QuitResponse { header: response_header }))
            },
            BinaryRequest::QuitQuietly(_quit_req) => {
                into_quiet_mutation(
                    BinaryResponse::Quit(network::QuitResponse { header: response_header }),
                )
            },
            BinaryRequest::SetValue(set_req) => {
                let response = self.set(set_req, &mut response_header);
                Some(response)
            },
            BinaryRequest::SetQuietly(set_req) => {
                let response = self.set(set_req, &mut response_header);
                into_quiet_mutation(response)
            },
            BinaryRequest::Add(req) | BinaryRequest::Replace(req) => {
                Some(self.add_replace(req, &mut response_header))
            },
            BinaryRequest::AddQuietly(req) | BinaryRequest::ReplaceQuietly(req) => {
                into_quiet_mutation(self.add_replace(req, &mut response_header))
            },
            BinaryRequest::Append(append_req) | BinaryRequest::Prepend(append_req) => {
                let response = self.append_prepend(append_req, &mut response_header);
                Some(response)
            },
            BinaryRequest::AppendQuietly(append_req) | BinaryRequest::PrependQuietly(append_req) => {
                let response = self.append_prepend(append_req, &mut response_header);
                into_quiet_mutation(response)
            },
            BinaryRequest::Version(_version_request) => {
                proof {
                    crate::version::lemma_version_ascii();
                }
                response_header.body_length = MEMCRS_VERSION.len() as u32;
                Some(
                    BinaryResponse::Version(
                        network::VersionResponse {
                            header: response_header,
                            version: MEMCRS_VERSION.to_owned(),
                        },
                    ),
                )
            },
            BinaryRequest::ItemTooLarge(_set_request) => {
                Some(storage_error_to_response(CacheError::ValueTooLarge, &mut response_header))
            },
        }
    }

    fn add_replace(&mut self, request: network::SetRequest, response_header: &mut ResponseHeader) -> (r: BinaryResponse)
        ensures
            store_outcome(final(self)@, spec_add_replace_response(
                old(self)@,
                request.header,
                request.flags,
                request.expiration,
                request.key@,
                request.value@,
                *old(response_header),
            ).state),
            r@ == spec_add_replace_response(
                old(self)@,
                request.header,
                request.flags,
                request.expiration,
                request.key@,
                request.value@,
                *old(response_header),
            ).response,
    {
        reveal(spec_add_replace_response);
        let record = store::Record::new(
            request.value,
            request.header.cas,
            request.flags,
            request.expiration,
        );
        let result = if self.is_add_command(request.header.opcode) {
            self.storage.add(request.key, record)
        } else {
            self.storage.replace(request.key, record)
        };
        match result {
            Ok(command_status) => {
                response_header.cas = command_status.cas;
                BinaryResponse::SetValue(network::SetResponse { header: *response_header })
            },
            Err(err) => storage_error_to_response(err, response_header),
        }
    }

    fn is_add_command(&self, opcode: u8) -> (r: bool)
        ensures
            r == is_add_opcode(opcode),
    {
        opcode == network::Command::Add.as_u8() || opcode == network::Command::AddQuiet.as_u8()
    }

    fn append_prepend(
        &mut self,
        append_prepend_req: network::AppendRequest,
        response_header: &mut ResponseHeader,
    ) -> (r: BinaryResponse)
        ensures
            store_outcome(final(self)@, spec_append_prepend_response(
                old(self)@,
                append_prepend_req.header,
                append_prepend_req.key@,
                append_prepend_req.value@,
                *old(response_header),
            ).state),
            r@ == spec_append_prepend_response(
                old(self)@,
                append_prepend_req.header,
                append_prepend_req.key@,
                append_prepend_req.value@,
                *old(response_header),
            ).response,
    {
        reveal(spec_append_prepend_response);
        let record = store::Record::new(append_prepend_req.value, append_prepend_req.header.cas, 0, 0);
        let is_append = self.is_append(append_prepend_req.header.opcode);
        let result = if is_append {
            self.storage.append(append_prepend_req.key, record)
        } else {
            self.storage.prepend(append_prepend_req.key, record)
        };
        match result {
            Ok(status) => {
                response_header.cas = status.cas;
                if is_append {
                    return BinaryResponse::Append(network::AppendResponse { header: *response_header });
                }
                BinaryResponse::Prepend(network::PrependResponse { header: *response_header })
            },
            Err(err) => storage_error_to_response(err, response_header),
        }
    }

    fn is_append(&self, opcode: u8) -> (r: bool)
        ensures
            r == is_append_opcode(opcode),
    {
        opcode == network::Command::Append.as_u8() || opcode == network::Command::AppendQuiet.as_u8()
    }

    fn set(&mut self, set_req: network::SetRequest, response_header: &mut ResponseHeader) -> (r: BinaryResponse)
        ensures
            store_outcome(final(self)@, spec_set_response(
                old(self)@,
                set_req.header,
                set_req.flags,
                set_req.expiration,
                set_req.key@,
                set_req.value@,
                *old(response_header),
            ).state),
            r@ == spec_set_response(
                old(self)@,
                set_req.header,
                set_req.flags,
                set_req.expiration,
                set_req.key@,
                set_req.value@,
                *old(response_header),
            ).response,
    {
        reveal(spec_set_response);
        let record = store::Record::new(
            set_req.value,
            set_req.header.cas,
            set_req.flags,
            set_req.expiration,
        );
        match self.storage.set(set_req.key, record) {
            Ok(status) => {
                response_header.cas = status.cas;
                BinaryResponse::SetValue(network::SetResponse { header: *response_header })
            },
            Err(err) => storage_error_to_response(err, response_header),
        }
    }

    fn delete(&mut self, delete_request: network::DeleteRequest, response_header: &mut ResponseHeader) -> (r: BinaryResponse)
        ensures
            store_outcome(final(self)@, spec_delete_response(
                old(self)@,
                delete_request.header,
                delete_request.key@,
                *old(response_header),
            ).state),
            r@ == spec_delete_response(
                old(self)@,
                delete_request.header,
                delete_request.key@,
                *old(response_header),
            ).response,
    {
        reveal(spec_delete_response);
        let result = self.storage.delete(
            delete_request.key,
            into_record_meta(&delete_request.header, 0),
        );
        match result {
            Ok(_record) => BinaryResponse::Delete(network::DeleteResponse { header: *response_header }),
            Err(err) => storage_error_to_response(err, response_header),
        }
    }

    fn get(&mut self, get_request: network::GetRequest, response_header: &mut ResponseHeader) -> (r: BinaryResponse)
        ensures
            store_outcome(final(self)@, spec_get_response(
                old(self)@,
                get_request.header,
                get_request.key@,
                *old(response_header),
            ).state),
            r@ == spec_get_response(
                old(self)@,
                get_request.header,
                get_request.key@,
                *old(response_header),
            ).response,
    {
        reveal(spec_get_response);
        let result = self.storage.get(&get_request.key);
        match result {
            Ok(record) => {
                let include_key = self.is_get_key_command(get_request.header.opcode);
                let mut key: Vec<u8> = Vec::new();
                if include_key {
                    key = get_request.key;
                }
                response_header.body_length = (record.value.len() as u32).wrapping_add(
                    EXTRAS_LENGTH as u32,
                ).wrapping_add(key.len() as u32);
                response_header.key_length = key.len() as u16;
                response_header.extras_length = EXTRAS_LENGTH;
                response_header.cas = record.header.cas;
                BinaryResponse::Get(
                    network::GetResponse {
                        header: *response_header,
                        flags: record.header.flags,
                        key,
                        value: record.value,
                    },
                )
            },
            Err(err) => storage_error_to_response(err, response_header),
        }
    }

    fn is_get_key_command(&self, opcode: u8) -> (r: bool)
        ensures
            r == is_get_key_opcode(opcode),
    {
        opcode == network::Command::GetKey.as_u8() || opcode == network::Command::GetKeyQuiet.as_u8()
    }

    fn flush(&mut self, flush_request: network::FlushRequest, response_header: &mut ResponseHeader) -> (r: BinaryResponse)
        ensures
            store_outcome(final(self)@, spec_flush_response(
                old(self)@,
                flush_request.expiration,
                *old(response_header),
            ).state),
            r@ == spec_flush_response(
                old(self)@,
                flush_request.expiration,
                *old(response_header),
            ).response,
    {
        reveal(spec_flush_response);
        let meta: store::Meta = store::Meta::new(0, 0, flush_request.expiration);
        self.storage.flush(meta);
        BinaryResponse::Flush(network::FlushResponse { header: *response_header })
    }

    fn increment(&mut self, inc_request: network::IncrementRequest, response_header: &mut ResponseHeader) -> (r: BinaryResponse)
        ensures
            store_outcome(final(self)@, spec_incr_decr_response(
                old(self)@,
                inc_request.header,
                inc_request.delta,
                inc_request.initial,
                inc_request.expiration,
                inc_request.key@,
                *old(response_header),
                true,
            ).state),
            r@ == spec_incr_decr_response(
                old(self)@,
                inc_request.header,
                inc_request.delta,
                inc_request.initial,
                inc_request.expiration,
                inc_request.key@,
                *old(response_header),
                true,
            ).response,
    {
        reveal(spec_incr_decr_response);
        let delta = DeltaParam { delta: inc_request.delta, value: inc_request.initial };
        let result = self.storage.increment(
            into_record_meta(&inc_request.header, inc_request.expiration),
            inc_request.key,
            delta,
        );
        match result {
            Ok(delta_result) => {
                response_header.body_length = 8;
                response_header.cas = delta_result.cas;
                BinaryResponse::Increment(
                    network::IncrementResponse { header: *response_header, value: delta_result.value },
                )
            },
            Err(err) => storage_error_to_response(err, response_header),
        }
    }

    fn decrement(&mut self, dec_request: network::IncrementRequest, response_header: &mut ResponseHeader) -> (r: BinaryResponse)
        ensures
            store_outcome(final(self)@, spec_incr_decr_response(
                old(self)@,
                dec_request.header,
                dec_request.delta,
                dec_request.initial,
                dec_request.expiration,
                dec_request.key@,
                *old(response_header),
                false,
            ).state),
            r@ == spec_incr_decr_response(
                old(self)@,
                dec_request.header,
                dec_request.delta,
                dec_request.initial,
                dec_request.expiration,
                dec_request.key@,
                *old(response_header),
                false,
            ).response,
    {
        reveal(spec_incr_decr_response);
        let delta = DeltaParam { delta: dec_request.delta, value: dec_request.initial };
        let result = self.storage.decrement(
            into_record_meta(&dec_request.header, dec_request.expiration),
            dec_request.key,
            delta,
        );
        match result {
            Ok(delta_result) => {
                response_header.body_length = 8;
                response_header.cas = delta_result.cas;
                BinaryResponse::Decrement(
                    network::DecrementResponse { header: *response_header, value: delta_result.value },
                )
            },
            Err(err) => storage_error_to_response(err, response_header),
        }
    }
}

} // verus!
