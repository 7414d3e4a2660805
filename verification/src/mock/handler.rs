use crate::memcache::builder::{initial_room, EngineStoreConfig, MemcacheStoreBuilder, MemcacheStoreConfig};
use crate::memcache::cli::parser::{DashMapConfig, MokaConfig, DEFAULT_MAX_CAPACITY};
use crate::memcache::store::MemcStore;
use crate::memcache_server::handler::{option_view, spec_handle, BinaryHandler};
use crate::memory_store::store_spec::{store_outcome, StoreView};
use crate::memory_store::StoreEngine;
use crate::memcache_server::laws::lemma_handle_keeps_clock;
use crate::mock::mock_server::{MockSystemTimer, SetableTimer, Timer};
use crate::cache::cache::copy_bytes;
use crate::protocol::binary::decoder::{request_view, BinaryRequest, RequestKind};
use crate::protocol::binary::encoder::BinaryResponse;
use crate::protocol::binary::network::{
    spec_opcode, Command, GetRequest, Magic, RequestHeader, ResponseHeader, SetRequest,
};
use vstd::prelude::*;

verus! {

/// Opaque value of the requests built by `create_header`.
pub const OPAQUE_VALUE: u32 = 0xABAD_CAFE;

/// A handler together with the clock its store reads: the store's clock
/// always shows the timer's time, and the timer is set through the wrapper.
pub struct BinaryHandlerWithTimer {
    handler: BinaryHandler,
    timer: MockSystemTimer,
}

impl View for BinaryHandlerWithTimer {
    type V = StoreView;

    closed spec fn view(&self) -> StoreView {
        self.handler@
    }
}

impl BinaryHandlerWithTimer {
    /// The store's clock shows the timer's time.
    pub closed spec fn wf(&self) -> bool {
        self.handler@.now == self.timer.current_time
    }

    /// The time the timer shows.
    pub closed spec fn spec_time(&self) -> u32 {
        self.timer.current_time
    }

    /// Joins a handler and a timer: from now on the handler's store reads
    /// the timer's time.
    pub fn new(handler: BinaryHandler, timer: MockSystemTimer) -> (r: BinaryHandlerWithTimer)
        ensures
            r.wf(),
            r@ == (StoreView { now: timer.current_time, ..handler@ }),
            r.spec_time() == timer.current_time,
    {
        let mut handler = handler;
        handler.set_timestamp(timer.timestamp());
        BinaryHandlerWithTimer { handler, timer }
    }

    /// Handles a request with the wrapped handler.
    pub fn handle_request(&mut self, req: BinaryRequest) -> (r: Option<BinaryResponse>)
        requires
            old(self).wf(),
        ensures
            final(self).wf(),
            final(self).spec_time() == old(self).spec_time(),
            store_outcome(final(self)@, spec_handle(old(self)@, req@).state),
            option_view(r) == spec_handle(old(self)@, req@).response,
    {
        proof {
            lemma_handle_keeps_clock(self@, req@);
        }
        self.handler.handle_request(req)
    }
}

impl Timer for BinaryHandlerWithTimer {
    fn timestamp(&self) -> (r: u32)
        ensures
            r == self.spec_time(),
    {
        self.timer.timestamp()
    }
}

impl SetableTimer for BinaryHandlerWithTimer {
    /// Sets the timer, and with it the store's clock.
    fn set(&mut self, time: u32)
        ensures
            final(self).wf(),
            final(self).spec_time() == time,
            final(self)@ == (StoreView { now: time, ..old(self)@ }),
    {
        self.timer.set(time);
        self.handler.set_timestamp(time);
    }

    /// Advances the timer, and with it the store's clock; it wraps around.
    fn add_seconds(&mut self, seconds: u32)
        ensures
            final(self).wf(),
            final(self).spec_time() == old(self).spec_time().wrapping_add(seconds),
            final(self)@ == (StoreView { now: old(self).spec_time().wrapping_add(seconds), ..old(self)@ }),
    {
        self.timer.add_seconds(seconds);
        let now = self.timer.timestamp();
        self.handler.set_timestamp(now);
    }
}

fn create_handler(engine: StoreEngine, config: EngineStoreConfig) -> (r: BinaryHandlerWithTimer)
    requires
        crate::memcache::builder::config_matches_engine(engine, config),
    ensures
        r.wf(),
        r@ == (StoreView { contents: Map::empty(), now: 0, next_cas: 1, engine, room: initial_room(config) }),
        r.spec_time() == 0,
{
    let config = MemcacheStoreConfig::new(engine, config);
    let store = MemcacheStoreBuilder::from_config(config, 1);
    BinaryHandlerWithTimer::new(BinaryHandler::new(MemcStore::new(store)), MockSystemTimer::new())
}

/// A handler on an empty DashMap store, with its clock at 0.
pub fn create_dash_map_handler() -> (r: BinaryHandlerWithTimer)
    ensures
        r@ == (StoreView {
            contents: Map::empty(),
            now: 0,
            next_cas: 1,
            engine: StoreEngine::DashMap,
            room: 0,
        }),
        r.wf(),
        r.spec_time() == 0,
{
    create_handler(StoreEngine::DashMap, EngineStoreConfig::DashMap(DashMapConfig::default()))
}

/// A handler on an empty Moka store, with its clock at 0.
pub fn create_moka_handler() -> (r: BinaryHandlerWithTimer)
    ensures
        r@ == (StoreView {
            contents: Map::empty(),
            now: 0,
            next_cas: 1,
            engine: StoreEngine::Moka,
            room: DEFAULT_MAX_CAPACITY as int,
        }),
        r.wf(),
        r.spec_time() == 0,
{
    create_handler(StoreEngine::Moka, EngineStoreConfig::Moka(MokaConfig::default()))
}

/// A request header for `opcode` and `key`: request magic, the key's length
/// (as 16 bits), the test opaque value and every other field zero.
pub fn create_header(opcode: Command, key: &[u8]) -> (r: RequestHeader)
    ensures
        r == (RequestHeader {
            magic: 0x80,
            opcode: spec_opcode(opcode),
            key_length: key@.len() as u16,
            extras_length: 0,
            data_type: 0,
            vbucket_id: 0,
            body_length: 0,
            opaque: OPAQUE_VALUE,
            cas: 0,
        }),
{
    RequestHeader {
        magic: Magic::Request.as_u8(),
        opcode: opcode.as_u8(),
        key_length: key.len() as u16,
        extras_length: 0,
        data_type: 0,
        vbucket_id: 0,
        body_length: 0,
        opaque: OPAQUE_VALUE,
        cas: 0,
    }
}

/// A get request for `key` with the given header.
pub fn create_get_request(header: RequestHeader, key: Vec<u8>) -> (r: BinaryRequest)
    ensures
        r@ == request_view(RequestKind::Get, header, 0, 0, 0, 0, key@, Seq::empty()),
{
    BinaryRequest::Get(GetRequest { header, key })
}

/// A get request for `key` with the header `create_header` makes.
pub fn create_get_request_by_key(key: &Vec<u8>) -> (r: BinaryRequest)
    ensures
        r@.kind == RequestKind::Get,
        r@.header.opcode == spec_opcode(Command::Get),
        r@.header.opaque == OPAQUE_VALUE,
        r@.header.key_length == key@.len() as u16,
        r@.key == key@,
{
    let header = create_header(Command::Get, key.as_slice());
    BinaryRequest::Get(GetRequest { header, key: copy_bytes(key) })
}

/// Flags of the records stored by `create_set_request`.
pub const SET_REQUEST_FLAGS: u32 = 0xDEAD_BEEF;

/// A set request storing `value` under `key` without expiration, with the
/// header `create_header` makes.
pub fn create_set_request(key: Vec<u8>, value: Vec<u8>) -> (r: BinaryRequest)
    ensures
        r@.kind == RequestKind::SetValue,
        r@.header.opcode == spec_opcode(Command::SetValue),
        r@.header.opaque == OPAQUE_VALUE,
        r@.header.cas == 0,
        r@.flags == SET_REQUEST_FLAGS,
        r@.expiration == 0,
        r@.key == key@,
        r@.value == value@,
{
    let header = create_header(Command::SetValue, key.as_slice());
    BinaryRequest::SetValue(SetRequest { header, key, flags: SET_REQUEST_FLAGS, expiration: 0, value })
}

/// Checks that a response header is the one expected: response magic, the
/// given opcode, lengths, data type and status, and the test opaque value.
/// A header that differs is not admitted.
pub fn check_header(
    response: &ResponseHeader,
    opcode: Command,
    key_length: u16,
    extras_length: u8,
    data_type: u8,
    status: u16,
    body_length: u32,
)
    requires
        response.magic == 0x81,
        response.opcode == spec_opcode(opcode),
        response.key_length == key_length,
        response.extras_length == extras_length,
        response.data_type == data_type,
        response.status == status,
        response.body_length == body_length,
        response.opaque == OPAQUE_VALUE,
{
}

} // verus!
