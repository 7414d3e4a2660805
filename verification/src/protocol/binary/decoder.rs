use super::bytes::{be_u16, be_u32, be_u64, read_u16, read_u32, read_u64, split_to};
use super::network;
use super::network::{spec_command, Command, RequestHeader};
use vstd::prelude::*;

verus! {

/// Client request
#[derive(Debug)]
pub enum BinaryRequest {
    Delete(network::DeleteRequest),
    DeleteQuiet(network::DeleteRequest),
    Get(network::GetRequest),
    GetQuietly(network::GetQuietRequest),
    GetKey(network::GetKeyRequest),
    GetKeyQuietly(network::GetKeyQuietRequest),
    SetValue(network::SetRequest),
    SetQuietly(network::SetRequest),
    Append(network::AppendRequest),
    AppendQuietly(network::AppendRequest),
    Prepend(network::PrependRequest),
    PrependQuietly(network::PrependRequest),
    Add(network::AddRequest),
    AddQuietly(network::AddRequest),
    Replace(network::ReplaceRequest),
    ReplaceQuietly(network::ReplaceRequest),
    Increment(network::IncrementRequest),
    IncrementQuiet(network::IncrementRequest),
    Decrement(network::DecrementRequest),
    DecrementQuiet(network::DecrementRequest),
    Noop(network::NoopRequest),
    Flush(network::FlushRequest),
    FlushQuietly(network::FlushRequest),
    Version(network::VersionRequest),
    Quit(network::QuitRequest),
    QuitQuietly(network::QuitRequest),
    ItemTooLarge(network::SetRequest),
    Stats(network::StatsRequest),
}

/// The variant of a request, without its payload.
#[derive(Debug, Clone, Copy, PartialEq, Eq, Structural)]
pub enum RequestKind {
    Delete,
    DeleteQuiet,
    Get,
    GetQuietly,
    GetKey,
    GetKeyQuietly,
    SetValue,
    SetQuietly,
    Append,
    AppendQuietly,
    Prepend,
    PrependQuietly,
    Add,
    AddQuietly,
    Replace,
    ReplaceQuietly,
    Increment,
    IncrementQuiet,
    Decrement,
    DecrementQuiet,
    Noop,
    Flush,
    FlushQuietly,
    Version,
    Quit,
    QuitQuietly,
    ItemTooLarge,
    Stats,
}

/// Mathematical model of a request: its variant, its header and every
/// payload field (fields a variant does not carry are zero or empty).
#[verifier::ext_equal]
pub struct RequestView {
    pub kind: RequestKind,
    pub header: RequestHeader,
    pub flags: u32,
    pub expiration: u32,
    pub delta: u64,
    pub initial: u64,
    pub key: Seq<u8>,
    pub value: Seq<u8>,
}

pub open spec fn request_view(
    kind: RequestKind,
    header: RequestHeader,
    flags: u32,
    expiration: u32,
    delta: u64,
    initial: u64,
    key: Seq<u8>,
    value: Seq<u8>,
) -> RequestView {
    RequestView { kind, header, flags, expiration, delta, initial, key, value }
}

pub open spec fn header_only_view(kind: RequestKind, h: RequestHeader) -> RequestView {
    request_view(kind, h, 0, 0, 0, 0, Seq::empty(), Seq::empty())
}

pub open spec fn key_request_view(kind: RequestKind, r: network::GetRequest) -> RequestView {
    request_view(kind, r.header, 0, 0, 0, 0, r.key@, Seq::empty())
}

pub open spec fn set_request_view(kind: RequestKind, r: network::SetRequest) -> RequestView {
    request_view(kind, r.header, r.flags, r.expiration, 0, 0, r.key@, r.value@)
}

pub open spec fn append_request_view(kind: RequestKind, r: network::AppendRequest) -> RequestView {
    request_view(kind, r.header, 0, 0, 0, 0, r.key@, r.value@)
}

pub open spec fn incr_request_view(kind: RequestKind, r: network::IncrementRequest) -> RequestView {
    request_view(kind, r.header, 0, r.expiration, r.delta, r.initial, r.key@, Seq::empty())
}

pub open spec fn flush_request_view(kind: RequestKind, r: network::FlushRequest) -> RequestView {
    request_view(kind, r.header, 0, r.expiration, 0, 0, Seq::empty(), Seq::empty())
}

impl View for BinaryRequest {
    type V = RequestView;

    open spec fn view(&self) -> RequestView {
        match self {
            BinaryRequest::Delete(r) => key_request_view(RequestKind::Delete, *r),
            BinaryRequest::DeleteQuiet(r) => key_request_view(RequestKind::DeleteQuiet, *r),
            BinaryRequest::Get(r) => key_request_view(RequestKind::Get, *r),
            BinaryRequest::GetQuietly(r) => key_request_view(RequestKind::GetQuietly, *r),
            BinaryRequest::GetKey(r) => key_request_view(RequestKind::GetKey, *r),
            BinaryRequest::GetKeyQuietly(r) => key_request_view(RequestKind::GetKeyQuietly, *r),
            BinaryRequest::SetValue(r) => set_request_view(RequestKind::SetValue, *r),
            BinaryRequest::SetQuietly(r) => set_request_view(RequestKind::SetQuietly, *r),
            BinaryRequest::Append(r) => append_request_view(RequestKind::Append, *r),
            BinaryRequest::AppendQuietly(r) => append_request_view(RequestKind::AppendQuietly, *r),
            BinaryRequest::Prepend(r) => append_request_view(RequestKind::Prepend, *r),
            BinaryRequest::PrependQuietly(r) => append_request_view(
                RequestKind::PrependQuietly,
                *r,
            ),
            BinaryRequest::Add(r) => set_request_view(RequestKind::Add, *r),
            BinaryRequest::AddQuietly(r) => set_request_view(RequestKind::AddQuietly, *r),
            BinaryRequest::Replace(r) => set_request_view(RequestKind::Replace, *r),
            BinaryRequest::ReplaceQuietly(r) => set_request_view(RequestKind::ReplaceQuietly, *r),
            BinaryRequest::Increment(r) => incr_request_view(RequestKind::Increment, *r),
            BinaryRequest::IncrementQuiet(r) => incr_request_view(RequestKind::IncrementQuiet, *r),
            BinaryRequest::Decrement(r) => incr_request_view(RequestKind::Decrement, *r),
            BinaryRequest::DecrementQuiet(r) => incr_request_view(RequestKind::DecrementQuiet, *r),
            BinaryRequest::Noop(r) => header_only_view(RequestKind::Noop, r.header),
            BinaryRequest::Flush(r) => flush_request_view(RequestKind::Flush, *r),
            BinaryRequest::FlushQuietly(r) => flush_request_view(RequestKind::FlushQuietly, *r),
            BinaryRequest::Version(r) => header_only_view(RequestKind::Version, r.header),
            BinaryRequest::Quit(r) => header_only_view(RequestKind::Quit, r.header),
            BinaryRequest::QuitQuietly(r) => header_only_view(RequestKind::QuitQuietly, r.header),
            BinaryRequest::ItemTooLarge(r) => set_request_view(RequestKind::ItemTooLarge, *r),
            BinaryRequest::Stats(r) => header_only_view(RequestKind::Stats, r.header),
        }
    }
}

impl BinaryRequest {
    pub fn get_header(&self) -> (r: &RequestHeader)
        ensures
            *r == self@.header,
    {
        match self {
            BinaryRequest::Delete(request)
            | BinaryRequest::DeleteQuiet(request)
            | BinaryRequest::Get(request)
            | BinaryRequest::GetKey(request)
            | BinaryRequest::GetKeyQuietly(request)
            | BinaryRequest::GetQuietly(request) => &request.header,
            BinaryRequest::SetValue(request)
            | BinaryRequest::SetQuietly(request)
            | BinaryRequest::Replace(request)
            | BinaryRequest::ReplaceQuietly(request)
            | BinaryRequest::Add(request)
            | BinaryRequest::AddQuietly(request)
            | BinaryRequest::ItemTooLarge(request) => &request.header,
            BinaryRequest::Prepend(request)
            | BinaryRequest::PrependQuietly(request)
            | BinaryRequest::Append(request)
            | BinaryRequest::AppendQuietly(request) => &request.header,
            BinaryRequest::Increment(request)
            | BinaryRequest::IncrementQuiet(request)
            | BinaryRequest::Decrement(request)
            | BinaryRequest::DecrementQuiet(request) => &request.header,
            BinaryRequest::Noop(request)
            | BinaryRequest::Version(request)
            | BinaryRequest::Stats(request) => &request.header,
            BinaryRequest::Flush(request) | BinaryRequest::FlushQuietly(request) => &request.header,
            BinaryRequest::Quit(request) | BinaryRequest::QuitQuietly(request) => &request.header,
        }
    }
}


/// Why a packet could not be decoded.
#[derive(Debug, Clone, Copy, PartialEq, Eq, Structural)]
pub enum DecodeError {
    /// wrong magic, opcode out of range or unknown data type
    InvalidHeader,
    /// key, extras or body length out of the allowed bounds
    InvalidRequest,
    /// the buffer holds fewer bytes than the request's fixed fields need
    BufferTooSmall,
    /// an opcode that names no command
    InvalidOpcode,
}

/// Classification of a decode error, after `std::io::ErrorKind`.
#[derive(Debug, Clone, Copy, PartialEq, Eq, Structural)]
pub enum ErrorKind {
    InvalidData,
    Other,
}

impl DecodeError {
    pub fn kind(&self) -> (r: ErrorKind)
        ensures
            r == ErrorKind::InvalidData,
    {
        ErrorKind::InvalidData
    }
}

/// Length of a request header on the wire.
pub const HEADER_LEN: usize = 24;

/// The header encoded in the first 24 bytes of `s`.
pub open spec fn spec_parse_header(s: Seq<u8>) -> RequestHeader {
    RequestHeader {
        magic: s[0],
        opcode: s[1],
        key_length: be_u16(s, 2),
        extras_length: s[4],
        data_type: s[5],
        vbucket_id: be_u16(s, 6),
        body_length: be_u32(s, 8),
        opaque: be_u32(s, 12),
        cas: be_u64(s, 16),
    }
}

/// Request magic, an opcode below `OpCodeMax` and raw bytes as data type.
pub open spec fn spec_header_valid(h: RequestHeader) -> bool {
    &&& h.magic == 0x80
    &&& h.opcode < 0x25
    &&& h.data_type == 0
}

/// Bounds every request body must respect.
pub open spec fn spec_request_valid(h: RequestHeader, key_required: bool) -> bool {
    &&& h.extras_length <= 20
    &&& h.key_length <= 250
    &&& (key_required ==> h.key_length != 0)
    &&& h.body_length >= h.key_length + h.extras_length
}

/// Length of the value: what the body holds besides key and extras.
pub open spec fn spec_value_len(h: RequestHeader) -> int {
    h.body_length - (h.key_length + h.extras_length)
}

/// What parsing a request body leaves in the buffer and what it yields.
pub struct BodyParse {
    pub rest: Seq<u8>,
    pub result: Result<Option<RequestView>, DecodeError>,
}

pub open spec fn body_error(src: Seq<u8>, e: DecodeError) -> BodyParse {
    BodyParse { rest: src, result: Err(e) }
}

pub open spec fn body_ok(rest: Seq<u8>, r: RequestView) -> BodyParse {
    BodyParse { rest, result: Ok(Some(r)) }
}

pub open spec fn get_kind(opcode: u8) -> RequestKind {
    if opcode == 0x00 {
        RequestKind::Get
    } else if opcode == 0x09 {
        RequestKind::GetQuietly
    } else if opcode == 0x0c {
        RequestKind::GetKey
    } else {
        RequestKind::GetKeyQuietly
    }
}

pub open spec fn delete_kind(opcode: u8) -> RequestKind {
    if opcode == 0x04 {
        RequestKind::Delete
    } else {
        RequestKind::DeleteQuiet
    }
}

pub open spec fn header_only_kind(opcode: u8) -> RequestKind {
    if opcode == 0x0a {
        RequestKind::Noop
    } else if opcode == 0x07 {
        RequestKind::Quit
    } else if opcode == 0x17 {
        RequestKind::QuitQuietly
    } else {
        RequestKind::Version
    }
}

pub open spec fn flush_kind(opcode: u8) -> RequestKind {
    if opcode == 0x08 {
        RequestKind::Flush
    } else {
        RequestKind::FlushQuietly
    }
}

pub open spec fn append_kind(opcode: u8) -> RequestKind {
    if opcode == 0x0e {
        RequestKind::Append
    } else if opcode == 0x19 {
        RequestKind::AppendQuietly
    } else if opcode == 0x0f {
        RequestKind::Prepend
    } else {
        RequestKind::PrependQuietly
    }
}

pub open spec fn incr_kind(opcode: u8) -> RequestKind {
    if opcode == 0x05 {
        RequestKind::Increment
    } else if opcode == 0x15 {
        RequestKind::IncrementQuiet
    } else if opcode == 0x06 {
        RequestKind::Decrement
    } else {
        RequestKind::DecrementQuiet
    }
}

pub open spec fn set_kind(opcode: u8) -> RequestKind {
    if opcode == 0x01 {
        RequestKind::SetValue
    } else if opcode == 0x11 {
        RequestKind::SetQuietly
    } else if opcode == 0x02 {
        RequestKind::Add
    } else if opcode == 0x12 {
        RequestKind::AddQuietly
    } else if opcode == 0x03 {
        RequestKind::Replace
    } else {
        RequestKind::ReplaceQuietly
    }
}

/// Get and delete requests: the key is the first `key_length` bytes.
pub open spec fn spec_parse_key_only(h: RequestHeader, src: Seq<u8>, kind: RequestKind) -> BodyParse {
    if !spec_request_valid(h, true) {
        body_error(src, DecodeError::InvalidRequest)
    } else {
        let k = h.key_length as int;
        body_ok(
            src.skip(k),
            request_view(kind, h, 0, 0, 0, 0, src.take(k), Seq::empty()),
        )
    }
}

pub open spec fn spec_parse_header_only(h: RequestHeader, src: Seq<u8>) -> BodyParse {
    if !spec_request_valid(h, false) {
        body_error(src, DecodeError::InvalidRequest)
    } else {
        body_ok(src, header_only_view(header_only_kind(h.opcode), h))
    }
}

pub open spec fn spec_parse_flush(h: RequestHeader, src: Seq<u8>) -> BodyParse {
    if !spec_request_valid(h, false) {
        body_error(src, DecodeError::InvalidRequest)
    } else if h.extras_length == 4 {
        body_ok(
            src.skip(4),
            request_view(flush_kind(h.opcode), h, 0, be_u32(src, 0), 0, 0, Seq::empty(), Seq::empty()),
        )
    } else {
        body_ok(
            src,
            request_view(flush_kind(h.opcode), h, 0, 0, 0, 0, Seq::empty(), Seq::empty()),
        )
    }
}

pub open spec fn spec_parse_append(h: RequestHeader, src: Seq<u8>) -> BodyParse {
    if !spec_request_valid(h, true) {
        body_error(src, DecodeError::InvalidRequest)
    } else {
        let k = h.key_length as int;
        let vl = spec_value_len(h);
        body_ok(
            src.skip(k + vl),
            request_view(append_kind(h.opcode), h, 0, 0, 0, 0, src.take(k), src.subrange(k, k + vl)),
        )
    }
}

pub open spec fn spec_parse_incr(h: RequestHeader, src: Seq<u8>) -> BodyParse {
    if !spec_request_valid(h, true) {
        body_error(src, DecodeError::InvalidRequest)
    } else if src.len() < 20 + h.key_length {
        body_error(src, DecodeError::BufferTooSmall)
    } else {
        let k = h.key_length as int;
        body_ok(
            src.skip(20 + k),
            request_view(
                incr_kind(h.opcode),
                h,
                0,
                be_u32(src, 16),
                be_u64(src, 0),
                be_u64(src, 8),
                src.subrange(20, 20 + k),
                Seq::empty(),
            ),
        )
    }
}

pub open spec fn spec_parse_set(h: RequestHeader, src: Seq<u8>) -> BodyParse {
    if !spec_request_valid(h, true) {
        body_error(src, DecodeError::InvalidRequest)
    } else if src.len() < 8 + h.key_length + spec_value_len(h) {
        body_error(src, DecodeError::BufferTooSmall)
    } else {
        let k = h.key_length as int;
        let vl = spec_value_len(h);
        body_ok(
            src.skip(8 + k + vl),
            request_view(
                set_kind(h.opcode),
                h,
                be_u32(src, 0),
                be_u32(src, 4),
                0,
                0,
                src.subrange(8, 8 + k),
                src.subrange(8 + k, 8 + k + vl),
            ),
        )
    }
}

/// Parsing of a body whose header is known, by the header's opcode.
pub open spec fn spec_parse_body(h: RequestHeader, src: Seq<u8>) -> BodyParse {
    match spec_command(h.opcode) {
        Some(Command::Get) | Some(Command::GetQuiet) | Some(Command::GetKeyQuiet) | Some(
            Command::GetKey,
        ) => spec_parse_key_only(h, src, get_kind(h.opcode)),
        Some(Command::Append) | Some(Command::AppendQuiet) | Some(Command::Prepend) | Some(
            Command::PrependQuiet,
        ) => spec_parse_append(h, src),
        Some(Command::SetValue) | Some(Command::SetQuiet) | Some(Command::Add) | Some(
            Command::Replace,
        ) | Some(Command::AddQuiet) | Some(Command::ReplaceQuiet) => spec_parse_set(h, src),
        Some(Command::Delete) | Some(Command::DeleteQuiet) => spec_parse_key_only(
            h,
            src,
            delete_kind(h.opcode),
        ),
        Some(Command::Increment) | Some(Command::Decrement) | Some(Command::IncrementQuiet) | Some(
            Command::DecrementQuiet,
        ) => spec_parse_incr(h, src),
        Some(Command::Noop) | Some(Command::Quit) | Some(Command::QuitQuiet) | Some(Command::Stat)
        | Some(Command::Version) => spec_parse_header_only(h, src),
        Some(Command::Flush) | Some(Command::FlushQuiet) => spec_parse_flush(h, src),
        Some(Command::Touch) | Some(Command::GetAndTouch) | Some(Command::GetAndTouchQuiet) | Some(
            Command::GetAndTouchKey,
        ) | Some(Command::GetAndTouchKeyQuiet) | Some(Command::SaslAuth) | Some(
            Command::SaslListMechs,
        ) | Some(Command::SaslStep) => BodyParse { rest: src, result: Ok(None) },
        Some(Command::OpCodeMax) | None => body_error(src, DecodeError::InvalidOpcode),
    }
}

/// The request that stands for a body larger than the item size limit.
pub open spec fn too_large_view(h: RequestHeader) -> RequestView {
    header_only_view(RequestKind::ItemTooLarge, h)
}

/// Mathematical model of the decoder's state.
pub struct DecoderView {
    pub header_parsed: bool,
    pub header: RequestHeader,
    pub item_size_limit: u32,
}

pub open spec fn reset_view(d: DecoderView) -> DecoderView {
    DecoderView {
        header_parsed: false,
        header: network::spec_empty_request_header(),
        item_size_limit: d.item_size_limit,
    }
}

pub open spec fn parsed_view(d: DecoderView, h: RequestHeader) -> DecoderView {
    DecoderView { header_parsed: true, header: h, item_size_limit: d.item_size_limit }
}

/// One step of decoding: the decoder's next state, what is left of the
/// buffer, and the outcome.
pub struct DecodeStep {
    pub state: DecoderView,
    pub rest: Seq<u8>,
    pub result: Result<Option<RequestView>, DecodeError>,
}

/// Decoding of the bytes `src` by a decoder in state `d`.
///
/// A header is read once 24 bytes are there; a body once `body_length`
/// bytes follow it. A body above the item size limit is reported as
/// `ItemTooLarge` without being read.
pub open spec fn spec_decode(d: DecoderView, src: Seq<u8>) -> DecodeStep {
    if !d.header_parsed && src.len() < 24 {
        DecodeStep { state: d, rest: src, result: Ok(None) }
    } else {
        let h = if d.header_parsed {
            d.header
        } else {
            spec_parse_header(src)
        };
        let s1 = if d.header_parsed {
            src
        } else {
            src.skip(24)
        };
        if !d.header_parsed && !spec_header_valid(h) {
            DecodeStep { state: parsed_view(d, h), rest: s1, result: Err(DecodeError::InvalidHeader) }
        } else if h.body_length > d.item_size_limit {
            DecodeStep { state: reset_view(d), rest: s1, result: Ok(Some(too_large_view(h))) }
        } else if h.body_length > s1.len() {
            DecodeStep { state: parsed_view(d, h), rest: s1, result: Ok(None) }
        } else {
            let b = spec_parse_body(h, s1);
            DecodeStep { state: reset_view(d), rest: b.rest, result: b.result }
        }
    }
}

/// The model of a decode outcome.
pub open spec fn result_view(r: Result<Option<BinaryRequest>, DecodeError>) -> Result<
    Option<RequestView>,
    DecodeError,
> {
    match r {
        Ok(Some(req)) => Ok(Some(req@)),
        Ok(None) => Ok(None),
        Err(e) => Err(e),
    }
}


#[derive(PartialEq, Eq, Debug, Clone, Copy, Structural)]
enum RequestParserState {
    Empty,
    HeaderParsed,
}

/// Incremental decoder of request packets: it keeps a parsed header
/// while it waits for the rest of the body.
pub struct MemcacheBinaryDecoder {
    header: RequestHeader,
    state: RequestParserState,
    item_size_limit: u32,
}

impl View for MemcacheBinaryDecoder {
    type V = DecoderView;

    closed spec fn view(&self) -> DecoderView {
        DecoderView {
            header_parsed: self.state == RequestParserState::HeaderParsed,
            header: self.header,
            item_size_limit: self.item_size_limit,
        }
    }
}

impl MemcacheBinaryDecoder {
    pub fn new(item_size_limit: u32) -> (r: MemcacheBinaryDecoder)
        ensures
            r@ == (DecoderView {
                header_parsed: false,
                header: network::spec_empty_request_header(),
                item_size_limit,
            }),
    {
        MemcacheBinaryDecoder {
            header: RequestHeader::empty(),
            state: RequestParserState::Empty,
            item_size_limit,
        }
    }

    fn init_parser(&mut self)
        ensures
            final(self)@ == reset_view(old(self)@),
    {
        self.header = RequestHeader::empty();
        self.state = RequestParserState::Empty;
    }

    fn parse_header(&mut self, src: &mut Vec<u8>) -> (res: Result<(), DecodeError>)
        ensures
            old(src)@.len() < 24 ==> {
                &&& res == Err::<(), DecodeError>(DecodeError::BufferTooSmall)
                &&& final(self)@ == old(self)@
                &&& final(src)@ == old(src)@
            },
            old(src)@.len() >= 24 ==> {
                &&& final(self)@ == parsed_view(old(self)@, spec_parse_header(old(src)@))
                &&& final(src)@ == old(src)@.skip(24)
                &&& (res is Ok <==> spec_header_valid(spec_parse_header(old(src)@)))
                &&& (res is Err ==> res == Err::<(), DecodeError>(DecodeError::InvalidHeader))
            },
    {
        if src.len() < HEADER_LEN {
            return Err(DecodeError::BufferTooSmall);
        }
        let header = RequestHeader {
            magic: src[0],
            opcode: src[1],
            key_length: read_u16(src, 2),
            extras_length: src[4],
            data_type: src[5],
            vbucket_id: read_u16(src, 6),
            body_length: read_u32(src, 8),
            opaque: read_u32(src, 12),
            cas: read_u64(src, 16),
        };
        let _ = split_to(src, HEADER_LEN);
        self.header = header;
        self.state = RequestParserState::HeaderParsed;
        if !self.header_valid() {
            return Err(DecodeError::InvalidHeader);
        }
        Ok(())
    }

    fn header_valid(&self) -> (r: bool)
        ensures
            r == spec_header_valid(self.header),
    {
        if self.header.magic != network::Magic::Request.as_u8() {
            return false;
        }
        if self.header.opcode >= Command::OpCodeMax.as_u8() {
            return false;
        }
        if self.header.data_type != network::DataTypes::RawBytes.as_u8() {
            return false;
        }
        true
    }

    fn parse_request(&mut self, src: &mut Vec<u8>) -> (res: Result<Option<BinaryRequest>, DecodeError>)
        requires
            old(self).state == RequestParserState::HeaderParsed,
            old(self).header.body_length <= old(self).item_size_limit,
            old(self).header.body_length <= old(src)@.len(),
        ensures
            final(self)@ == reset_view(old(self)@),
            final(src)@ == spec_parse_body(old(self).header, old(src)@).rest,
            result_view(res) == spec_parse_body(old(self).header, old(src)@).result,
    {
        let result = match Command::from_u8(self.header.opcode) {
            Some(Command::Get)
            | Some(Command::GetQuiet)
            | Some(Command::GetKeyQuiet)
            | Some(Command::GetKey) => self.parse_get_request(src),
            Some(Command::Append)
            | Some(Command::AppendQuiet)
            | Some(Command::Prepend)
            | Some(Command::PrependQuiet) => self.parse_append_prepend_request(src),
            Some(Command::SetValue)
            | Some(Command::SetQuiet)
            | Some(Command::Add)
            | Some(Command::Replace)
            | Some(Command::AddQuiet)
            | Some(Command::ReplaceQuiet) => self.parse_set_request(src),
            Some(Command::Delete) | Some(Command::DeleteQuiet) => self.parse_delete_request(src),
            Some(Command::Increment)
            | Some(Command::Decrement)
            | Some(Command::IncrementQuiet)
            | Some(Command::DecrementQuiet) => self.parse_inc_dec_request(src),
            Some(Command::Noop)
            | Some(Command::Quit)
            | Some(Command::QuitQuiet)
            | Some(Command::Stat)
            | Some(Command::Version) => self.parse_header_only_request(src),
            Some(Command::Flush) | Some(Command::FlushQuiet) => self.parse_flush_request(src),
            Some(Command::Touch)
            | Some(Command::GetAndTouch)
            | Some(Command::GetAndTouchQuiet)
            | Some(Command::GetAndTouchKey)
            | Some(Command::GetAndTouchKeyQuiet)
            | Some(Command::SaslAuth)
            | Some(Command::SaslListMechs)
            | Some(Command::SaslStep) => Ok(None),
            Some(Command::OpCodeMax) => Err(DecodeError::InvalidOpcode),
            None => Err(DecodeError::InvalidOpcode),
        };
        self.init_parser();
        result
    }

    fn get_value_len(&self) -> (r: usize)
        requires
            self.header.extras_length <= 20,
            self.header.key_length <= 250,
            self.header.body_length >= self.header.key_length + self.header.extras_length,
        ensures
            r == spec_value_len(self.header),
    {
        (self.header.body_length as usize) - ((self.header.key_length
            + self.header.extras_length as u16) as usize)
    }

    fn request_valid(&self, key_required: bool) -> (r: bool)
        ensures
            r == spec_request_valid(self.header, key_required),
    {
        if self.header.extras_length > 20 {
            return false;
        }
        if self.header.key_length > 250 {
            return false;
        }
        if key_required && self.header.key_length == 0 {
            return false;
        }
        if self.header.body_length < (self.header.key_length
            + self.header.extras_length as u16) as u32 {
            return false;
        }
        true
    }

    fn parse_get_request(&self, src: &mut Vec<u8>) -> (res: Result<Option<BinaryRequest>, DecodeError>)
        requires
            self.header.body_length <= old(src)@.len(),
        ensures
            final(src)@ == spec_parse_key_only(self.header, old(src)@, get_kind(self.header.opcode)).rest,
            result_view(res) == spec_parse_key_only(
                self.header,
                old(src)@,
                get_kind(self.header.opcode),
            ).result,
    {
        if !self.request_valid(true) {
            return Err(DecodeError::InvalidRequest);
        }
        let size = self.header.key_length as usize;
        let key = split_to(src, size);
        if self.header.opcode == Command::Get.as_u8() {
            Ok(Some(BinaryRequest::Get(network::GetRequest { header: self.header, key })))
        } else if self.header.opcode == Command::GetQuiet.as_u8() {
            Ok(Some(BinaryRequest::GetQuietly(network::GetQuietRequest { header: self.header, key })))
        } else if self.header.opcode == Command::GetKey.as_u8() {
            Ok(Some(BinaryRequest::GetKey(network::GetKeyRequest { header: self.header, key })))
        } else {
            Ok(
                Some(
                    BinaryRequest::GetKeyQuietly(
                        network::GetKeyQuietRequest { header: self.header, key },
                    ),
                ),
            )
        }
    }

    fn parse_delete_request(&self, src: &mut Vec<u8>) -> (res: Result<Option<BinaryRequest>, DecodeError>)
        requires
            self.header.body_length <= old(src)@.len(),
        ensures
            final(src)@ == spec_parse_key_only(self.header, old(src)@, delete_kind(self.header.opcode)).rest,
            result_view(res) == spec_parse_key_only(
                self.header,
                old(src)@,
                delete_kind(self.header.opcode),
            ).result,
    {
        if !self.request_valid(true) {
            return Err(DecodeError::InvalidRequest);
        }
        let size = self.header.key_length as usize;
        let key = split_to(src, size);
        if self.header.opcode == Command::Delete.as_u8() {
            Ok(Some(BinaryRequest::Delete(network::DeleteRequest { header: self.header, key })))
        } else {
            Ok(Some(BinaryRequest::DeleteQuiet(network::DeleteRequest { header: self.header, key })))
        }
    }

    fn parse_header_only_request(&self, src: &mut Vec<u8>) -> (res: Result<
        Option<BinaryRequest>,
        DecodeError,
    >)
        ensures
            final(src)@ == spec_parse_header_only(self.header, old(src)@).rest,
            result_view(res) == spec_parse_header_only(self.header, old(src)@).result,
    {
        if !self.request_valid(false) {
            return Err(DecodeError::InvalidRequest);
        }
        if self.header.opcode == Command::Noop.as_u8() {
            Ok(Some(BinaryRequest::Noop(network::NoopRequest { header: self.header })))
        } else if self.header.opcode == Command::Quit.as_u8() {
            Ok(Some(BinaryRequest::Quit(network::QuitRequest { header: self.header })))
        } else if self.header.opcode == Command::QuitQuiet.as_u8() {
            Ok(Some(BinaryRequest::QuitQuietly(network::QuitRequest { header: self.header })))
        } else {
            Ok(Some(BinaryRequest::Version(network::VersionRequest { header: self.header })))
        }
    }

    fn parse_flush_request(&self, src: &mut Vec<u8>) -> (res: Result<Option<BinaryRequest>, DecodeError>)
        requires
            self.header.body_length <= old(src)@.len(),
        ensures
            final(src)@ == spec_parse_flush(self.header, old(src)@).rest,
            result_view(res) == spec_parse_flush(self.header, old(src)@).result,
    {
        if !self.request_valid(false) {
            return Err(DecodeError::InvalidRequest);
        }
        let mut expiration: u32 = 0;
        if self.header.extras_length == 4 {
            expiration = read_u32(src, 0);
            let _ = split_to(src, 4);
        }
        if self.header.opcode == Command::Flush.as_u8() {
            Ok(Some(BinaryRequest::Flush(network::FlushRequest { header: self.header, expiration })))
        } else {
            Ok(
                Some(
                    BinaryRequest::FlushQuietly(
                        network::FlushRequest { header: self.header, expiration },
                    ),
                ),
            )
        }
    }

    fn parse_append_prepend_request(&self, src: &mut Vec<u8>) -> (res: Result<
        Option<BinaryRequest>,
        DecodeError,
    >)
        requires
            self.header.body_length <= old(src)@.len(),
        ensures
            final(src)@ == spec_parse_append(self.header, old(src)@).rest,
            result_view(res) == spec_parse_append(self.header, old(src)@).result,
    {
        if !self.request_valid(true) {
            return Err(DecodeError::InvalidRequest);
        }
        let value_len = self.get_value_len();
        let key = split_to(src, self.header.key_length as usize);
        let value = split_to(src, value_len);
        let append_request = network::AppendRequest { header: self.header, key, value };
        proof {
            let k = self.header.key_length as int;
            assert(old(src)@.skip(k).take(value_len as int) =~= old(src)@.subrange(
                k,
                k + value_len,
            ));
            assert(old(src)@.skip(k).skip(value_len as int) =~= old(src)@.skip(k + value_len));
        }
        if self.header.opcode == Command::Append.as_u8() {
            Ok(Some(BinaryRequest::Append(append_request)))
        } else if self.header.opcode == Command::AppendQuiet.as_u8() {
            Ok(Some(BinaryRequest::AppendQuietly(append_request)))
        } else if self.header.opcode == Command::Prepend.as_u8() {
            Ok(Some(BinaryRequest::Prepend(append_request)))
        } else {
            Ok(Some(BinaryRequest::PrependQuietly(append_request)))
        }
    }

    fn parse_inc_dec_request(&self, src: &mut Vec<u8>) -> (res: Result<
        Option<BinaryRequest>,
        DecodeError,
    >)
        ensures
            final(src)@ == spec_parse_incr(self.header, old(src)@).rest,
            result_view(res) == spec_parse_incr(self.header, old(src)@).result,
    {
        if !self.request_valid(true) {
            return Err(DecodeError::InvalidRequest);
        }
        let required_len = 2 * 8 + 4 + self.header.key_length as usize;
        if src.len() < required_len {
            return Err(DecodeError::BufferTooSmall);
        }
        let delta = read_u64(src, 0);
        let initial = read_u64(src, 8);
        let expiration = read_u32(src, 16);
        let _ = split_to(src, 20);
        let key = split_to(src, self.header.key_length as usize);
        proof {
            let k = self.header.key_length as int;
            assert(old(src)@.skip(20).take(k) =~= old(src)@.subrange(20, 20 + k));
            assert(old(src)@.skip(20).skip(k) =~= old(src)@.skip(20 + k));
        }
        let request = network::IncrementRequest { header: self.header, delta, initial, expiration, key };
        if self.header.opcode == Command::Increment.as_u8() {
            Ok(Some(BinaryRequest::Increment(request)))
        } else if self.header.opcode == Command::IncrementQuiet.as_u8() {
            Ok(Some(BinaryRequest::IncrementQuiet(request)))
        } else if self.header.opcode == Command::Decrement.as_u8() {
            Ok(Some(BinaryRequest::Decrement(request)))
        } else {
            Ok(Some(BinaryRequest::DecrementQuiet(request)))
        }
    }

    fn parse_item_too_large(&self) -> (res: Result<Option<BinaryRequest>, DecodeError>)
        ensures
            result_view(res) == Ok::<Option<RequestView>, DecodeError>(
                Some(too_large_view(self.header)),
            ),
    {
        let set_request = network::SetRequest {
            header: self.header,
            flags: 0,
            expiration: 0,
            key: Vec::new(),
            value: Vec::new(),
        };
        Ok(Some(BinaryRequest::ItemTooLarge(set_request)))
    }

    fn parse_set_request(&self, src: &mut Vec<u8>) -> (res: Result<Option<BinaryRequest>, DecodeError>)
        requires
            self.header.body_length <= old(src)@.len(),
        ensures
            final(src)@ == spec_parse_set(self.header, old(src)@).rest,
            result_view(res) == spec_parse_set(self.header, old(src)@).result,
    {
        if !self.request_valid(true) {
            return Err(DecodeError::InvalidRequest);
        }
        let value_len = self.get_value_len();
        let key_len = self.header.key_length as usize;
        let payload_len = key_len + value_len;
        if src.len() < 8 || src.len() - 8 < payload_len {
            return Err(DecodeError::BufferTooSmall);
        }
        let flags = read_u32(src, 0);
        let expiration = read_u32(src, 4);
        let _ = split_to(src, 8);
        let key = split_to(src, key_len);
        let value = split_to(src, value_len);
        proof {
            let k = key_len as int;
            let vl = value_len as int;
            assert(old(src)@.skip(8).take(k) =~= old(src)@.subrange(8, 8 + k));
            assert(old(src)@.skip(8).skip(k).take(vl) =~= old(src)@.subrange(8 + k, 8 + k + vl));
            assert(old(src)@.skip(8).skip(k).skip(vl) =~= old(src)@.skip(8 + k + vl));
        }
        let set_request = network::SetRequest { header: self.header, flags, expiration, key, value };
        if self.header.opcode == Command::SetValue.as_u8() {
            Ok(Some(BinaryRequest::SetValue(set_request)))
        } else if self.header.opcode == Command::SetQuiet.as_u8() {
            Ok(Some(BinaryRequest::SetQuietly(set_request)))
        } else if self.header.opcode == Command::Add.as_u8() {
            Ok(Some(BinaryRequest::Add(set_request)))
        } else if self.header.opcode == Command::AddQuiet.as_u8() {
            Ok(Some(BinaryRequest::AddQuietly(set_request)))
        } else if self.header.opcode == Command::Replace.as_u8() {
            Ok(Some(BinaryRequest::Replace(set_request)))
        } else {
            Ok(Some(BinaryRequest::ReplaceQuietly(set_request)))
        }
    }

    /// Decodes the next request from `src`, consuming its bytes.
    ///
    /// Returns `Ok(None)` while `src` holds too few bytes for the header or
    /// for the body that the header announces.
    pub fn decode(&mut self, src: &mut Vec<u8>) -> (res: Result<Option<BinaryRequest>, DecodeError>)
        ensures
            final(self)@ == spec_decode(old(self)@, old(src)@).state,
            final(src)@ == spec_decode(old(self)@, old(src)@).rest,
            result_view(res) == spec_decode(old(self)@, old(src)@).result,
    {
        if self.state == RequestParserState::Empty {
            if src.len() < HEADER_LEN {
                return Ok(None);
            }
            let result = self.parse_header(src);
            match result {
                Err(error) => return Err(error),
                Ok(()) => {},
            }
        }
        if self.header.body_length > self.item_size_limit {
            let result = self.parse_item_too_large();
            self.init_parser();
            return result;
        }
        if (self.header.body_length as usize) > src.len() {
            return Ok(None);
        }
        self.parse_request(src)
    }
}

} // verus!
