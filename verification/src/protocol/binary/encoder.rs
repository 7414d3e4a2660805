use super::bytes::{put_slice, put_u16, put_u32, put_u64, put_u8, u16_be_bytes, u32_be_bytes, u64_be_bytes};
use super::network;
use super::network::ResponseHeader;
use crate::cache::error::{spec_message, spec_status, CacheError};
use vstd::prelude::*;

verus! {

/// Server response
#[derive(Debug)]
pub enum BinaryResponse {
    Error(network::ErrorResponse),
    Get(network::GetResponse),
    GetQuietly(network::GetQuietlyResponse),
    GetKey(network::GetKeyResponse),
    GetKeyQuietly(network::GetKeyQuietlyResponse),
    SetValue(network::SetResponse),
    Add(network::AddResponse),
    Replace(network::ReplaceResponse),
    Append(network::AppendResponse),
    Prepend(network::PrependResponse),
    Version(network::VersionResponse),
    Noop(network::NoopResponse),
    Delete(network::DeleteResponse),
    Flush(network::FlushResponse),
    Increment(network::IncrementResponse),
    Decrement(network::DecrementResponse),
    Quit(network::QuitResponse),
    Stats(network::StatsResponse),
}

/// The variant of a response, without its payload.
#[derive(Debug, Clone, Copy, PartialEq, Eq, Structural)]
pub enum ResponseKind {
    Error,
    Get,
    GetQuietly,
    GetKey,
    GetKeyQuietly,
    SetValue,
    Add,
    Replace,
    Append,
    Prepend,
    Version,
    Noop,
    Delete,
    Flush,
    Increment,
    Decrement,
    Quit,
    Stats,
}

/// Mathematical model of a response: its variant, its header and every
/// payload field (fields a variant does not carry are zero or empty).
#[verifier::ext_equal]
pub struct ResponseView {
    pub kind: ResponseKind,
    pub header: ResponseHeader,
    pub flags: u32,
    pub key: Seq<u8>,
    pub value: Seq<u8>,
    /// error message or version string
    pub text: Seq<char>,
    /// new value of a counter
    pub counter: u64,
}

pub open spec fn response_view(
    kind: ResponseKind,
    header: ResponseHeader,
    flags: u32,
    key: Seq<u8>,
    value: Seq<u8>,
    text: Seq<char>,
    counter: u64,
) -> ResponseView {
    ResponseView { kind, header, flags, key, value, text, counter }
}

impl View for BinaryResponse {
    type V = ResponseView;

    open spec fn view(&self) -> ResponseView {
        match self {
            BinaryResponse::Error(r) => response_view(ResponseKind::Error, r.header, 0, Seq::empty(), Seq::empty(), r.error@, 0),
            BinaryResponse::Get(r) => response_view(ResponseKind::Get, r.header, r.flags, r.key@, r.value@, Seq::empty(), 0),
            BinaryResponse::GetQuietly(r) => response_view(ResponseKind::GetQuietly, r.header, r.flags, r.key@, r.value@, Seq::empty(), 0),
            BinaryResponse::GetKey(r) => response_view(ResponseKind::GetKey, r.header, r.flags, r.key@, r.value@, Seq::empty(), 0),
            BinaryResponse::GetKeyQuietly(r) => response_view(ResponseKind::GetKeyQuietly, r.header, r.flags, r.key@, r.value@, Seq::empty(), 0),
            BinaryResponse::SetValue(r) => response_view(ResponseKind::SetValue, r.header, 0, Seq::empty(), Seq::empty(), Seq::empty(), 0),
            BinaryResponse::Add(r) => response_view(ResponseKind::Add, r.header, 0, Seq::empty(), Seq::empty(), Seq::empty(), 0),
            BinaryResponse::Replace(r) => response_view(ResponseKind::Replace, r.header, 0, Seq::empty(), Seq::empty(), Seq::empty(), 0),
            BinaryResponse::Append(r) => response_view(ResponseKind::Append, r.header, 0, Seq::empty(), Seq::empty(), Seq::empty(), 0),
            BinaryResponse::Prepend(r) => response_view(ResponseKind::Prepend, r.header, 0, Seq::empty(), Seq::empty(), Seq::empty(), 0),
            BinaryResponse::Version(r) => response_view(ResponseKind::Version, r.header, 0, Seq::empty(), Seq::empty(), r.version@, 0),
            BinaryResponse::Noop(r) => response_view(ResponseKind::Noop, r.header, 0, Seq::empty(), Seq::empty(), Seq::empty(), 0),
            BinaryResponse::Delete(r) => response_view(ResponseKind::Delete, r.header, 0, Seq::empty(), Seq::empty(), Seq::empty(), 0),
            BinaryResponse::Flush(r) => response_view(ResponseKind::Flush, r.header, 0, Seq::empty(), Seq::empty(), Seq::empty(), 0),
            BinaryResponse::Increment(r) => response_view(ResponseKind::Increment, r.header, 0, Seq::empty(), Seq::empty(), Seq::empty(), r.value),
            BinaryResponse::Decrement(r) => response_view(ResponseKind::Decrement, r.header, 0, Seq::empty(), Seq::empty(), Seq::empty(), r.value),
            BinaryResponse::Quit(r) => response_view(ResponseKind::Quit, r.header, 0, Seq::empty(), Seq::empty(), Seq::empty(), 0),
            BinaryResponse::Stats(r) => response_view(ResponseKind::Stats, r.header, 0, Seq::empty(), Seq::empty(), Seq::empty(), 0),
        }
    }
}

impl BinaryResponse {
    pub fn get_header(&self) -> (r: &ResponseHeader)
        ensures
            *r == self@.header,
    {
        match self {
            BinaryResponse::Error(response) => &response.header,
            BinaryResponse::Get(response) => &response.header,
            BinaryResponse::GetQuietly(response) => &response.header,
            BinaryResponse::GetKey(response) => &response.header,
            BinaryResponse::GetKeyQuietly(response) => &response.header,
            BinaryResponse::SetValue(response) => &response.header,
            BinaryResponse::Add(response) => &response.header,
            BinaryResponse::Replace(response) => &response.header,
            BinaryResponse::Append(response) => &response.header,
            BinaryResponse::Prepend(response) => &response.header,
            BinaryResponse::Version(response) => &response.header,
            BinaryResponse::Noop(response) => &response.header,
            BinaryResponse::Delete(response) => &response.header,
            BinaryResponse::Flush(response) => &response.header,
            BinaryResponse::Increment(response) => &response.header,
            BinaryResponse::Decrement(response) => &response.header,
            BinaryResponse::Quit(response) => &response.header,
            BinaryResponse::Stats(response) => &response.header,
        }
    }
}

/// The error response that reports `err`: the header gets the error's
/// status and the length of its message as body length.
pub fn storage_error_to_response(err: CacheError, response_header: &mut ResponseHeader) -> (r:
    BinaryResponse)
    ensures
        *final(response_header) == (ResponseHeader {
            status: spec_status(err),
            body_length: spec_message(err).len() as u32,
            ..*old(response_header)
        }),
        r@ == response_view(
            ResponseKind::Error,
            *final(response_header),
            0,
            Seq::empty(),
            Seq::empty(),
            spec_message(err),
            0,
        ),
{
    let message = err.to_static_string();
    proof {
        crate::cache::error::lemma_message_ascii(err);
    }
    response_header.status = err.status();
    response_header.body_length = message.len() as u32;
    BinaryResponse::Error(network::ErrorResponse { header: *response_header, error: message })
}

/// The 24 bytes of a response header on the wire.
pub open spec fn spec_encode_header(h: ResponseHeader) -> Seq<u8> {
    seq![h.magic, h.opcode] + u16_be_bytes(h.key_length) + seq![h.extras_length, h.data_type]
        + u16_be_bytes(h.status) + u32_be_bytes(h.body_length) + u32_be_bytes(h.opaque)
        + u64_be_bytes(h.cas)
}

/// The bytes that follow the header of a response.
pub open spec fn spec_encode_payload(r: ResponseView) -> Seq<u8> {
    match r.kind {
        ResponseKind::Error | ResponseKind::Version => vstd::utf8::encode_utf8(r.text),
        ResponseKind::Get
        | ResponseKind::GetQuietly
        | ResponseKind::GetKey
        | ResponseKind::GetKeyQuietly => u32_be_bytes(r.flags) + r.key + r.value,
        ResponseKind::Increment | ResponseKind::Decrement => u64_be_bytes(r.counter),
        _ => Seq::empty(),
    }
}

/// A whole response on the wire.
pub open spec fn spec_encode(r: ResponseView) -> Seq<u8> {
    spec_encode_header(r.header) + spec_encode_payload(r)
}

/// The length that a header announces for its packet.
pub open spec fn spec_packet_len(h: ResponseHeader) -> int {
    24 + h.body_length + h.extras_length
}

pub struct ResponseMessage {
    pub data: Vec<u8>,
}

pub struct MemcacheBinaryEncoder {}

impl MemcacheBinaryEncoder {
    pub fn new() -> (r: MemcacheBinaryEncoder) {
        MemcacheBinaryEncoder {}
    }

    pub fn get_length(&self, msg: &BinaryResponse) -> (r: usize)
        requires
            spec_packet_len(msg@.header) <= usize::MAX,
        ensures
            r == spec_packet_len(msg@.header),
    {
        self.get_len_from_header(self.get_header(msg))
    }

    fn get_header<'a>(&self, msg: &'a BinaryResponse) -> (r: &'a ResponseHeader)
        ensures
            *r == msg@.header,
    {
        msg.get_header()
    }

    fn get_len_from_header(&self, header: &ResponseHeader) -> (r: usize)
        requires
            spec_packet_len(*header) <= usize::MAX,
        ensures
            r == spec_packet_len(*header),
    {
        24 + (header.body_length as usize) + (header.extras_length as usize)
    }

    /// Encodes a response into the bytes that are sent to the client.
    pub fn encode_message(&self, msg: &BinaryResponse) -> (r: ResponseMessage)
        ensures
            r.data@ == spec_encode(msg@),
    {
        let mut dst: Vec<u8> = Vec::new();
        self.write_header_impl(self.get_header(msg), &mut dst);
        self.encode_data(msg, dst)
    }

    fn encode_data(&self, msg: &BinaryResponse, dst: Vec<u8>) -> (r: ResponseMessage)
        ensures
            r.data@ == dst@ + spec_encode_payload(msg@),
    {
        let mut dst = dst;
        write_data(msg, &mut dst);
        ResponseMessage { data: dst }
    }

    fn write_header_impl(&self, header: &ResponseHeader, dst: &mut Vec<u8>)
        ensures
            final(dst)@ == old(dst)@ + spec_encode_header(*header),
    {
        write_header_bytes(header, dst)
    }
}

/// Appends the wire form of a response header.
pub fn write_header_bytes(header: &ResponseHeader, dst: &mut Vec<u8>)
    ensures
        final(dst)@ == old(dst)@ + spec_encode_header(*header),
{
    put_u8(dst, header.magic);
    put_u8(dst, header.opcode);
    put_u16(dst, header.key_length);
    put_u8(dst, header.extras_length);
    put_u8(dst, header.data_type);
    put_u16(dst, header.status);
    put_u32(dst, header.body_length);
    put_u32(dst, header.opaque);
    put_u64(dst, header.cas);
    assert(final(dst)@ =~= old(dst)@ + spec_encode_header(*header));
}

/// Appends the bytes that follow the header of a response.
pub fn write_data(msg: &BinaryResponse, dst: &mut Vec<u8>)
    ensures
        final(dst)@ == old(dst)@ + spec_encode_payload(msg@),
{
    match msg {
        BinaryResponse::Error(response) => {
            put_slice(dst, response.error.as_bytes());
        },
        BinaryResponse::Get(response)
        | BinaryResponse::GetKey(response)
        | BinaryResponse::GetKeyQuietly(response)
        | BinaryResponse::GetQuietly(response) => {
            put_u32(dst, response.flags);
            if !response.key.is_empty() {
                put_slice(dst, response.key.as_slice());
            }
            put_slice(dst, response.value.as_slice());
        },
        BinaryResponse::Version(response) => {
            put_slice(dst, response.version.as_str().as_bytes());
        },
        BinaryResponse::Increment(response) | BinaryResponse::Decrement(response) => {
            put_u64(dst, response.value);
        },
        _ => {},
    }
    assert(final(dst)@ =~= old(dst)@ + spec_encode_payload(msg@));
}

} // verus!
