use crate::protocol::binary::decoder::{
    result_view, spec_decode, BinaryRequest, DecodeError, DecoderView, MemcacheBinaryDecoder,
};
use crate::protocol::binary::encoder::{
    spec_encode, spec_encode_header, spec_packet_len, BinaryResponse, MemcacheBinaryEncoder,
    ResponseMessage,
};
use crate::protocol::binary::network;
use vstd::prelude::*;

verus! {

/// Decoder of request packets and encoder of response packets in one.
pub struct MemcacheBinaryCodec {
    decoder: MemcacheBinaryDecoder,
    encoder: MemcacheBinaryEncoder,
}

impl View for MemcacheBinaryCodec {
    type V = DecoderView;

    closed spec fn view(&self) -> DecoderView {
        self.decoder@
    }
}

impl MemcacheBinaryCodec {
    /// A codec that waits for a header and reports bodies above
    /// `item_size_limit` bytes as too large.
    pub fn new(item_size_limit: u32) -> (r: MemcacheBinaryCodec)
        ensures
            r@ == (DecoderView {
                header_parsed: false,
                header: network::spec_empty_request_header(),
                item_size_limit,
            }),
    {
        MemcacheBinaryCodec {
            decoder: MemcacheBinaryDecoder::new(item_size_limit),
            encoder: MemcacheBinaryEncoder::new(),
        }
    }

    /// Decodes the next request from the front of `src`, consuming its bytes.
    pub fn decode(&mut self, src: &mut Vec<u8>) -> (res: Result<Option<BinaryRequest>, DecodeError>)
        ensures
            final(self)@ == spec_decode(old(self)@, old(src)@).state,
            final(src)@ == spec_decode(old(self)@, old(src)@).rest,
            result_view(res) == spec_decode(old(self)@, old(src)@).result,
    {
        self.decoder.decode(src)
    }

    /// The length of a response packet as its header announces it.
    pub fn get_length(&self, msg: &BinaryResponse) -> (r: usize)
        requires
            spec_packet_len(msg@.header) <= usize::MAX,
        ensures
            r == spec_packet_len(msg@.header),
    {
        self.encoder.get_length(msg)
    }

    /// The bytes of a response packet.
    pub fn encode_message(&self, msg: &BinaryResponse) -> (r: ResponseMessage)
        ensures
            r.data@ == spec_encode(msg@),
    {
        self.encoder.encode_message(msg)
    }

    /// Appends the header of a response packet to `dst`.
    pub fn write_header(&self, msg: &BinaryResponse, dst: &mut Vec<u8>)
        ensures
            final(dst)@ == old(dst)@ + spec_encode_header(msg@.header),
    {
        crate::protocol::binary::encoder::write_header_bytes(msg.get_header(), dst)
    }

    /// Appends a whole response packet to `dst`.
    pub fn encode(&mut self, msg: BinaryResponse, dst: &mut Vec<u8>)
        ensures
            final(dst)@ == old(dst)@ + spec_encode(msg@),
            final(self)@ == old(self)@,
    {
        let message = self.encoder.encode_message(&msg);
        crate::protocol::binary::bytes::put_slice(dst, message.data.as_slice());
    }
}

} // verus!
