use super::decoder::{
    RequestKind, reset_view, spec_decode, spec_header_valid, spec_parse_body, spec_parse_header, DecoderView,
    RequestView,
};
use super::encoder::{spec_encode, spec_encode_header, spec_encode_payload, spec_packet_len, ResponseView};
use super::network::{spec_command, spec_opcode, Command, RequestHeader};
use super::decoder::DecodeError;
use vstd::prelude::*;

verus! {

/// The decoder has read everything it can of `src` and waits for more
/// bytes: either no header is there yet, or a header is and its body is
/// not complete.
pub open spec fn waits_for_more(d: DecoderView, src: Seq<u8>) -> bool {
    &&& spec_decode(d, src).result == Ok::<Option<RequestView>, DecodeError>(None)
    &&& (spec_decode(d, src).state.header_parsed || (!d.header_parsed && src.len() < 24))
}

/// The header of a packet depends on its first 24 bytes only.
proof fn lemma_header_of_prefix(a: Seq<u8>, b: Seq<u8>)
    requires
        a.len() >= 24,
    ensures
        spec_parse_header(a + b) == spec_parse_header(a),
        (a + b).skip(24) == a.skip(24) + b,
{
    let ab = a + b;
    assert forall|i: int| 0 <= i < 24 implies ab[i] == a[i] by {}
    assert((a + b).skip(24) =~= a.skip(24) + b);
}

/// Bytes may arrive in pieces: when the decoder waits for more after the
/// bytes `a`, handing it what it left of `a` followed by the next bytes
/// `b` gives the same step as decoding `a` and `b` together.
pub proof fn law_decode_split(d: DecoderView, a: Seq<u8>, b: Seq<u8>)
    requires
        waits_for_more(d, a),
    ensures
        spec_decode(spec_decode(d, a).state, spec_decode(d, a).rest + b) == spec_decode(d, a + b),
{
    if !d.header_parsed && a.len() < 24 {
    } else if d.header_parsed {
    } else {
        lemma_header_of_prefix(a, b);
        let h = spec_parse_header(a);
        let first = spec_decode(d, a);
        assert(first.rest == a.skip(24));
        let lhs = spec_decode(first.state, first.rest + b);
        let rhs = spec_decode(d, a + b);
        assert(first.state.header == h);
        assert(lhs.state == rhs.state);
        assert(lhs.rest == rhs.rest);
        assert(lhs.result == rhs.result);
    }
}

/// A body parse leaves a suffix of the bytes it was given.
proof fn lemma_body_leaves_suffix(h: RequestHeader, src: Seq<u8>)
    requires
        h.body_length <= src.len(),
    ensures
        spec_parse_body(h, src).rest.len() <= src.len(),
        spec_parse_body(h, src).rest == src.skip(src.len() - spec_parse_body(h, src).rest.len()),
{
    assert(src.skip(0) =~= src);
}

/// Decoding consumes bytes from the front of the buffer only: what is left
/// is a suffix of what was there.
pub proof fn law_decode_consumes_front(d: DecoderView, src: Seq<u8>)
    ensures
        spec_decode(d, src).rest.len() <= src.len(),
        spec_decode(d, src).rest == src.skip(src.len() - spec_decode(d, src).rest.len()),
{
    let step = spec_decode(d, src);
    assert(src.skip(0) =~= src);
    if !d.header_parsed && src.len() < 24 {
    } else {
        let h = if d.header_parsed { d.header } else { spec_parse_header(src) };
        let s1 = if d.header_parsed { src } else { src.skip(24) };
        if h.body_length <= s1.len() {
            lemma_body_leaves_suffix(h, s1);
        }
        if !d.header_parsed {
            let n = step.rest.len();
            assert(s1.skip(s1.len() - n) =~= src.skip(src.len() - n));
        }
    }
}

/// Fewer than 24 bytes and no header yet: nothing is consumed, nothing
/// changes, and the decoder asks for more.
pub proof fn law_decode_short_buffer(d: DecoderView, src: Seq<u8>)
    requires
        !d.header_parsed,
        src.len() < 24,
    ensures
        spec_decode(d, src).state == d,
        spec_decode(d, src).rest == src,
        spec_decode(d, src).result == Ok::<Option<RequestView>, DecodeError>(None),
{
}

/// Once a request comes out, the decoder is ready for the next packet: no
/// header is kept and the size limit is unchanged.
pub proof fn law_decode_resets_after_request(d: DecoderView, src: Seq<u8>)
    requires
        spec_decode(d, src).result matches Ok(Some(_)),
    ensures
        !spec_decode(d, src).state.header_parsed,
        spec_decode(d, src).state.item_size_limit == d.item_size_limit,
{
}

/// A request decoded from a fresh packet carries that packet's header, and
/// the header is a valid request header.
pub proof fn law_decoded_header(d: DecoderView, src: Seq<u8>)
    requires
        !d.header_parsed,
        spec_decode(d, src).result matches Ok(Some(_)),
    ensures
        src.len() >= 24,
        spec_decode(d, src).result->Ok_0->Some_0.header == spec_parse_header(src),
        spec_parse_header(src).magic == 0x80,
{
}

/// The body a packet with header `h` carries is exactly what its command
/// takes: no extras, a key and no value for a get or a delete; no extras,
/// a key and a value for an append or a prepend; 8 bytes of extras, a key
/// and a value for a set, an add or a replace; 20 bytes of extras and a key
/// for an increment or a decrement; nothing for a no-op, a quit, a stat or
/// a version; 0 or 4 bytes of extras for a flush. A key has 1 to 250 bytes.
pub open spec fn body_fits_command(h: RequestHeader) -> bool {
    let e = h.extras_length as int;
    let k = h.key_length as int;
    let b = h.body_length as int;
    let keyed = 1 <= k <= 250;
    match spec_command(h.opcode) {
        Some(Command::Get) | Some(Command::GetQuiet) | Some(Command::GetKey) | Some(
            Command::GetKeyQuiet,
        ) | Some(Command::Delete) | Some(Command::DeleteQuiet) => keyed && e == 0 && b == k,
        Some(Command::Append) | Some(Command::AppendQuiet) | Some(Command::Prepend) | Some(
            Command::PrependQuiet,
        ) => keyed && e == 0 && b >= k,
        Some(Command::SetValue) | Some(Command::SetQuiet) | Some(Command::Add) | Some(
            Command::AddQuiet,
        ) | Some(Command::Replace) | Some(Command::ReplaceQuiet) => keyed && e == 8 && b >= 8 + k,
        Some(Command::Increment) | Some(Command::IncrementQuiet) | Some(Command::Decrement) | Some(
            Command::DecrementQuiet,
        ) => keyed && e == 20 && b == 20 + k,
        Some(Command::Noop) | Some(Command::Quit) | Some(Command::QuitQuiet) | Some(Command::Stat)
        | Some(Command::Version) => k == 0 && e == 0 && b == 0,
        Some(Command::Flush) | Some(Command::FlushQuiet) => k == 0 && (e == 0 || e == 4) && b == e,
        _ => false,
    }
}

/// A whole packet is read at once and exactly: when a decoder that holds no
/// header (a fresh one, or one that has just returned a request) is given
/// a valid header of a command it serves, within the size limit and
/// followed by the body that command takes, it returns the request with
/// that header, consumes exactly the 24 header bytes and the body, and is
/// ready for the next packet.
pub proof fn law_decode_whole_packet(d: DecoderView, src: Seq<u8>)
    requires
        !d.header_parsed,
        src.len() >= 24,
        spec_header_valid(spec_parse_header(src)),
        body_fits_command(spec_parse_header(src)),
        spec_parse_header(src).body_length <= d.item_size_limit,
        24 + spec_parse_header(src).body_length <= src.len(),
    ensures
        spec_decode(d, src).result matches Ok(Some(r)) && r.header == spec_parse_header(src),
        spec_decode(d, src).rest == src.skip(24 + spec_parse_header(src).body_length),
        spec_decode(d, src).state == reset_view(d),
{
    let h = spec_parse_header(src);
    let s1 = src.skip(24);
    let k = h.key_length as int;
    let b = h.body_length as int;
    assert(s1.skip(b) =~= src.skip(24 + b));
    assert(s1.skip(0) =~= s1);
    assert(s1.skip(k) =~= s1.skip(b) || b != k);
    assert(s1.skip(4) =~= s1.skip(b) || b != 4);
    assert(s1.skip(20 + k) =~= s1.skip(b) || b != 20 + k);
    assert(s1.skip(k + (b - k)) =~= s1.skip(b));
    assert(s1.skip(8 + k + (b - (k + 8))) =~= s1.skip(b));
}

/// The length a response header announces is room enough for the encoded
/// response: 24 header bytes, the body length and the extras length, where
/// the body length counts the bytes that follow the header.
pub proof fn law_packet_len_covers_encoding(r: ResponseView)
    requires
        r.header.body_length == spec_encode_payload(r).len(),
    ensures
        spec_encode_header(r.header).len() == 24,
        spec_encode(r).len() == 24 + r.header.body_length,
        spec_encode(r).len() <= spec_packet_len(r.header),
{
}

/// `op` is the opcode of a request of kind `k`: every kind has the opcode
/// of its own command (a version request also answers the stat opcode; a
/// body too large is reported whatever the opcode).
pub open spec fn opcode_of_kind(op: u8, k: RequestKind) -> bool {
    match k {
        RequestKind::Get => op == spec_opcode(Command::Get),
        RequestKind::GetQuietly => op == spec_opcode(Command::GetQuiet),
        RequestKind::GetKey => op == spec_opcode(Command::GetKey),
        RequestKind::GetKeyQuietly => op == spec_opcode(Command::GetKeyQuiet),
        RequestKind::Delete => op == spec_opcode(Command::Delete),
        RequestKind::DeleteQuiet => op == spec_opcode(Command::DeleteQuiet),
        RequestKind::SetValue => op == spec_opcode(Command::SetValue),
        RequestKind::SetQuietly => op == spec_opcode(Command::SetQuiet),
        RequestKind::Add => op == spec_opcode(Command::Add),
        RequestKind::AddQuietly => op == spec_opcode(Command::AddQuiet),
        RequestKind::Replace => op == spec_opcode(Command::Replace),
        RequestKind::ReplaceQuietly => op == spec_opcode(Command::ReplaceQuiet),
        RequestKind::Append => op == spec_opcode(Command::Append),
        RequestKind::AppendQuietly => op == spec_opcode(Command::AppendQuiet),
        RequestKind::Prepend => op == spec_opcode(Command::Prepend),
        RequestKind::PrependQuietly => op == spec_opcode(Command::PrependQuiet),
        RequestKind::Increment => op == spec_opcode(Command::Increment),
        RequestKind::IncrementQuiet => op == spec_opcode(Command::IncrementQuiet),
        RequestKind::Decrement => op == spec_opcode(Command::Decrement),
        RequestKind::DecrementQuiet => op == spec_opcode(Command::DecrementQuiet),
        RequestKind::Flush => op == spec_opcode(Command::Flush),
        RequestKind::FlushQuietly => op == spec_opcode(Command::FlushQuiet),
        RequestKind::Noop => op == spec_opcode(Command::Noop),
        RequestKind::Quit => op == spec_opcode(Command::Quit),
        RequestKind::QuitQuietly => op == spec_opcode(Command::QuitQuiet),
        RequestKind::Version => op == spec_opcode(Command::Version) || op == spec_opcode(Command::Stat),
        RequestKind::Stats => op == spec_opcode(Command::Stat),
        RequestKind::ItemTooLarge => true,
    }
}

/// A decoded request is of the kind its opcode names, quiet or loud: a
/// packet with the opcode of setq decodes to a quiet set, one with the
/// opcode of addq to a quiet add, and so on for every command.
pub proof fn law_decoded_kind_matches_opcode(d: DecoderView, src: Seq<u8>)
    requires
        spec_decode(d, src).result is Ok,
        spec_decode(d, src).result->Ok_0 is Some,
    ensures
        opcode_of_kind(
            spec_decode(d, src).result->Ok_0->Some_0.header.opcode,
            spec_decode(d, src).result->Ok_0->Some_0.kind,
        ),
{
}

/// In a whole packet the body is laid out as extras, then key, then value:
/// the decoded request's key is the `key_length` bytes after the extras,
/// and its value the rest of the body.
pub proof fn law_decoded_key_and_value(d: DecoderView, src: Seq<u8>)
    requires
        !d.header_parsed,
        src.len() >= 24,
        spec_header_valid(spec_parse_header(src)),
        body_fits_command(spec_parse_header(src)),
        spec_parse_header(src).body_length <= d.item_size_limit,
        24 + spec_parse_header(src).body_length <= src.len(),
    ensures
        ({
            let h = spec_parse_header(src);
            let r = spec_decode(d, src).result->Ok_0->Some_0;
            let key_start = 24 + h.extras_length;
            let value_start = key_start + h.key_length;
            &&& r.key == src.subrange(key_start, value_start)
            &&& r.value == src.subrange(value_start, 24 + h.body_length)
        }),
{
    let h = spec_parse_header(src);
    let s1 = src.skip(24);
    let e = h.extras_length as int;
    let k = h.key_length as int;
    let b = h.body_length as int;
    assert(s1.take(k) =~= src.subrange(24 + e, 24 + e + k) || e != 0);
    assert(s1.subrange(k, b) =~= src.subrange(24 + e + k, 24 + b) || e != 0);
    assert(s1.subrange(k, k + (b - k)) =~= src.subrange(24 + e + k, 24 + b) || e != 0);
    assert(s1.subrange(8, 8 + k) =~= src.subrange(24 + e, 24 + e + k) || e != 8);
    assert(s1.subrange(8 + k, 8 + k + (b - (k + 8))) =~= src.subrange(24 + e + k, 24 + b) || e != 8);
    assert(s1.subrange(20, 20 + k) =~= src.subrange(24 + e, 24 + e + k) || e != 20);
    assert(Seq::<u8>::empty() =~= src.subrange(24 + e + k, 24 + b) || b != e + k);
    assert(Seq::<u8>::empty() =~= src.subrange(24 + e, 24 + e + k) || k != 0);
}

} // verus!
