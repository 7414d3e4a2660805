use vstd::prelude::*;

verus! {

/// Big-endian 16-bit value of the two bytes of `s` at `i`.
pub open spec fn be_u16(s: Seq<u8>, i: int) -> u16 {
    (s[i] * 256 + s[i + 1]) as u16
}

/// Big-endian 32-bit value of the four bytes of `s` at `i`.
pub open spec fn be_u32(s: Seq<u8>, i: int) -> u32 {
    (be_u16(s, i) * 65536 + be_u16(s, i + 2)) as u32
}

/// Big-endian 64-bit value of the eight bytes of `s` at `i`.
pub open spec fn be_u64(s: Seq<u8>, i: int) -> u64 {
    (be_u32(s, i) * 0x1_0000_0000 + be_u32(s, i + 4)) as u64
}

/// Big-endian bytes of a 16-bit value.
pub open spec fn u16_be_bytes(v: u16) -> Seq<u8> {
    seq![(v / 256) as u8, (v % 256) as u8]
}

/// Big-endian bytes of a 32-bit value.
pub open spec fn u32_be_bytes(v: u32) -> Seq<u8> {
    u16_be_bytes((v / 65536) as u16) + u16_be_bytes((v % 65536) as u16)
}

/// Big-endian bytes of a 64-bit value.
pub open spec fn u64_be_bytes(v: u64) -> Seq<u8> {
    u32_be_bytes((v / 0x1_0000_0000) as u32) + u32_be_bytes((v % 0x1_0000_0000) as u32)
}

pub fn read_u16(s: &Vec<u8>, i: usize) -> (r: u16)
    requires
        i + 2 <= s.len(),
    ensures
        r == be_u16(s@, i as int),
{
    let hi = s[i] as u16;
    let lo = s[i + 1] as u16;
    hi * 256 + lo
}

pub fn read_u32(s: &Vec<u8>, i: usize) -> (r: u32)
    requires
        i + 4 <= s.len(),
    ensures
        r == be_u32(s@, i as int),
{
    let hi = read_u16(s, i) as u32;
    let lo = read_u16(s, i + 2) as u32;
    hi * 65536 + lo
}

pub fn read_u64(s: &Vec<u8>, i: usize) -> (r: u64)
    requires
        i + 8 <= s.len(),
    ensures
        r == be_u64(s@, i as int),
{
    let hi = read_u32(s, i) as u64;
    let lo = read_u32(s, i + 4) as u64;
    hi * 0x1_0000_0000 + lo
}

pub fn put_u8(dst: &mut Vec<u8>, v: u8)
    ensures
        final(dst)@ == old(dst)@.push(v),
{
    dst.push(v);
}

pub fn put_u16(dst: &mut Vec<u8>, v: u16)
    ensures
        final(dst)@ == old(dst)@ + u16_be_bytes(v),
{
    dst.push((v / 256) as u8);
    dst.push((v % 256) as u8);
    assert(dst@ =~= old(dst)@ + u16_be_bytes(v));
}

pub fn put_u32(dst: &mut Vec<u8>, v: u32)
    ensures
        final(dst)@ == old(dst)@ + u32_be_bytes(v),
{
    put_u16(dst, (v / 65536) as u16);
    put_u16(dst, (v % 65536) as u16);
    assert(dst@ =~= old(dst)@ + u32_be_bytes(v));
}

pub fn put_u64(dst: &mut Vec<u8>, v: u64)
    ensures
        final(dst)@ == old(dst)@ + u64_be_bytes(v),
{
    put_u32(dst, (v / 0x1_0000_0000) as u32);
    put_u32(dst, (v % 0x1_0000_0000) as u32);
    assert(dst@ =~= old(dst)@ + u64_be_bytes(v));
}

/// Appends every byte of `src` to `dst`.
pub fn put_slice(dst: &mut Vec<u8>, src: &[u8])
    ensures
        final(dst)@ == old(dst)@ + src@,
{
    let mut i: usize = 0;
    while i < src.len()
        invariant
            i <= src@.len(),
            dst@ == old(dst)@ + src@.take(i as int),
        decreases src@.len() - i,
    {
        dst.push(src[i]);
        i = i + 1;
        assert(dst@ =~= old(dst)@ + src@.take(i as int));
    }
    assert(src@.take(i as int) =~= src@);
}

/// Removes the first `n` bytes of `src` and returns them.
pub fn split_to(src: &mut Vec<u8>, n: usize) -> (prefix: Vec<u8>)
    requires
        n <= old(src)@.len(),
    ensures
        prefix@ == old(src)@.take(n as int),
        final(src)@ == old(src)@.skip(n as int),
{
    let mut prefix = src.split_off(n);
    std::mem::swap(src, &mut prefix);
    assert(prefix@ =~= old(src)@.take(n as int));
    assert(src@ =~= old(src)@.skip(n as int));
    prefix
}

/// Removes the first `n` bytes of `src`.
pub fn advance(src: &mut Vec<u8>, n: usize)
    requires
        n <= old(src)@.len(),
    ensures
        final(src)@ == old(src)@.skip(n as int),
{
    let _ = split_to(src, n);
}

} // verus!
