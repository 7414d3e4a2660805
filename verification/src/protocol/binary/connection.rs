use vstd::prelude::*;

verus! {

/// What to discard after a request whose body is over the item size limit.
pub struct SkipPlan {
    /// bytes to drop from the front of the read buffer
    pub drop_from_buffer: usize,
    /// bytes still to read from the socket and throw away
    pub skip_from_socket: u32,
}

/// Plans the discarding of an oversized body of `body_length` bytes when
/// `buffered` bytes wait in the read buffer: the bytes that have not
/// arrived are read from the socket and thrown away, and as many bytes are
/// dropped from the buffer, all of them when the buffer holds no more.
pub fn item_too_large_skip(body_length: u32, buffered: usize) -> (r: SkipPlan)
    requires
        buffered <= body_length,
    ensures
        r.skip_from_socket == body_length - buffered,
        r.drop_from_buffer == (if r.skip_from_socket >= buffered {
            buffered
        } else {
            r.skip_from_socket as usize
        }),
{
    let skip: u32 = body_length - (buffered as u32);
    let drop_from_buffer: usize = if skip >= buffered as u32 {
        buffered
    } else {
        skip as usize
    };
    SkipPlan { drop_from_buffer, skip_from_socket: skip }
}

} // verus!
