use crate::text::{append_decimal, decimal_chars};
use vstd::prelude::*;

verus! {

/// Name of the worker thread with sequence number `id`: `memcrsd-wrk-<id>`.
pub fn get_worker_thread_name(id: usize) -> (r: String)
    ensures
        r@ == "memcrsd-wrk-"@ + decimal_chars(id as u64),
{
    let mut name = String::from_str("memcrsd-wrk-");
    append_decimal(&mut name, id as u64);
    name
}

} // verus!
