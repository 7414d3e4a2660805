use vstd::prelude::*;

verus! {

/// Limits of the TCP server: client timeout in seconds, number of
/// simultaneous connections and largest item in bytes.
#[derive(Clone, Copy, Debug, PartialEq, Eq, Structural)]
pub struct MemcacheServerConfig {
    pub timeout_secs: u32,
    pub connection_limit: u32,
    pub item_memory_limit: u32,
}

impl MemcacheServerConfig {
    pub fn new(timeout_secs: u32, connection_limit: u32, item_memory_limit: u32) -> (r: Self)
        ensures
            r == (MemcacheServerConfig { timeout_secs, connection_limit, item_memory_limit }),
    {
        MemcacheServerConfig { timeout_secs, connection_limit, item_memory_limit }
    }
}

} // verus!
