use super::eviction_policy::EvictionPolicy;
use vstd::prelude::*;

verus! {

/// Cache capabilities
pub trait CacheCapability {
    fn is_policy_supported(&self, policy: EvictionPolicy) -> bool;
}

} // verus!
