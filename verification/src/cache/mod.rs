pub mod cache;
pub mod cache_capability;
pub mod error;
pub mod eviction_policy;
