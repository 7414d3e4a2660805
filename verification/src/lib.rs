pub mod cache;
pub mod memcache;
pub mod memcache_server;
pub mod memory_store;
pub mod memcrs;
pub mod protocol;
pub mod version;
pub mod text;
pub mod mock;
