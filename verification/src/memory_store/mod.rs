pub mod dash_map_store;
pub mod engine;
pub mod laws;
pub mod moka_store;
pub mod numeric;
pub mod parallelism;
pub mod shared_store_state;
pub mod store_spec;

pub use engine::StoreEngine;
