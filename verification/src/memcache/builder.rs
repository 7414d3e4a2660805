use crate::memcache::cli::parser::{DashMapConfig, MokaConfig};
use crate::memcache::store::CacheStore;
use crate::memory_store::dash_map_store::DashMapMemoryStore;
use crate::memory_store::moka_store::MokaMemoryStore;
use crate::memory_store::store_spec::StoreView;
use crate::memory_store::StoreEngine;
use vstd::prelude::*;

verus! {

/// Settings of one store engine.
#[derive(Clone, Copy, Debug, PartialEq, Eq, Structural)]
pub enum EngineStoreConfig {
    Moka(MokaConfig),
    DashMap(DashMapConfig),
}

/// The engine a store runs on and its settings.
pub struct MemcacheStoreConfig {
    engine: StoreEngine,
    config: EngineStoreConfig,
}

impl MemcacheStoreConfig {
    pub closed spec fn spec_engine(&self) -> StoreEngine {
        self.engine
    }

    pub closed spec fn spec_config(&self) -> EngineStoreConfig {
        self.config
    }

    pub fn new(engine: StoreEngine, config: EngineStoreConfig) -> (r: MemcacheStoreConfig)
        ensures
            r.spec_engine() == engine,
            r.spec_config() == config,
    {
        MemcacheStoreConfig { engine, config }
    }

    pub fn engine(&self) -> (r: StoreEngine)
        ensures
            r == self.spec_engine(),
    {
        self.engine
    }

    pub fn config(&self) -> (r: EngineStoreConfig)
        ensures
            r == self.spec_config(),
    {
        self.config
    }
}

/// The settings name the engine they are for.
pub open spec fn config_matches_engine(engine: StoreEngine, config: EngineStoreConfig) -> bool {
    match config {
        EngineStoreConfig::Moka(_) => engine == StoreEngine::Moka,
        EngineStoreConfig::DashMap(_) => engine == StoreEngine::DashMap,
    }
}

/// The room a fresh store of these settings starts with: the capacity of a
/// bounded cache; 0 for a store that never evicts.
pub open spec fn initial_room(config: EngineStoreConfig) -> int {
    match config {
        EngineStoreConfig::Moka(c) => c.max_capacity as int,
        EngineStoreConfig::DashMap(_) => 0,
    }
}

/// Builds stores from their settings.
pub struct MemcacheStoreBuilder {}

impl MemcacheStoreBuilder {
    pub fn new() -> (r: MemcacheStoreBuilder) {
        MemcacheStoreBuilder {}
    }

    /// An empty store of the configured engine at time 0. A DashMap store
    /// sizes its map for `parallelism` threads.
    pub fn from_config(config: MemcacheStoreConfig, parallelism: usize) -> (r: CacheStore)
        requires
            config_matches_engine(config.spec_engine(), config.spec_config()),
        ensures
            r@ == (StoreView {
                contents: Map::empty(),
                now: 0,
                next_cas: 1,
                engine: config.spec_engine(),
                room: initial_room(config.spec_config()),
            }),
    {
        match config.config {
            EngineStoreConfig::DashMap(cfg) => CacheStore::DashMap(DashMapMemoryStore::new(cfg, parallelism)),
            EngineStoreConfig::Moka(cfg) => CacheStore::Moka(MokaMemoryStore::new(cfg)),
        }
    }
}

} // verus!
