use vstd::prelude::*;

verus! {

/// The implementation behind a store.
#[derive(Copy, Clone, PartialEq, Eq, PartialOrd, Ord, Debug, Structural)]
pub enum StoreEngine {
    /// store based on dashmap library
    DashMap,
    /// store based on moka library
    Moka,
}

pub open spec fn spec_engine_str(e: StoreEngine) -> Seq<char> {
    match e {
        StoreEngine::DashMap => "DashMap backend"@,
        StoreEngine::Moka => "Moka backend"@,
    }
}

impl StoreEngine {
    pub fn as_str(&self) -> (r: &'static str)
        ensures
            r@ == spec_engine_str(*self),
    {
        match self {
            StoreEngine::DashMap => "DashMap backend",
            StoreEngine::Moka => "Moka backend",
        }
    }
}

} // verus!
