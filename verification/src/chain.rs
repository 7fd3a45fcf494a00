//! The closed set of supported chains and the per-chain backend registry.

use vstd::prelude::*;
use crate::address::Address;

verus! {

/// Identifier of one of the six supported chain backends.
#[derive(Clone, Copy, Debug, PartialEq, Eq, Structural)]
pub enum ChainId {
    Mainnet,
    Base,
    Arbitrum,
    Optimism,
    Polygon,
    Bsc,
}

/// The read-only, process-lifetime configuration of one chain backend: the
/// address of the helper contract that answers batched read calls. The
/// transport client that executes those calls lives outside the library and
/// is selected by the same [`ChainId`].
pub struct ChainBackend {
    pub multicall_address: Address,
}

/// One backend per supported chain, constructed once at startup and never
/// mutated afterwards, so it is safely shared by all concurrent sessions.
pub struct ChainRegistry {
    pub mainnet: ChainBackend,
    pub base: ChainBackend,
    pub arbitrum: ChainBackend,
    pub optimism: ChainBackend,
    pub polygon: ChainBackend,
    pub bsc: ChainBackend,
}

/// The backend that a chain identifier selects.
pub open spec fn spec_backend(r: ChainRegistry, id: ChainId) -> ChainBackend {
    match id {
        ChainId::Mainnet => r.mainnet,
        ChainId::Base => r.base,
        ChainId::Arbitrum => r.arbitrum,
        ChainId::Optimism => r.optimism,
        ChainId::Polygon => r.polygon,
        ChainId::Bsc => r.bsc,
    }
}

impl ChainRegistry {
    /// Selects the backend for a request's chain identifier.
    pub fn backend(&self, id: ChainId) -> (b: &ChainBackend)
        ensures
            *b == spec_backend(*self, id),
    {
        match id {
            ChainId::Mainnet => &self.mainnet,
            ChainId::Base => &self.base,
            ChainId::Arbitrum => &self.arbitrum,
            ChainId::Optimism => &self.optimism,
            ChainId::Polygon => &self.polygon,
            ChainId::Bsc => &self.bsc,
        }
    }
}

} // verus!
