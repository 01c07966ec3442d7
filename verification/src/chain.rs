//! The fixed set of supported chains and the selection priority among them.

use vstd::prelude::*;

verus! {

/// Identifier of a supported network. The supported set is fixed at build
/// time; every per-chain result set in this crate has exactly one slot per
/// variant of this enum.
#[derive(Clone, Copy, Debug, PartialEq, Eq, Hash, Structural)]
pub enum ChainId {
    Mainnet,
    Optimism,
    Arbitrum,
    Polygon,
}

impl ChainId {
    /// Position of this chain in the fixed selection priority: when several
    /// chains hold a verified match, the chain with the smallest priority is
    /// chosen as the representative for the response. Optimism is the favored
    /// chain; the rest follow in a fixed order.
    pub open spec fn priority(self) -> int {
        match self {
            ChainId::Optimism => 0,
            ChainId::Mainnet => 1,
            ChainId::Arbitrum => 2,
            ChainId::Polygon => 3,
        }
    }

    /// The supported chains, listed in selection-priority order.
    pub open spec fn spec_all() -> Seq<ChainId> {
        seq![ChainId::Optimism, ChainId::Mainnet, ChainId::Arbitrum, ChainId::Polygon]
    }

    /// The supported chains, in selection-priority order.
    pub fn all() -> (r: Vec<ChainId>)
        ensures
            r@ == ChainId::spec_all(),
    {
        let mut v: Vec<ChainId> = Vec::new();
        v.push(ChainId::Optimism);
        v.push(ChainId::Mainnet);
        v.push(ChainId::Arbitrum);
        v.push(ChainId::Polygon);
        proof {
            assert(v@ =~= ChainId::spec_all());
        }
        v
    }
}

} // verus!
