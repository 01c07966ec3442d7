//! Per-chain contract-creation records, as fetched from the supported chains.

use vstd::prelude::*;
use crate::chain::ChainId;

verus! {

/// The on-chain record of how a contract was instantiated on one chain: the
/// creation transaction, the block it landed in, and the creation bytecode
/// submitted in that transaction. Immutable once fetched.
pub struct CreationRecord {
    /// Hash of the contract-creation transaction.
    pub tx_hash: Vec<u8>,
    /// Number of the block holding the creation transaction.
    pub block_number: u64,
    /// The creation bytecode submitted in the transaction.
    pub creation_code: Vec<u8>,
}

/// Result of asking every supported chain for a contract's creation record:
/// one slot per supported chain, absent where the chain has no record (or the
/// lookup failed). Failure on one chain never disturbs another chain's slot.
pub struct CreationCodeResultSet {
    pub mainnet: Option<CreationRecord>,
    pub optimism: Option<CreationRecord>,
    pub arbitrum: Option<CreationRecord>,
    pub polygon: Option<CreationRecord>,
}

impl CreationCodeResultSet {
    /// The record held for chain `c`.
    pub open spec fn rec_at(self, c: ChainId) -> Option<CreationRecord> {
        match c {
            ChainId::Mainnet => self.mainnet,
            ChainId::Optimism => self.optimism,
            ChainId::Arbitrum => self.arbitrum,
            ChainId::Polygon => self.polygon,
        }
    }

    /// No supported chain has a creation record.
    pub open spec fn spec_all_none(self) -> bool {
        forall|c: ChainId| self.rec_at(c) is None
    }

    /// A result set with every slot absent.
    pub fn new_empty() -> (r: Self)
        ensures
            r.spec_all_none(),
    {
        CreationCodeResultSet { mainnet: None, optimism: None, arbitrum: None, polygon: None }
    }

    /// Stores (or replaces) the record for chain `c`, leaving every other
    /// chain's slot as it was.
    pub fn set(&mut self, c: ChainId, rec: Option<CreationRecord>)
        ensures
            final(self).rec_at(c) == rec,
            forall|d: ChainId| d != c ==> final(self).rec_at(d) == old(self).rec_at(d),
    {
        match c {
            ChainId::Mainnet => self.mainnet = rec,
            ChainId::Optimism => self.optimism = rec,
            ChainId::Arbitrum => self.arbitrum = rec,
            ChainId::Polygon => self.polygon = rec,
        }
    }

    /// The record held for chain `c`, moved out of the set.
    pub fn take(self, c: ChainId) -> (r: Option<CreationRecord>)
        ensures
            r == self.rec_at(c),
    {
        match c {
            ChainId::Mainnet => self.mainnet,
            ChainId::Optimism => self.optimism,
            ChainId::Arbitrum => self.arbitrum,
            ChainId::Polygon => self.polygon,
        }
    }

    /// The record held for chain `c`.
    pub fn get(&self, c: ChainId) -> (r: &Option<CreationRecord>)
        ensures
            *r == self.rec_at(c),
    {
        match c {
            ChainId::Mainnet => &self.mainnet,
            ChainId::Optimism => &self.optimism,
            ChainId::Arbitrum => &self.arbitrum,
            ChainId::Polygon => &self.polygon,
        }
    }

    /// True exactly when no supported chain has a creation record; a caller
    /// seeing `true` must stop the request, as no build can match anything.
    pub fn is_all_none(&self) -> (r: bool)
        ensures
            r == self.spec_all_none(),
    {
        let r = self.mainnet.is_none() && self.optimism.is_none() && self.arbitrum.is_none()
            && self.polygon.is_none();
        proof {
            if r {
                assert forall|c: ChainId| self.rec_at(c) is None by {}
            } else {
                if self.mainnet is Some {
                    assert(self.rec_at(ChainId::Mainnet) is Some);
                } else if self.optimism is Some {
                    assert(self.rec_at(ChainId::Optimism) is Some);
                } else if self.arbitrum is Some {
                    assert(self.rec_at(ChainId::Arbitrum) is Some);
                } else {
                    assert(self.rec_at(ChainId::Polygon) is Some);
                }
            }
        }
        r
    }
}

} // verus!
