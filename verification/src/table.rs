//! The table of verified contracts accumulated across build profiles, and the
//! overwrite and selection policies applied to it.

use vstd::prelude::*;
use crate::artifact::ArtifactSet;
use crate::chain::ChainId;
use crate::creation::{CreationCodeResultSet, CreationRecord};
use crate::matcher::{chain_match, compare, MatchResultSet};

verus! {

/// What running one build profile produced: a compile failure, an artifact
/// set whose documents could not be used, or a usable artifact set. The two
/// failures are recovered by skipping the profile; they never end the
/// request by themselves.
pub enum ProfileOutcome {
    /// The profile did not compile.
    BuildFailed,
    /// The profile compiled but its artifact documents could not be parsed.
    ArtifactParseFailed,
    /// The profile compiled into these artifacts.
    Artifacts(ArtifactSet),
}

/// The match one profile outcome contributes for a chain with record `rec`:
/// failed profiles contribute nothing; a usable artifact set contributes its
/// first artifact whose creation bytecode equals the record's.
pub open spec fn outcome_match(o: ProfileOutcome, rec: Option<CreationRecord>) -> Option<
    Seq<char>,
> {
    match o {
        ProfileOutcome::Artifacts(s) => chain_match(s.items@, rec),
        _ => None,
    }
}

/// The surviving match for one chain after running `outcomes` in order:
/// the match of the last profile that produced one, if any. Later profiles
/// overwrite earlier ones.
pub open spec fn chain_result(outcomes: Seq<ProfileOutcome>, rec: Option<CreationRecord>) -> Option<
    Seq<char>,
>
    decreases outcomes.len(),
{
    if outcomes.len() == 0 {
        None
    } else if outcome_match(outcomes.last(), rec) is Some {
        outcome_match(outcomes.last(), rec)
    } else {
        chain_result(outcomes.drop_last(), rec)
    }
}

/// An already-accumulated match, overwritten where a new one arrived.
pub open spec fn overwritten(old_id: Option<Seq<char>>, new_id: Option<Seq<char>>) -> Option<
    Seq<char>,
> {
    if new_id is Some {
        new_id
    } else {
        old_id
    }
}

/// Which artifact identifier each chain's on-chain creation code was matched
/// by, accumulated across all build profiles of one request. Later profiles
/// overwrite earlier profiles' matches for the same chain.
pub struct VerifiedContractTable {
    pub mainnet: Option<String>,
    pub optimism: Option<String>,
    pub arbitrum: Option<String>,
    pub polygon: Option<String>,
}

impl VerifiedContractTable {
    /// The identifier slot for chain `c`.
    pub open spec fn entry(self, c: ChainId) -> Option<String> {
        match c {
            ChainId::Mainnet => self.mainnet,
            ChainId::Optimism => self.optimism,
            ChainId::Arbitrum => self.arbitrum,
            ChainId::Polygon => self.polygon,
        }
    }

    /// The accumulated identifier for chain `c`, as a character sequence.
    pub open spec fn id_at(self, c: ChainId) -> Option<Seq<char>> {
        match self.entry(c) {
            Option::None => None,
            Option::Some(s) => Some(s@),
        }
    }

    /// No chain has a verified match.
    pub open spec fn spec_is_empty(self) -> bool {
        forall|c: ChainId| self.id_at(c) is None
    }

    /// The chains holding a verified match, in selection-priority order.
    pub open spec fn spec_matched_chains(self) -> Seq<ChainId> {
        ChainId::spec_all().filter(|c: ChainId| self.id_at(c) is Some)
    }

    /// The representative chain: of the chains holding a match, the one
    /// with the smallest selection priority, or absent when none holds one.
    pub open spec fn spec_selected(self) -> Option<ChainId> {
        if self.id_at(ChainId::Optimism) is Some {
            Some(ChainId::Optimism)
        } else if self.id_at(ChainId::Mainnet) is Some {
            Some(ChainId::Mainnet)
        } else if self.id_at(ChainId::Arbitrum) is Some {
            Some(ChainId::Arbitrum)
        } else if self.id_at(ChainId::Polygon) is Some {
            Some(ChainId::Polygon)
        } else {
            None
        }
    }

    /// A table with no matches.
    pub fn new() -> (r: Self)
        ensures
            r.spec_is_empty(),
    {
        VerifiedContractTable { mainnet: None, optimism: None, arbitrum: None, polygon: None }
    }

    /// The accumulated identifier for chain `c`.
    pub fn get(&self, c: ChainId) -> (r: &Option<String>)
        ensures
            *r == self.entry(c),
    {
        match c {
            ChainId::Mainnet => &self.mainnet,
            ChainId::Optimism => &self.optimism,
            ChainId::Arbitrum => &self.arbitrum,
            ChainId::Polygon => &self.polygon,
        }
    }

    /// True exactly when no chain has a verified match.
    pub fn is_empty(&self) -> (r: bool)
        ensures
            r == self.spec_is_empty(),
    {
        let r = self.mainnet.is_none() && self.optimism.is_none() && self.arbitrum.is_none()
            && self.polygon.is_none();
        proof {
            if !r {
                if self.mainnet is Some {
                    assert(self.id_at(ChainId::Mainnet) is Some);
                } else if self.optimism is Some {
                    assert(self.id_at(ChainId::Optimism) is Some);
                } else if self.arbitrum is Some {
                    assert(self.id_at(ChainId::Arbitrum) is Some);
                } else {
                    assert(self.id_at(ChainId::Polygon) is Some);
                }
            }
        }
        r
    }

    /// Writes every match of `m` into the table, overwriting that chain's
    /// previous match; chains without a match in `m` keep what they had.
    pub fn apply_matches(&mut self, m: MatchResultSet)
        ensures
            forall|c: ChainId| #![auto] final(self).id_at(c) == overwritten(
                old(self).id_at(c),
                m.id_at(c),
            ),
    {
        if m.mainnet.is_some() {
            self.mainnet = m.mainnet;
        }
        if m.optimism.is_some() {
            self.optimism = m.optimism;
        }
        if m.arbitrum.is_some() {
            self.arbitrum = m.arbitrum;
        }
        if m.polygon.is_some() {
            self.polygon = m.polygon;
        }
        proof {
            assert forall|c: ChainId| #![auto] final(self).id_at(c) == overwritten(
                old(self).id_at(c),
                m.id_at(c),
            ) by {
                match c {
                    ChainId::Mainnet => {},
                    ChainId::Optimism => {},
                    ChainId::Arbitrum => {},
                    ChainId::Polygon => {},
                }
            }
        }
    }

    /// The chains holding a verified match, in selection-priority order.
    pub fn matched_chains(&self) -> (r: Vec<ChainId>)
        ensures
            r@ == self.spec_matched_chains(),
            forall|c: ChainId| r@.contains(c) <==> self.id_at(c) is Some,
    {
        let mut v: Vec<ChainId> = Vec::new();
        if self.optimism.is_some() {
            v.push(ChainId::Optimism);
        }
        if self.mainnet.is_some() {
            v.push(ChainId::Mainnet);
        }
        if self.arbitrum.is_some() {
            v.push(ChainId::Arbitrum);
        }
        if self.polygon.is_some() {
            v.push(ChainId::Polygon);
        }
        proof {
            reveal_with_fuel(Seq::<_>::filter, 6);
            assert(ChainId::spec_all().drop_last() =~= seq![
                ChainId::Optimism,
                ChainId::Mainnet,
                ChainId::Arbitrum,
            ]);
            assert(seq![ChainId::Optimism, ChainId::Mainnet, ChainId::Arbitrum].drop_last() =~= seq![
                ChainId::Optimism,
                ChainId::Mainnet,
            ]);
            assert(seq![ChainId::Optimism, ChainId::Mainnet].drop_last() =~= seq![
                ChainId::Optimism,
            ]);
            assert(seq![ChainId::Optimism].drop_last() =~= Seq::<ChainId>::empty());
            assert(v@ =~= self.spec_matched_chains());
            assert forall|c: ChainId| r_contains_iff(v@, *self, c) by {
                match c {
                    ChainId::Mainnet => {},
                    ChainId::Optimism => {},
                    ChainId::Arbitrum => {},
                    ChainId::Polygon => {},
                }
            }
        }
        v
    }

    /// The representative chain for the response: the matched chain with the
    /// smallest selection priority. Absent exactly when the table is empty.
    pub fn select_representative(&self) -> (r: Option<ChainId>)
        ensures
            r == self.spec_selected(),
            r is Some <==> !self.spec_is_empty(),
            r matches Some(c) ==> self.id_at(c) is Some && (forall|d: ChainId|
                self.id_at(d) is Some ==> c.priority() <= d.priority()),
    {
        let r = if self.optimism.is_some() {
            Some(ChainId::Optimism)
        } else if self.mainnet.is_some() {
            Some(ChainId::Mainnet)
        } else if self.arbitrum.is_some() {
            Some(ChainId::Arbitrum)
        } else if self.polygon.is_some() {
            Some(ChainId::Polygon)
        } else {
            None
        };
        proof {
            if r is Some {
                let c = r->0;
                assert forall|d: ChainId| self.id_at(d) is Some implies c.priority()
                    <= d.priority() by {
                    match d {
                        ChainId::Mainnet => {},
                        ChainId::Optimism => {},
                        ChainId::Arbitrum => {},
                        ChainId::Polygon => {},
                    }
                }
            } else {
                assert forall|c: ChainId| self.id_at(c) is None by {
                    match c {
                        ChainId::Mainnet => {},
                        ChainId::Optimism => {},
                        ChainId::Arbitrum => {},
                        ChainId::Polygon => {},
                    }
                }
            }
            if self.spec_is_empty() {
                assert(self.id_at(ChainId::Optimism) is None);
                assert(self.id_at(ChainId::Mainnet) is None);
                assert(self.id_at(ChainId::Arbitrum) is None);
                assert(self.id_at(ChainId::Polygon) is None);
            }
        }
        r
    }
}

/// Membership in the matched-chain list coincides with holding a match.
spec fn r_contains_iff(s: Seq<ChainId>, t: VerifiedContractTable, c: ChainId) -> bool {
    s.contains(c) <==> t.id_at(c) is Some
}

/// Accumulates the outcomes of every build profile, in order, against the
/// fetched creation records: each chain ends holding the match of the last
/// profile that matched it, or nothing if none did.
pub fn process_outcomes(creation: &CreationCodeResultSet, outcomes: Vec<ProfileOutcome>) -> (t:
    VerifiedContractTable)
    ensures
        forall|c: ChainId| #![auto] t.id_at(c) == chain_result(outcomes@, creation.rec_at(c)),
{
    let mut t = VerifiedContractTable::new();
    let n = outcomes.len();
    let mut i: usize = 0;
    proof {
        assert forall|c: ChainId| #![auto] t.id_at(c) == chain_result(
            outcomes@.take(0),
            creation.rec_at(c),
        ) by {
            assert(outcomes@.take(0).len() == 0);
        }
    }
    while i < n
        invariant
            0 <= i <= n,
            n == outcomes@.len(),
            forall|c: ChainId| #![auto] t.id_at(c) == chain_result(
                outcomes@.take(i as int),
                creation.rec_at(c),
            ),
        decreases n - i,
    {
        let o = &outcomes[i];
        match o {
            ProfileOutcome::Artifacts(set) => {
                let m = compare(set, creation);
                t.apply_matches(m);
            },
            _ => {},
        }
        proof {
            let pre = outcomes@.take(i as int);
            let cur = outcomes@.take(i + 1);
            assert(cur.drop_last() =~= pre);
            assert(cur.last() == outcomes@[i as int]);
            assert forall|c: ChainId| #![auto] t.id_at(c) == chain_result(
                cur,
                creation.rec_at(c),
            ) by {
                let rec = creation.rec_at(c);
                if outcome_match(outcomes@[i as int], rec) is Some {
                    assert(chain_result(cur, rec) == outcome_match(cur.last(), rec));
                } else {
                    assert(chain_result(cur, rec) == chain_result(pre, rec));
                }
            }
        }
        i = i + 1;
    }
    proof {
        assert(outcomes@.take(n as int) =~= outcomes@);
    }
    t
}

/// A match, once made by any profile, survives to the end of the run: some
/// profile's match for the chain always remains in force, whichever later
/// profiles matched or failed.
pub proof fn lemma_match_survives(
    outcomes: Seq<ProfileOutcome>,
    rec: Option<CreationRecord>,
    i: int,
)
    requires
        0 <= i < outcomes.len(),
        outcome_match(outcomes[i], rec) is Some,
    ensures
        chain_result(outcomes, rec) is Some,
    decreases outcomes.len(),
{
    if i == outcomes.len() - 1 {
    } else {
        if outcome_match(outcomes.last(), rec) is Some {
        } else {
            assert(outcomes.drop_last()[i] == outcomes[i]);
            lemma_match_survives(outcomes.drop_last(), rec, i);
        }
    }
}

/// A chain that any profile's artifact matched appears in the final list of
/// matched chains: `t` being the table accumulated over `outcomes`, one
/// profile matching chain `c` puts `c` into the chains the record reports.
pub proof fn lemma_matched_chain_listed(
    t: VerifiedContractTable,
    outcomes: Seq<ProfileOutcome>,
    creation: CreationCodeResultSet,
    c: ChainId,
    i: int,
)
    requires
        forall|d: ChainId| #![auto] t.id_at(d) == chain_result(outcomes, creation.rec_at(d)),
        0 <= i < outcomes.len(),
        outcome_match(outcomes[i], creation.rec_at(c)) is Some,
    ensures
        t.id_at(c) is Some,
        t.spec_matched_chains().contains(c),
{
    lemma_match_survives(outcomes, creation.rec_at(c), i);
    let pred = |d: ChainId| t.id_at(d) is Some;
    let all = ChainId::spec_all();
    let pos: int = match c {
        ChainId::Optimism => 0,
        ChainId::Mainnet => 1,
        ChainId::Arbitrum => 2,
        ChainId::Polygon => 3,
    };
    assert(all[pos] == c);
    all.lemma_filter_contains(pred, pos);
}

/// The last profile wins: appending a profile whose outcome matches a chain
/// makes that match the chain's result, whatever earlier profiles matched.
pub proof fn lemma_later_profile_overwrites(
    outcomes: Seq<ProfileOutcome>,
    o: ProfileOutcome,
    rec: Option<CreationRecord>,
)
    requires
        outcome_match(o, rec) is Some,
    ensures
        chain_result(outcomes.push(o), rec) == outcome_match(o, rec),
{
    assert(outcomes.push(o).last() == o);
}

} // verus!
