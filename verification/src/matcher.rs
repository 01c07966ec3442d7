//! The bytecode matcher: for every chain with a creation record, which
//! compiled artifact's creation bytecode equals the chain's on-chain creation
//! bytecode, byte for byte. A pure comparison: no input is mutated, and the
//! result is a function of the artifact sequence and the per-chain records
//! alone.
//!
//! Equality is exact, with no normalization of embedded compiler-metadata
//! hashes or immutable-variable slots: a deployment differing only in those
//! regions is reported as a non-match. That is a known precision limit of
//! the matcher, not a failure condition.

use vstd::prelude::*;
use crate::artifact::{ArtifactSet, CompiledArtifact};
use crate::bytecode::bytes_eq;
use crate::chain::ChainId;
use crate::creation::{CreationCodeResultSet, CreationRecord};

verus! {

/// Which artifact, if any, matched each chain's creation code: one slot per
/// supported chain, holding the matching artifact's identifier.
pub struct MatchResultSet {
    pub mainnet: Option<String>,
    pub optimism: Option<String>,
    pub arbitrum: Option<String>,
    pub polygon: Option<String>,
}

impl MatchResultSet {
    /// The identifier slot for chain `c`.
    pub open spec fn entry(self, c: ChainId) -> Option<String> {
        match c {
            ChainId::Mainnet => self.mainnet,
            ChainId::Optimism => self.optimism,
            ChainId::Arbitrum => self.arbitrum,
            ChainId::Polygon => self.polygon,
        }
    }

    /// The matched identifier for chain `c`, as a character sequence.
    pub open spec fn id_at(self, c: ChainId) -> Option<Seq<char>> {
        match self.entry(c) {
            Option::None => None,
            Option::Some(s) => Some(s@),
        }
    }

    /// No chain matched any artifact.
    pub open spec fn spec_all_none(self) -> bool {
        forall|c: ChainId| self.id_at(c) is None
    }

    /// The matched identifier for chain `c`.
    pub fn get(&self, c: ChainId) -> (r: &Option<String>)
        ensures
            *r == self.entry(c),
    {
        match c {
            ChainId::Mainnet => &self.mainnet,
            ChainId::Optimism => &self.optimism,
            ChainId::Arbitrum => &self.arbitrum,
            ChainId::Polygon => &self.polygon,
        }
    }

    /// True exactly when no chain matched any artifact.
    pub fn is_all_none(&self) -> (r: bool)
        ensures
            r == self.spec_all_none(),
    {
        let r = self.mainnet.is_none() && self.optimism.is_none() && self.arbitrum.is_none()
            && self.polygon.is_none();
        proof {
            if !r {
                if self.mainnet is Some {
                    assert(self.id_at(ChainId::Mainnet) is Some);
                } else if self.optimism is Some {
                    assert(self.id_at(ChainId::Optimism) is Some);
                } else if self.arbitrum is Some {
                    assert(self.id_at(ChainId::Arbitrum) is Some);
                } else {
                    assert(self.id_at(ChainId::Polygon) is Some);
                }
            }
        }
        r
    }
}

/// The identifier of the first artifact at or after position `i` whose
/// creation bytecode equals `code`.
pub open spec fn first_match_from(s: Seq<CompiledArtifact>, code: Seq<u8>, i: int) -> Option<
    Seq<char>,
>
    decreases s.len() - i,
{
    if i < 0 || i >= s.len() {
        None
    } else if s[i].creation_code@ == code {
        Some(s[i].id@)
    } else {
        first_match_from(s, code, i + 1)
    }
}

/// The identifier of the first artifact in `s` whose creation bytecode
/// equals `code`.
pub open spec fn first_match(s: Seq<CompiledArtifact>, code: Seq<u8>) -> Option<Seq<char>> {
    first_match_from(s, code, 0)
}

/// The match for one chain: absent chains match nothing; a present record
/// matches the first artifact whose creation bytecode equals the record's.
pub open spec fn chain_match(s: Seq<CompiledArtifact>, rec: Option<CreationRecord>) -> Option<
    Seq<char>,
> {
    match rec {
        Option::None => None,
        Option::Some(r) => first_match(s, r.creation_code@),
    }
}

/// Searching from the start reaches any position whose prefix holds no match.
proof fn lemma_first_match_shift(s: Seq<CompiledArtifact>, code: Seq<u8>, i: int)
    requires
        0 <= i <= s.len(),
        forall|j: int| 0 <= j < i ==> (#[trigger] s[j]).creation_code@ != code,
    ensures
        first_match(s, code) == first_match_from(s, code, i),
    decreases i,
{
    if i > 0 {
        lemma_first_match_shift(s, code, i - 1);
    }
}

/// A found match is a matching element of the sequence, and a match is found
/// exactly when some element matches.
pub proof fn lemma_first_match_found(s: Seq<CompiledArtifact>, code: Seq<u8>, i: int)
    requires
        0 <= i <= s.len(),
    ensures
        first_match_from(s, code, i) is Some <==> exists|j: int|
            i <= j < s.len() && (#[trigger] s[j]).creation_code@ == code,
        first_match_from(s, code, i) matches Some(id) ==> exists|j: int|
            i <= j < s.len() && (#[trigger] s[j]).creation_code@ == code && s[j].id@ == id,
    decreases s.len() - i,
{
    if i < s.len() {
        lemma_first_match_found(s, code, i + 1);
        if s[i].creation_code@ == code {
            assert(i <= i < s.len() && s[i].creation_code@ == code);
        }
    }
}

/// No two artifacts of `s` share the same creation bytecode.
pub open spec fn distinct_codes(s: Seq<CompiledArtifact>) -> bool {
    forall|i: int, j: int|
        0 <= i < j < s.len() ==> (#[trigger] s[i]).creation_code@ != (
        #[trigger] s[j]).creation_code@
}

/// The matcher is order-independent: two artifact sequences holding the same
/// artifacts (in any order), no two of which share a creation bytecode, give
/// the same match for any creation code.
pub proof fn lemma_first_match_permutation(
    s1: Seq<CompiledArtifact>,
    s2: Seq<CompiledArtifact>,
    code: Seq<u8>,
)
    requires
        s1.to_multiset() == s2.to_multiset(),
        distinct_codes(s1),
    ensures
        first_match(s1, code) == first_match(s2, code),
{
    broadcast use vstd::seq_lib::group_to_multiset_ensures;

    lemma_first_match_found(s1, code, 0);
    lemma_first_match_found(s2, code, 0);
    if first_match(s1, code) is Some {
        let id1 = first_match(s1, code)->0;
        let j1 = choose|j: int|
            0 <= j < s1.len() && (#[trigger] s1[j]).creation_code@ == code && s1[j].id@ == id1;
        let x = s1[j1];
        assert(s1.contains(x));
        assert(s1.to_multiset().count(x) > 0);
        assert(s2.to_multiset().count(x) > 0);
        assert(s2.contains(x));
        assert(first_match(s2, code) is Some);
        let id2 = first_match(s2, code)->0;
        let j2 = choose|j: int|
            0 <= j < s2.len() && (#[trigger] s2[j]).creation_code@ == code && s2[j].id@ == id2;
        let y = s2[j2];
        assert(s2.contains(y));
        assert(s2.to_multiset().count(y) > 0);
        assert(s1.to_multiset().count(y) > 0);
        assert(s1.contains(y));
        let m = choose|j: int| 0 <= j < s1.len() && s1[j] == y;
        assert(s1[m].creation_code@ == code);
        if m != j1 {
            if m < j1 {
                assert(s1[m].creation_code@ != s1[j1].creation_code@);
            } else {
                assert(s1[j1].creation_code@ != s1[m].creation_code@);
            }
        }
        assert(y == x);
        assert(first_match(s2, code) == Some(id1));
    } else {
        if first_match(s2, code) is Some {
            let j2 = choose|j: int|
                0 <= j < s2.len() && (#[trigger] s2[j]).creation_code@ == code;
            let y = s2[j2];
            assert(s2.contains(y));
            assert(s2.to_multiset().count(y) > 0);
            assert(s1.to_multiset().count(y) > 0);
            assert(s1.contains(y));
            let m = choose|j: int| 0 <= j < s1.len() && s1[j] == y;
            assert(s1[m].creation_code@ == code);
            assert(first_match(s1, code) is Some);
        }
    }
}

/// Even when several artifacts share a creation bytecode, permuting the
/// artifacts cannot change whether a match exists, only which of the
/// byte-equal artifacts is named.
pub proof fn lemma_first_match_existence_permutation(
    s1: Seq<CompiledArtifact>,
    s2: Seq<CompiledArtifact>,
    code: Seq<u8>,
)
    requires
        s1.to_multiset() == s2.to_multiset(),
    ensures
        first_match(s1, code) is Some <==> first_match(s2, code) is Some,
{
    broadcast use vstd::seq_lib::group_to_multiset_ensures;

    lemma_first_match_found(s1, code, 0);
    lemma_first_match_found(s2, code, 0);
    if first_match(s1, code) is Some {
        let j1 = choose|j: int| 0 <= j < s1.len() && (#[trigger] s1[j]).creation_code@ == code;
        let x = s1[j1];
        assert(s1.contains(x));
        assert(s1.to_multiset().count(x) > 0);
        assert(s2.to_multiset().count(x) > 0);
        assert(s2.contains(x));
        let m = choose|j: int| 0 <= j < s2.len() && s2[j] == x;
        assert(s2[m].creation_code@ == code);
    }
    if first_match(s2, code) is Some {
        let j2 = choose|j: int| 0 <= j < s2.len() && (#[trigger] s2[j]).creation_code@ == code;
        let y = s2[j2];
        assert(s2.contains(y));
        assert(s2.to_multiset().count(y) > 0);
        assert(s1.to_multiset().count(y) > 0);
        assert(s1.contains(y));
        let m = choose|j: int| 0 <= j < s1.len() && s1[j] == y;
        assert(s1[m].creation_code@ == code);
    }
}

/// The first artifact of `artifacts` whose creation bytecode equals `code`.
fn find_match(artifacts: &ArtifactSet, code: &Vec<u8>) -> (r: Option<String>)
    ensures
        r is None ==> first_match(artifacts.items@, code@) is None,
        r matches Some(id) ==> first_match(artifacts.items@, code@) == Some(id@),
{
    let n = artifacts.items.len();
    let mut i: usize = 0;
    while i < n
        invariant
            0 <= i <= n,
            n == artifacts.items@.len(),
            forall|j: int| 0 <= j < i ==> (#[trigger] artifacts.items@[j]).creation_code@
                != code@,
        decreases n - i,
    {
        if bytes_eq(&artifacts.items[i].creation_code, code) {
            let id = artifacts.items[i].id.clone();
            proof {
                lemma_first_match_shift(artifacts.items@, code@, i as int);
            }
            return Some(id);
        }
        i = i + 1;
    }
    proof {
        lemma_first_match_shift(artifacts.items@, code@, n as int);
    }
    None
}

/// The match slot for one chain's creation record.
fn match_for_chain(artifacts: &ArtifactSet, rec: &Option<CreationRecord>) -> (r: Option<String>)
    ensures
        r is None ==> chain_match(artifacts.items@, *rec) is None,
        r matches Some(id) ==> chain_match(artifacts.items@, *rec) == Some(id@),
{
    match rec {
        Option::None => None,
        Option::Some(record) => find_match(artifacts, &record.creation_code),
    }
}

/// Compares every artifact of one build profile against every chain's
/// creation record: for each chain holding a record, the result names the
/// first artifact whose creation bytecode equals the record's, byte for
/// byte; chains without a record, or without an equal artifact, stay absent.
pub fn compare(artifacts: &ArtifactSet, creation: &CreationCodeResultSet) -> (r: MatchResultSet)
    ensures
        forall|c: ChainId| #![auto] r.id_at(c) == chain_match(
            artifacts.items@,
            creation.rec_at(c),
        ),
{
    let r = MatchResultSet {
        mainnet: match_for_chain(artifacts, creation.get(ChainId::Mainnet)),
        optimism: match_for_chain(artifacts, creation.get(ChainId::Optimism)),
        arbitrum: match_for_chain(artifacts, creation.get(ChainId::Arbitrum)),
        polygon: match_for_chain(artifacts, creation.get(ChainId::Polygon)),
    };
    proof {
        assert forall|c: ChainId| #![auto] r.id_at(c) == chain_match(
            artifacts.items@,
            creation.rec_at(c),
        ) by {
            match c {
                ChainId::Mainnet => {},
                ChainId::Optimism => {},
                ChainId::Arbitrum => {},
                ChainId::Polygon => {},
            }
        }
    }
    r
}

/// The matcher is deterministic: its contract pins each chain's slot as a
/// function of the artifact sequence and that chain's record, so any two
/// results standing in that relation to the same inputs agree on every
/// chain.
pub proof fn lemma_compare_deterministic(
    r1: MatchResultSet,
    r2: MatchResultSet,
    items: Seq<CompiledArtifact>,
    creation: CreationCodeResultSet,
)
    requires
        forall|c: ChainId| #![auto] r1.id_at(c) == chain_match(items, creation.rec_at(c)),
        forall|c: ChainId| #![auto] r2.id_at(c) == chain_match(items, creation.rec_at(c)),
    ensures
        forall|c: ChainId| #![auto] r1.id_at(c) == r2.id_at(c),
{
}

/// The matcher is order-independent: comparing two artifact sequences that
/// hold the same artifacts (in any order), none of which share a creation
/// bytecode, against the same creation records gives the same match on every
/// chain. The per-chain record slots are keyed, never ordered, so no
/// reordering of the chain side exists to consider.
pub proof fn lemma_compare_order_independent(
    r1: MatchResultSet,
    r2: MatchResultSet,
    items1: Seq<CompiledArtifact>,
    items2: Seq<CompiledArtifact>,
    creation: CreationCodeResultSet,
)
    requires
        items1.to_multiset() == items2.to_multiset(),
        distinct_codes(items1),
        forall|c: ChainId| #![auto] r1.id_at(c) == chain_match(items1, creation.rec_at(c)),
        forall|c: ChainId| #![auto] r2.id_at(c) == chain_match(items2, creation.rec_at(c)),
    ensures
        forall|c: ChainId| #![auto] r1.id_at(c) == r2.id_at(c),
{
    assert forall|c: ChainId| #![auto] r1.id_at(c) == r2.id_at(c) by {
        match creation.rec_at(c) {
            Option::None => {},
            Option::Some(rec) => {
                lemma_first_match_permutation(items1, items2, rec.creation_code@);
            },
        }
    }
}

} // verus!
