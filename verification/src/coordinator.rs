//! The verification coordinator: a state machine that drives one request
//! from fetching per-chain creation code, through cloning and the sequential
//! build profiles, to selecting a representative chain and assembling the
//! verification record. The caller performs each step's outside work (RPC
//! reads, cloning, compiling, reading artifact files) and feeds the result
//! back as an event; every decision in between is made, and proved, here.

use vstd::prelude::*;
use crate::artifact::CompiledArtifact;
use crate::chain::ChainId;
use crate::creation::CreationCodeResultSet;
use crate::matcher::compare;
use crate::schema::{Abi, Ast};
use crate::table::{outcome_match, overwritten, ProfileOutcome, VerifiedContractTable};

verus! {

/// One verification request: the claimed repository, the claimed commit, and
/// the deployed contract's address.
pub struct VerifyData {
    pub repo_url: String,
    pub repo_commit: String,
    pub contract_address: String,
}

/// Name and version of the compiler that produced the matched artifact.
pub struct CompilerInfo {
    pub name: String,
    pub version: String,
}

/// Why a request ended without a verification record. Only these three are
/// surfaced to the caller; per-profile build and parse failures are always
/// recovered by skipping the profile.
#[derive(Clone, Copy, Debug, PartialEq, Eq, Structural)]
pub enum FailureReason {
    /// No supported chain holds a creation record for the address.
    NoCreationCode,
    /// The repository or commit could not be cloned and checked out.
    CloneFailed,
    /// Every build profile failed or produced no byte-equal artifact.
    NoMatchingContract,
}

/// The response payload of a successful verification, bound to one
/// representative chain and listing every chain on which a match occurred.
pub struct VerificationRecord {
    pub repo_url: String,
    pub repo_commit: String,
    pub contract_address: String,
    pub chains: Vec<ChainId>,
    pub chain: ChainId,
    pub creation_tx_hash: Vec<u8>,
    pub creation_block_number: u64,
    pub creation_code: Vec<u8>,
    pub runtime_code: Vec<u8>,
    pub creation_code_source_map: String,
    pub runtime_code_source_map: String,
    pub abi: Vec<Abi>,
    pub compiler_info: CompilerInfo,
    pub ast: Ast,
}

/// The outside result the coordinator is waiting for, handed back by the
/// caller as one event.
pub enum VerificationEvent {
    /// Every supported chain has been asked for the address's creation data.
    CreationFetched { results: CreationCodeResultSet },
    /// The repository clone and commit checkout finished.
    CloneFinished { ok: bool },
    /// One build profile ran (and its artifacts were parsed, if it compiled).
    ProfileFinished { outcome: ProfileOutcome },
    /// No build profiles remain.
    ProfilesExhausted,
    /// The matched artifact's document was re-read and validated, and the
    /// representative chain's live runtime code was fetched.
    ResponseDataFetched { artifact: CompiledArtifact, runtime_code: Vec<u8> },
}

/// What the caller must do next to advance a request.
pub enum Action {
    /// Ask every supported chain for the address's creation data.
    FetchCreationCode,
    /// Clone the repository and check out the commit.
    CloneRepository,
    /// Run the next build profile, or report exhaustion if none remain.
    RunNextProfile,
    /// Load the named artifact's document and fetch the chain's runtime code.
    FetchResponseData { chain: ChainId, artifact_id: String },
    /// The record is ready; respond with it.
    Finish,
    /// The request failed; respond with the reason.
    Halt { reason: FailureReason },
}

/// One request's progress: `Fetching → Cloning → Building → Responding →
/// Succeeded`, with a transition to the terminal `Failed` from every
/// non-terminal state.
pub enum VerificationState {
    /// Waiting for the per-chain creation records.
    Fetching { request: VerifyData },
    /// Waiting for the repository to be cloned and the commit checked out.
    Cloning { request: VerifyData, creation: CreationCodeResultSet },
    /// Running build profiles in order, accumulating matches per chain.
    Building {
        request: VerifyData,
        creation: CreationCodeResultSet,
        table: VerifiedContractTable,
    },
    /// Waiting for the representative chain's response data.
    Responding {
        request: VerifyData,
        creation: CreationCodeResultSet,
        table: VerifiedContractTable,
        chain: ChainId,
    },
    /// Terminal: the record is ready.
    Succeeded { record: VerificationRecord },
    /// Terminal: the request was unsatisfiable.
    Failed { reason: FailureReason },
}

impl VerificationState {
    /// Every chain the table holds a match for also holds a creation record,
    /// and the representative chain, once chosen, is the matched chain of
    /// smallest selection priority. Established by `new`, preserved by
    /// `step`.
    pub open spec fn wf(self) -> bool {
        match self {
            VerificationState::Building { creation, table, .. } => forall|c: ChainId|
                table.id_at(c) is Some ==> (#[trigger] creation.rec_at(c)) is Some,
            VerificationState::Responding { creation, table, chain, .. } => {
                &&& forall|c: ChainId|
                    table.id_at(c) is Some ==> (#[trigger] creation.rec_at(c)) is Some
                &&& Some(chain) == table.spec_selected()
                &&& table.id_at(chain) is Some
                &&& creation.rec_at(chain) is Some
            },
            _ => true,
        }
    }

    /// The events that can arrive in this state: each non-terminal state
    /// awaits exactly the outside work its action asked for.
    pub open spec fn accepts(self, event: VerificationEvent) -> bool {
        match (self, event) {
            (
                VerificationState::Fetching { .. },
                VerificationEvent::CreationFetched { .. },
            ) => true,
            (VerificationState::Cloning { .. }, VerificationEvent::CloneFinished { .. }) => true,
            (
                VerificationState::Building { .. },
                VerificationEvent::ProfileFinished { .. },
            ) => true,
            (VerificationState::Building { .. }, VerificationEvent::ProfilesExhausted) => true,
            (
                VerificationState::Responding { .. },
                VerificationEvent::ResponseDataFetched { .. },
            ) => true,
            _ => false,
        }
    }

    /// A fresh request, waiting for the creation-code fetch.
    pub fn new(request: VerifyData) -> (r: Self)
        ensures
            r == (VerificationState::Fetching { request }),
            r.wf(),
    {
        VerificationState::Fetching { request }
    }

    /// Advances the request by one event. An event the state does not await
    /// leaves the state unchanged; a terminal state absorbs every event.
    pub fn step(self, event: VerificationEvent) -> (r: Self)
        requires
            self.wf(),
        ensures
            r.wf(),
            !self.accepts(event) ==> r == self,
            // Fetching: no creation record anywhere is a hard stop, before
            // any clone or build; otherwise move on to cloning.
            self matches VerificationState::Fetching { request }
                ==> event matches VerificationEvent::CreationFetched { results } ==> {
                if results.spec_all_none() {
                    r == (VerificationState::Failed { reason: FailureReason::NoCreationCode })
                } else {
                    r matches VerificationState::Cloning { request: rq, creation }
                        && rq == request && creation == results
                }
            },
            // Cloning: failure is a hard stop before any build profile runs;
            // success starts building with an empty table.
            self matches VerificationState::Cloning { request, creation }
                ==> event matches VerificationEvent::CloneFinished { ok } ==> {
                if ok {
                    r matches VerificationState::Building { request: rq, creation: cr, table }
                        && rq == request && cr == creation && table.spec_is_empty()
                } else {
                    r == (VerificationState::Failed { reason: FailureReason::CloneFailed })
                }
            },
            // Building: a profile's matches overwrite the table; failed
            // profiles leave it as it was, and never end the request.
            self matches VerificationState::Building { request, creation, table }
                ==> event matches VerificationEvent::ProfileFinished { outcome } ==> {
                r matches VerificationState::Building { request: rq, creation: cr, table: t2 }
                    && rq == request && cr == creation && (forall|c: ChainId|
                    #![auto]
                    t2.id_at(c) == overwritten(
                        table.id_at(c),
                        outcome_match(outcome, creation.rec_at(c)),
                    ))
            },
            // Profiles exhausted: an empty table is the remaining hard stop;
            // otherwise the representative chain is chosen by the fixed
            // priority policy, independent of match order.
            self matches VerificationState::Building { request, creation, table }
                ==> event matches VerificationEvent::ProfilesExhausted ==> {
                if table.spec_is_empty() {
                    r == (VerificationState::Failed { reason: FailureReason::NoMatchingContract })
                } else {
                    r matches VerificationState::Responding {
                        request: rq,
                        creation: cr,
                        table: t2,
                        chain,
                    } && rq == request && cr == creation && t2 == table && Some(chain)
                        == table.spec_selected()
                }
            },
            // Responding: the record is assembled; its creation data is the
            // representative chain's fetched record, byte for byte.
            self matches VerificationState::Responding { request, creation, table, chain }
                ==> event matches VerificationEvent::ResponseDataFetched {
                artifact,
                runtime_code,
            } ==> {
                r matches VerificationState::Succeeded { record } && {
                    &&& record.repo_url == request.repo_url
                    &&& record.repo_commit == request.repo_commit
                    &&& record.contract_address == request.contract_address
                    &&& record.chains@ == table.spec_matched_chains()
                    &&& record.chain == chain
                    &&& record.creation_tx_hash == creation.rec_at(chain)->0.tx_hash
                    &&& record.creation_block_number == creation.rec_at(chain)->0.block_number
                    &&& record.creation_code == creation.rec_at(chain)->0.creation_code
                    &&& record.runtime_code == runtime_code
                    &&& record.creation_code_source_map == artifact.creation_source_map
                    &&& record.runtime_code_source_map == artifact.deployed_source_map
                    &&& record.abi == artifact.abi
                    &&& record.compiler_info.name == artifact.compiler_name
                    &&& record.compiler_info.version == artifact.compiler_version
                    &&& record.ast == artifact.ast
                }
            },
            // Terminal states absorb everything.
            self is Succeeded ==> r == self,
            self is Failed ==> r == self,
    {
        match (self, event) {
            (
                VerificationState::Fetching { request },
                VerificationEvent::CreationFetched { results },
            ) => {
                if results.is_all_none() {
                    VerificationState::Failed { reason: FailureReason::NoCreationCode }
                } else {
                    VerificationState::Cloning { request, creation: results }
                }
            },
            (
                VerificationState::Cloning { request, creation },
                VerificationEvent::CloneFinished { ok },
            ) => {
                if ok {
                    VerificationState::Building {
                        request,
                        creation,
                        table: VerifiedContractTable::new(),
                    }
                } else {
                    VerificationState::Failed { reason: FailureReason::CloneFailed }
                }
            },
            (
                VerificationState::Building { request, creation, table },
                VerificationEvent::ProfileFinished { outcome },
            ) => {
                let mut table = table;
                match &outcome {
                    ProfileOutcome::Artifacts(set) => {
                        let m = compare(set, &creation);
                        table.apply_matches(m);
                    },
                    _ => {},
                }
                proof {
                    assert forall|c: ChainId| table.id_at(c) is Some implies (
                    #[trigger] creation.rec_at(c)) is Some by {
                        if outcome_match(outcome, creation.rec_at(c)) is Some {
                            assert(creation.rec_at(c) is Some);
                        }
                    }
                }
                VerificationState::Building { request, creation, table }
            },
            (
                VerificationState::Building { request, creation, table },
                VerificationEvent::ProfilesExhausted,
            ) => {
                if table.is_empty() {
                    VerificationState::Failed { reason: FailureReason::NoMatchingContract }
                } else {
                    let chain = table.select_representative().unwrap();
                    VerificationState::Responding { request, creation, table, chain }
                }
            },
            (
                VerificationState::Responding { request, creation, table, chain },
                VerificationEvent::ResponseDataFetched { artifact, runtime_code },
            ) => {
                let chains = table.matched_chains();
                match creation.take(chain) {
                    Option::Some(rec) => {
                        let record = VerificationRecord {
                            repo_url: request.repo_url,
                            repo_commit: request.repo_commit,
                            contract_address: request.contract_address,
                            chains,
                            chain,
                            creation_tx_hash: rec.tx_hash,
                            creation_block_number: rec.block_number,
                            creation_code: rec.creation_code,
                            runtime_code,
                            creation_code_source_map: artifact.creation_source_map,
                            runtime_code_source_map: artifact.deployed_source_map,
                            abi: artifact.abi,
                            compiler_info: CompilerInfo {
                                name: artifact.compiler_name,
                                version: artifact.compiler_version,
                            },
                            ast: artifact.ast,
                        };
                        VerificationState::Succeeded { record }
                    },
                    Option::None => vstd::pervasive::unreached(),
                }
            },
            (s, _) => s,
        }
    }

    /// The outside work awaited in this state.
    pub fn next_action(&self) -> (a: Action)
        requires
            self.wf(),
        ensures
            self is Fetching ==> a is FetchCreationCode,
            self is Cloning ==> a is CloneRepository,
            self is Building ==> a is RunNextProfile,
            self matches VerificationState::Responding { table, chain, .. } ==> {
                a matches Action::FetchResponseData { chain: c2, artifact_id } && c2 == *chain
                    && Some(artifact_id@) == table.id_at(*chain)
            },
            self is Succeeded ==> a is Finish,
            self matches VerificationState::Failed { reason } ==> a == (Action::Halt {
                reason: *reason,
            }),
    {
        match self {
            VerificationState::Fetching { .. } => Action::FetchCreationCode,
            VerificationState::Cloning { .. } => Action::CloneRepository,
            VerificationState::Building { .. } => Action::RunNextProfile,
            VerificationState::Responding { table, chain, .. } => {
                match table.get(*chain) {
                    Option::Some(id) => Action::FetchResponseData {
                        chain: *chain,
                        artifact_id: id.clone(),
                    },
                    Option::None => vstd::pervasive::unreached(),
                }
            },
            VerificationState::Succeeded { .. } => Action::Finish,
            VerificationState::Failed { reason } => Action::Halt { reason: *reason },
        }
    }

    /// The finished record of a successful request, or nothing from any
    /// other state.
    pub fn into_record(self) -> (r: Option<VerificationRecord>)
        ensures
            self matches VerificationState::Succeeded { record } ==> r == Some(record),
            !(self is Succeeded) ==> r is None,
    {
        match self {
            VerificationState::Succeeded { record } => Some(record),
            _ => None,
        }
    }

    /// The failure a request ended in, or nothing from any other state.
    pub fn failure(&self) -> (r: Option<FailureReason>)
        ensures
            self matches VerificationState::Failed { reason } ==> r == Some(*reason),
            !(self is Failed) ==> r is None,
    {
        match self {
            VerificationState::Failed { reason } => Some(*reason),
            _ => None,
        }
    }
}

/// A failed request stays failed: every later event leaves the state, and so
/// the surfaced reason, untouched — in particular, a request that stopped for
/// want of creation code or a clone never builds anything afterwards.
pub proof fn lemma_failed_is_terminal(s: VerificationState, event: VerificationEvent)
    requires
        s is Failed,
        s.wf(),
    ensures
        !s.accepts(event),
{
}

} // verus!
