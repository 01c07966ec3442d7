use cove::artifact::{ArtifactSet, CompiledArtifact, NamedDocument};
use cove::chain::ChainId;
use cove::coordinator::{
    Action, FailureReason, VerificationEvent, VerificationState, VerifyData,
};
use cove::creation::{CreationCodeResultSet, CreationRecord};
use cove::schema::Root;
use cove::table::ProfileOutcome;

fn request() -> VerifyData {
    VerifyData {
        repo_url: "https://example.invalid/org/repo".to_string(),
        repo_commit: "0123456789abcdef0123456789abcdef01234567".to_string(),
        contract_address: "0x00000000000000000000000000000000000000aa".to_string(),
    }
}

fn root_with(creation_hex: &str, deployed_hex: &str) -> Root {
    let mut root = Root::default();
    root.bytecode.object = creation_hex.to_string();
    root.bytecode.source_map = "0:1:0".to_string();
    root.deployed_bytecode.object = deployed_hex.to_string();
    root.deployed_bytecode.source_map = "2:3:0".to_string();
    root.metadata.language = "Solidity".to_string();
    root.metadata.compiler.version = "0.8.17".to_string();
    root
}

fn profile_with(name: &str, creation_hex: &str) -> ProfileOutcome {
    let docs = vec![NamedDocument { name: name.to_string(), root: root_with(creation_hex, "0xfe") }];
    ProfileOutcome::Artifacts(ArtifactSet::from_documents(docs).unwrap())
}

fn record(code: Vec<u8>) -> CreationRecord {
    CreationRecord { tx_hash: vec![0x11u8; 32], block_number: 42, creation_code: code }
}

fn no_records() -> CreationCodeResultSet {
    CreationCodeResultSet { mainnet: None, optimism: None, arbitrum: None, polygon: None }
}

#[test]
fn no_creation_code_anywhere_fails_before_clone_or_build() {
    let st = VerificationState::new(request());
    assert!(matches!(st.next_action(), Action::FetchCreationCode));
    let st = st.step(VerificationEvent::CreationFetched { results: no_records() });
    assert_eq!(st.failure(), Some(FailureReason::NoCreationCode));
    assert!(matches!(st.next_action(), Action::Halt { reason: FailureReason::NoCreationCode }));
    // A failed request ignores every later event: nothing is cloned or built.
    let st = st.step(VerificationEvent::CloneFinished { ok: true });
    let st = st.step(VerificationEvent::ProfileFinished { outcome: ProfileOutcome::BuildFailed });
    assert_eq!(st.failure(), Some(FailureReason::NoCreationCode));
}

#[test]
fn clone_failure_fails_before_any_build() {
    let mut results = no_records();
    results.optimism = Some(record(vec![0x60u8]));
    let st = VerificationState::new(request());
    let st = st.step(VerificationEvent::CreationFetched { results });
    assert!(matches!(st.next_action(), Action::CloneRepository));
    let st = st.step(VerificationEvent::CloneFinished { ok: false });
    assert_eq!(st.failure(), Some(FailureReason::CloneFailed));
    assert!(matches!(st.next_action(), Action::Halt { reason: FailureReason::CloneFailed }));
    // No profile result is ever taken up afterwards.
    let st = st.step(VerificationEvent::ProfileFinished {
        outcome: profile_with("Counter", "0x60"),
    });
    assert_eq!(st.failure(), Some(FailureReason::CloneFailed));
}

#[test]
fn all_profiles_failing_to_compile_is_no_matching_contract() {
    let mut results = no_records();
    results.optimism = Some(record(vec![0x60u8]));
    let st = VerificationState::new(request());
    let st = st.step(VerificationEvent::CreationFetched { results });
    let st = st.step(VerificationEvent::CloneFinished { ok: true });
    assert!(matches!(st.next_action(), Action::RunNextProfile));
    let st = st.step(VerificationEvent::ProfileFinished { outcome: ProfileOutcome::BuildFailed });
    let st = st.step(VerificationEvent::ProfileFinished { outcome: ProfileOutcome::BuildFailed });
    let st = st.step(VerificationEvent::ProfilesExhausted);
    assert_eq!(st.failure(), Some(FailureReason::NoMatchingContract));
}

#[test]
fn single_chain_single_profile_round_trip() {
    let on_chain_code = vec![0x60u8, 0x80, 0x60, 0x40];
    let mut results = no_records();
    results.optimism = Some(CreationRecord {
        tx_hash: vec![0xaau8; 32],
        block_number: 123,
        creation_code: on_chain_code.clone(),
    });
    let st = VerificationState::new(request());
    let st = st.step(VerificationEvent::CreationFetched { results });
    let st = st.step(VerificationEvent::CloneFinished { ok: true });
    let st = st.step(VerificationEvent::ProfileFinished {
        outcome: profile_with("Counter", "0x60806040"),
    });
    let st = st.step(VerificationEvent::ProfilesExhausted);
    match st.next_action() {
        Action::FetchResponseData { chain, artifact_id } => {
            assert_eq!(chain, ChainId::Optimism);
            assert_eq!(artifact_id, "Counter");
        },
        _ => panic!("expected a response-data request"),
    }
    let artifact =
        CompiledArtifact::from_root("Counter".to_string(), root_with("0x60806040", "0xfe"))
            .unwrap();
    let st = st.step(VerificationEvent::ResponseDataFetched {
        artifact,
        runtime_code: vec![0xfeu8],
    });
    assert!(matches!(st.next_action(), Action::Finish));
    let rec = st.into_record().unwrap();
    assert_eq!(rec.chains, vec![ChainId::Optimism]);
    assert_eq!(rec.chain, ChainId::Optimism);
    // Round trip: the response's creation code is the fetched on-chain
    // creation bytecode, byte for byte.
    assert_eq!(rec.creation_code, on_chain_code);
    assert_eq!(rec.creation_tx_hash, vec![0xaau8; 32]);
    assert_eq!(rec.creation_block_number, 123);
    assert_eq!(rec.runtime_code, vec![0xfeu8]);
    assert_eq!(rec.creation_code_source_map, "0:1:0");
    assert_eq!(rec.runtime_code_source_map, "2:3:0");
    assert_eq!(rec.compiler_info.name, "Solidity");
    assert_eq!(rec.compiler_info.version, "0.8.17");
    assert_eq!(rec.repo_url, "https://example.invalid/org/repo");
}

#[test]
fn two_chains_two_profiles_selects_by_priority_not_recency() {
    let mut results = no_records();
    results.mainnet = Some(record(vec![0x11u8, 0x22]));
    results.optimism = Some(record(vec![0x33u8, 0x44]));
    let st = VerificationState::new(request());
    let st = st.step(VerificationEvent::CreationFetched { results });
    let st = st.step(VerificationEvent::CloneFinished { ok: true });
    // The Optimism match arrives first, the Mainnet match last: selection
    // still favors Optimism, by the fixed priority, not by match recency.
    let st = st.step(VerificationEvent::ProfileFinished {
        outcome: profile_with("OptArtifact", "0x3344"),
    });
    let st = st.step(VerificationEvent::ProfileFinished {
        outcome: profile_with("MainArtifact", "0x1122"),
    });
    let st = st.step(VerificationEvent::ProfilesExhausted);
    match st.next_action() {
        Action::FetchResponseData { chain, artifact_id } => {
            assert_eq!(chain, ChainId::Optimism);
            assert_eq!(artifact_id, "OptArtifact");
        },
        _ => panic!("expected a response-data request"),
    }
    let artifact =
        CompiledArtifact::from_root("OptArtifact".to_string(), root_with("0x3344", "0xfe"))
            .unwrap();
    let st = st.step(VerificationEvent::ResponseDataFetched {
        artifact,
        runtime_code: vec![0x00u8],
    });
    let rec = st.into_record().unwrap();
    assert_eq!(rec.chains, vec![ChainId::Optimism, ChainId::Mainnet]);
    assert_eq!(rec.chain, ChainId::Optimism);
    assert_eq!(rec.creation_code, vec![0x33u8, 0x44]);
}

#[test]
fn later_profile_overwrites_same_chain_match() {
    let mut results = no_records();
    results.optimism = Some(record(vec![0x60u8]));
    let st = VerificationState::new(request());
    let st = st.step(VerificationEvent::CreationFetched { results });
    let st = st.step(VerificationEvent::CloneFinished { ok: true });
    let st = st.step(VerificationEvent::ProfileFinished {
        outcome: profile_with("FirstMatch", "0x60"),
    });
    let st = st.step(VerificationEvent::ProfileFinished {
        outcome: profile_with("SecondMatch", "0x60"),
    });
    let st = st.step(VerificationEvent::ProfilesExhausted);
    match st.next_action() {
        Action::FetchResponseData { chain, artifact_id } => {
            assert_eq!(chain, ChainId::Optimism);
            assert_eq!(artifact_id, "SecondMatch");
        },
        _ => panic!("expected a response-data request"),
    }
}

#[test]
fn unexpected_events_leave_the_state_unchanged() {
    let st = VerificationState::new(request());
    let st = st.step(VerificationEvent::CloneFinished { ok: true });
    assert!(matches!(st.next_action(), Action::FetchCreationCode));
    let st = st.step(VerificationEvent::ProfilesExhausted);
    assert!(matches!(st.next_action(), Action::FetchCreationCode));
}
