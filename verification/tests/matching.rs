use cove::artifact::{ArtifactSet, CompiledArtifact, NamedDocument};
use cove::chain::ChainId;
use cove::creation::{CreationCodeResultSet, CreationRecord};
use cove::matcher::compare;
use cove::schema::Root;
use cove::table::{process_outcomes, ProfileOutcome, VerifiedContractTable};

fn root_with(creation_hex: &str, deployed_hex: &str) -> Root {
    let mut root = Root::default();
    root.bytecode.object = creation_hex.to_string();
    root.deployed_bytecode.object = deployed_hex.to_string();
    root
}

fn artifact(name: &str, creation_hex: &str) -> CompiledArtifact {
    CompiledArtifact::from_root(name.to_string(), root_with(creation_hex, "0x")).unwrap()
}

fn set_of(artifacts: Vec<CompiledArtifact>) -> ArtifactSet {
    ArtifactSet { items: artifacts }
}

fn record(code: Vec<u8>) -> CreationRecord {
    CreationRecord { tx_hash: vec![0xabu8; 32], block_number: 7, creation_code: code }
}

fn creation_mainnet_optimism() -> CreationCodeResultSet {
    CreationCodeResultSet {
        mainnet: Some(record(vec![0x11u8, 0x22])),
        optimism: Some(record(vec![0x33u8, 0x44])),
        arbitrum: None,
        polygon: None,
    }
}

#[test]
fn compare_matches_byte_equal_artifacts_per_chain() {
    let artifacts = set_of(vec![artifact("Main", "0x1122"), artifact("Opt", "0x3344")]);
    let creation = creation_mainnet_optimism();
    let m = compare(&artifacts, &creation);
    assert_eq!(m.mainnet, Some("Main".to_string()));
    assert_eq!(m.optimism, Some("Opt".to_string()));
    assert_eq!(m.arbitrum, None);
    assert_eq!(m.polygon, None);
    assert!(!m.is_all_none());
}

#[test]
fn compare_without_equal_artifact_matches_nothing() {
    let artifacts = set_of(vec![artifact("Other", "0x99")]);
    let creation = creation_mainnet_optimism();
    let m = compare(&artifacts, &creation);
    assert!(m.is_all_none());
}

#[test]
fn compare_ignores_chains_without_a_record() {
    let artifacts = set_of(vec![artifact("Any", "0x1122")]);
    let creation = CreationCodeResultSet {
        mainnet: None,
        optimism: None,
        arbitrum: None,
        polygon: None,
    };
    let m = compare(&artifacts, &creation);
    assert!(m.is_all_none());
}

#[test]
fn compare_is_deterministic_and_order_independent() {
    let creation = creation_mainnet_optimism();
    let forward = set_of(vec![
        artifact("Main", "0x1122"),
        artifact("Opt", "0x3344"),
        artifact("Other", "0x99"),
    ]);
    let backward = set_of(vec![
        artifact("Other", "0x99"),
        artifact("Opt", "0x3344"),
        artifact("Main", "0x1122"),
    ]);
    let m1 = compare(&forward, &creation);
    let m2 = compare(&backward, &creation);
    let m3 = compare(&forward, &creation);
    assert_eq!(m1.mainnet, m2.mainnet);
    assert_eq!(m1.optimism, m2.optimism);
    assert_eq!(m1.arbitrum, m2.arbitrum);
    assert_eq!(m1.polygon, m2.polygon);
    assert_eq!(m1.mainnet, m3.mainnet);
    assert_eq!(m1.optimism, m3.optimism);
    assert_eq!(m1.arbitrum, m3.arbitrum);
    assert_eq!(m1.polygon, m3.polygon);
}

#[test]
fn later_profiles_overwrite_earlier_matches() {
    let creation = creation_mainnet_optimism();
    let outcomes = vec![
        ProfileOutcome::Artifacts(set_of(vec![artifact("FromProfileOne", "0x3344")])),
        ProfileOutcome::Artifacts(set_of(vec![artifact("FromProfileTwo", "0x3344")])),
    ];
    let t = process_outcomes(&creation, outcomes);
    assert_eq!(t.optimism, Some("FromProfileTwo".to_string()));
    assert_eq!(t.mainnet, None);
}

#[test]
fn failed_profiles_leave_earlier_matches_in_place() {
    let creation = creation_mainnet_optimism();
    let outcomes = vec![
        ProfileOutcome::Artifacts(set_of(vec![artifact("Kept", "0x1122")])),
        ProfileOutcome::BuildFailed,
        ProfileOutcome::ArtifactParseFailed,
    ];
    let t = process_outcomes(&creation, outcomes);
    assert_eq!(t.mainnet, Some("Kept".to_string()));
    assert_eq!(t.optimism, None);
}

#[test]
fn matched_chains_follow_priority_order() {
    let t = VerifiedContractTable {
        mainnet: Some("M".to_string()),
        optimism: None,
        arbitrum: None,
        polygon: Some("P".to_string()),
    };
    assert_eq!(t.matched_chains(), vec![ChainId::Mainnet, ChainId::Polygon]);
    assert_eq!(t.select_representative(), Some(ChainId::Mainnet));
}

#[test]
fn selection_favors_optimism() {
    let t = VerifiedContractTable {
        mainnet: Some("M".to_string()),
        optimism: Some("O".to_string()),
        arbitrum: Some("A".to_string()),
        polygon: Some("P".to_string()),
    };
    assert_eq!(t.select_representative(), Some(ChainId::Optimism));
    assert_eq!(
        t.matched_chains(),
        vec![ChainId::Optimism, ChainId::Mainnet, ChainId::Arbitrum, ChainId::Polygon]
    );
    let empty = VerifiedContractTable::new();
    assert_eq!(empty.select_representative(), None);
    assert!(empty.is_empty());
}
