use cove::artifact::{ArtifactParseError, ArtifactSet, CompiledArtifact, NamedDocument};
use cove::bytecode::{bytes_eq, decode_hex_str};
use cove::schema::Root;

fn root_with(creation_hex: &str, deployed_hex: &str) -> Root {
    let mut root = Root::default();
    root.bytecode.object = creation_hex.to_string();
    root.bytecode.source_map = "1:2:0".to_string();
    root.deployed_bytecode.object = deployed_hex.to_string();
    root.deployed_bytecode.source_map = "3:4:0".to_string();
    root.metadata.language = "Solidity".to_string();
    root.metadata.compiler.version = "0.8.17".to_string();
    root
}

#[test]
fn decode_hex_with_prefix() {
    let r = decode_hex_str("0x00ff10").unwrap();
    assert_eq!(r, vec![0x00u8, 0xff, 0x10]);
}

#[test]
fn decode_hex_without_prefix() {
    let r = decode_hex_str("DEADbeef").unwrap();
    assert_eq!(r, vec![0xdeu8, 0xad, 0xbe, 0xef]);
}

#[test]
fn decode_hex_empty_text() {
    assert_eq!(decode_hex_str("0x").unwrap(), Vec::<u8>::new());
    assert_eq!(decode_hex_str("").unwrap(), Vec::<u8>::new());
}

#[test]
fn decode_hex_rejects_odd_length() {
    assert!(decode_hex_str("0xabc").is_none());
}

#[test]
fn decode_hex_rejects_bad_digit() {
    assert!(decode_hex_str("0x60zz").is_none());
    assert!(decode_hex_str("6g").is_none());
}

#[test]
fn bytes_eq_compares_byte_for_byte() {
    assert!(bytes_eq(&vec![1u8, 2, 3], &vec![1u8, 2, 3]));
    assert!(!bytes_eq(&vec![1u8, 2, 3], &vec![1u8, 2]));
    assert!(!bytes_eq(&vec![1u8, 2, 3], &vec![1u8, 2, 4]));
}

#[test]
fn artifact_from_root_decodes_bytecode() {
    let a = CompiledArtifact::from_root("Counter".to_string(), root_with("0x608060", "0xfe"))
        .unwrap();
    assert_eq!(a.id, "Counter");
    assert_eq!(a.creation_code, vec![0x60u8, 0x80, 0x60]);
    assert_eq!(a.deployed_code, vec![0xfeu8]);
    assert_eq!(a.compiler_name, "Solidity");
    assert_eq!(a.compiler_version, "0.8.17");
    assert_eq!(a.creation_source_map, "1:2:0");
    assert_eq!(a.deployed_source_map, "3:4:0");
}

#[test]
fn artifact_from_root_rejects_bad_creation_bytecode() {
    match CompiledArtifact::from_root("C".to_string(), root_with("0xzz", "0xfe")) {
        Err(e) => assert_eq!(e, ArtifactParseError::InvalidCreationBytecode),
        Ok(_) => panic!("expected an error"),
    }
}

#[test]
fn artifact_from_root_rejects_bad_deployed_bytecode() {
    match CompiledArtifact::from_root("C".to_string(), root_with("0x60", "0x1")) {
        Err(e) => assert_eq!(e, ArtifactParseError::InvalidDeployedBytecode),
        Ok(_) => panic!("expected an error"),
    }
}

#[test]
fn artifact_set_keeps_document_order() {
    let docs = vec![
        NamedDocument { name: "A".to_string(), root: root_with("0x01", "0x02") },
        NamedDocument { name: "B".to_string(), root: root_with("0x03", "0x04") },
    ];
    let set = ArtifactSet::from_documents(docs).unwrap();
    assert_eq!(set.items.len(), 2);
    assert_eq!(set.items[0].id, "A");
    assert_eq!(set.items[0].creation_code, vec![0x01u8]);
    assert_eq!(set.items[1].id, "B");
    assert_eq!(set.items[1].creation_code, vec![0x03u8]);
}

#[test]
fn artifact_set_reports_first_failure() {
    let docs = vec![
        NamedDocument { name: "A".to_string(), root: root_with("0x01", "0x02") },
        NamedDocument { name: "B".to_string(), root: root_with("0xzz", "0x04") },
        NamedDocument { name: "C".to_string(), root: root_with("0x05", "0xqq") },
    ];
    match ArtifactSet::from_documents(docs) {
        Err(e) => assert_eq!(e, ArtifactParseError::InvalidCreationBytecode),
        Ok(_) => panic!("expected an error"),
    }

    let docs2 = vec![NamedDocument { name: "A".to_string(), root: root_with("0x01", "0xqq") }];
    match ArtifactSet::from_documents(docs2) {
        Err(e) => assert_eq!(e, ArtifactParseError::InvalidDeployedBytecode),
        Ok(_) => panic!("expected an error"),
    }
}
