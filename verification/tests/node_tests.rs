use beacon_node::ldk::{BuildFailure, ListeningAddress, Network, NodeLog};
use beacon_node::node::{BeaconNode, BeaconNodeConfig, BeaconNodeError};
use tempfile::Builder;

fn long_alias_config() -> BeaconNodeConfig {
    BeaconNodeConfig {
        network: Network::Testnet,
        chain_source: None,
        gossip_source: None,
        node_alias: Some("This is a string longer than thirty-two bytes!".to_string()),
    }
}

#[test]
fn alias_over_32_bytes_is_a_build_error() {
    let temp_dir = Builder::new().prefix("beacon-alias").tempdir().unwrap();
    let storage_dir = temp_dir.path().to_str().unwrap().to_string();
    let address = ListeningAddress::hostname(String::from("127.0.0.1"), 3001).unwrap();
    match BeaconNode::new(long_alias_config(), storage_dir, address, &mut NodeLog::new()) {
        Err(BeaconNodeError::BuildNodeError(e)) => assert_eq!(e, BuildFailure::InvalidNodeAlias),
        Err(other) => panic!("unexpected error {:?}", other),
        Ok(_) => panic!("a long alias was accepted"),
    }
}

#[test]
fn error_messages_carry_their_lead_in() {
    let start = BeaconNodeError::StartNodeError("boom".to_string());
    assert_eq!(start.message(), "Failed to start node: boom");
    let dup = BeaconNodeError::DuplicateNodeNameError("Node already exists".to_string());
    assert_eq!(dup.message(), "Duplicate node name error: Node already exists");
    let build = BeaconNodeError::from(BuildFailure::InvalidNodeAlias);
    assert_eq!(build.message(), "Failed to build node: Given node alias is invalid.");
}

#[test]
fn from_build_failure_wraps_it() {
    match BeaconNodeError::from(BuildFailure::StoragePathAccessFailed) {
        BeaconNodeError::BuildNodeError(e) => assert_eq!(e, BuildFailure::StoragePathAccessFailed),
        other => panic!("unexpected {:?}", other),
    }
}

#[test]
fn build_failure_messages_carry_the_failure_text() {
    let read = BeaconNodeError::from(BuildFailure::ReadFailed);
    assert_eq!(read.message(), "Failed to build node: Failed to read from store.");
    let mismatch = BeaconNodeError::BuildNodeError(BuildFailure::NetworkMismatch);
    assert_eq!(
        mismatch.message(),
        "Failed to build node: Given network does not match the node's previously configured network."
    );
    let listening = BeaconNodeError::BuildNodeError(BuildFailure::InvalidListeningAddresses);
    assert_eq!(listening.message(), "Failed to build node: Given listening addresses are invalid.");
}

#[test]
fn listening_addresses_need_a_valid_host_name() {
    assert!(ListeningAddress::hostname("127.0.0.1".to_string(), 9735).is_ok());
    assert!(ListeningAddress::hostname("node-1.example_host".to_string(), 1).is_ok());
    assert!(ListeningAddress::hostname("local host".to_string(), 9735).is_err());
    assert!(ListeningAddress::hostname("h\u{e9}te".to_string(), 9735).is_err());
    assert!(ListeningAddress::hostname("a".repeat(256), 9735).is_err());
    assert!(ListeningAddress::hostname("a".repeat(255), 9735).is_ok());
}

fn set_test_config() -> BeaconNodeConfig {
    BeaconNodeConfig {
        network: Network::Testnet,
        chain_source: None,
        gossip_source: None,
        node_alias: Some("beacon-node".to_string()),
    }
}

// Starting needs the Esplora server of the test network; where it cannot be
// reached, the start error is reported with its own text.
#[test]
fn start_node_runs_or_reports_the_start_error() {
    let temp_dir = Builder::new().prefix("beacon-node-1").tempdir().unwrap();
    let storage_dir = temp_dir.path().to_str().unwrap().to_string();

    let listening_address = ListeningAddress::hostname(String::from("127.0.0.1"), 3000).unwrap();

    let config = set_test_config();
    match BeaconNode::new(config, storage_dir, listening_address, &mut NodeLog::new()) {
        Ok(node) => assert!(node.get_node_status().is_running),
        Err(BeaconNodeError::StartNodeError(text)) => {
            assert!(!text.is_empty());
            let e = BeaconNodeError::StartNodeError(text.clone());
            assert_eq!(e.message(), format!("Failed to start node: {}", text));
        }
        Err(other) => panic!("unexpected error {:?}", other),
    }
}
