use beacon_node::manager::{
    node_storage_path, BeaconNodeManager, BeaconNodeManagerCommand, BeaconNodeManagerEvent,
    NodeDetails,
};
use beacon_node::ldk::{BuildFailure, Network};
use beacon_node::node::{BeaconNodeConfig, BeaconNodeError};

fn config_with_alias(alias: &str) -> BeaconNodeConfig {
    BeaconNodeConfig {
        network: Network::Testnet,
        chain_source: None,
        gossip_source: None,
        node_alias: Some(alias.to_string()),
    }
}

const LONG_ALIAS: &str = "This is a string longer than thirty-two bytes!";

#[test]
fn a_new_manager_without_discovered_nodes_is_empty() {
    let manager = BeaconNodeManager::new("/tmp/beacon-empty".to_string(), Vec::new());
    assert_eq!(manager.node_count(), 0);
    assert!(manager.get_node("node1").is_none());
    assert!(manager.list_nodes().is_empty());
}

#[test]
fn storage_directory_is_the_name_under_the_base() {
    let manager = BeaconNodeManager::new("/var/beacon".to_string(), Vec::new());
    assert_eq!(
        manager.storage_dir_for_new_node(&"alice".to_string()),
        Some("/var/beacon/alice".to_string())
    );
    let command = BeaconNodeManagerCommand::CreateNode {
        node_name: "bob".to_string(),
        config: config_with_alias("bob"),
    };
    assert_eq!(manager.storage_dir_for(&command), Some("/var/beacon/bob".to_string()));
    assert_eq!(manager.storage_dir_for(&BeaconNodeManagerCommand::ListNodes), None);
    assert_eq!(node_storage_path(&"/var/beacon".to_string(), &"carol".to_string()), "/var/beacon/carol");
    assert_eq!(node_storage_path(&"/var/beacon/".to_string(), &"dave".to_string()), "/var/beacon/dave");
    assert_eq!(node_storage_path(&"".to_string(), &"erin".to_string()), "erin");
    assert_eq!(node_storage_path(&"/var/beacon".to_string(), &"/srv/frank".to_string()), "/srv/frank");
}

#[test]
fn a_failed_storage_directory_refuses_the_node() {
    let mut manager = BeaconNodeManager::new("/tmp/beacon-denied".to_string(), Vec::new());
    match manager.create_node("node1".to_string(), config_with_alias("node1"), Err("denied".to_string())) {
        Err(BeaconNodeError::StartNodeError(m)) => {
            assert_eq!(m, "Failed to create storage dir: denied")
        },
        Err(other) => panic!("unexpected error {:?}", other),
        Ok(_) => panic!("node created without its directory"),
    }
    assert_eq!(manager.node_count(), 0);
}

#[test]
fn an_invalid_alias_refuses_the_node_and_keeps_the_manager() {
    let base = tempfile::Builder::new().prefix("beacon-manager").tempdir().unwrap();
    let base = base.path().to_str().unwrap().to_string();
    let mut manager = BeaconNodeManager::new(base, Vec::new());
    match manager.create_node("node1".to_string(), config_with_alias(LONG_ALIAS), Ok(())) {
        Err(BeaconNodeError::BuildNodeError(e)) => assert_eq!(e, BuildFailure::InvalidNodeAlias),
        Err(other) => panic!("unexpected error {:?}", other),
        Ok(_) => panic!("a long alias was accepted"),
    }
    assert_eq!(manager.node_count(), 0);
}

#[test]
fn listing_an_empty_manager_sends_an_empty_list() {
    let mut manager = BeaconNodeManager::new("/tmp/beacon-list".to_string(), Vec::new());
    let events = manager.handle_command(BeaconNodeManagerCommand::ListNodes, Ok(()));
    assert_eq!(events.len(), 1);
    match &events[0] {
        BeaconNodeManagerEvent::NodeListUpdated(list) => assert!(list.is_empty()),
        other => panic!("unexpected event {:?}", other),
    }
}

#[test]
fn a_refused_creation_is_answered_with_its_message() {
    let mut manager = BeaconNodeManager::new("/tmp/beacon-refused".to_string(), Vec::new());
    let command = BeaconNodeManagerCommand::CreateNode {
        node_name: "node1".to_string(),
        config: config_with_alias("node1"),
    };
    let events = manager.handle_command(command, Err("read-only file system".to_string()));
    assert_eq!(events.len(), 1);
    match &events[0] {
        BeaconNodeManagerEvent::Error(m) => assert_eq!(
            m,
            "Failed to start node: Failed to create storage dir: read-only file system"
        ),
        other => panic!("unexpected event {:?}", other),
    }
    assert_eq!(manager.node_count(), 0);
}

#[test]
fn a_build_failure_is_answered_with_the_build_message() {
    let base = tempfile::Builder::new().prefix("beacon-build").tempdir().unwrap();
    let base = base.path().to_str().unwrap().to_string();
    let mut manager = BeaconNodeManager::new(base, Vec::new());
    let command = BeaconNodeManagerCommand::CreateNode {
        node_name: "node1".to_string(),
        config: config_with_alias(LONG_ALIAS),
    };
    let events = manager.handle_command(command, Ok(()));
    assert_eq!(events.len(), 1);
    match &events[0] {
        BeaconNodeManagerEvent::Error(m) => {
            assert_eq!(m, "Failed to build node: Given node alias is invalid.")
        },
        other => panic!("unexpected event {:?}", other),
    }
}

#[test]
fn discovered_nodes_that_cannot_start_are_skipped() {
    let discovered = vec![
        ("node-a".to_string(), Err("no space left".to_string())),
        ("node-b".to_string(), Err("no space left".to_string())),
    ];
    let manager = BeaconNodeManager::new("/tmp/beacon-discovered".to_string(), discovered);
    assert_eq!(manager.node_count(), 0);
}

#[test]
fn node_details_keep_the_observation() {
    let details = NodeDetails::observed("alice".to_string(), true, 7);
    assert_eq!(details.name, "alice");
    assert!(details.is_online);
    assert_eq!(details.channels_active, 7);
    assert_eq!(details.uptime_hours, 0);
    let wrapped = NodeDetails::observed("bob".to_string(), false, (u32::MAX as usize) + 3);
    assert_eq!(wrapped.channels_active, 2);
}

#[test]
fn discovered_nodes_with_refused_aliases_are_skipped() {
    let base = tempfile::Builder::new().prefix("beacon-restart").tempdir().unwrap();
    let base = base.path().to_str().unwrap().to_string();
    let discovered = vec![(LONG_ALIAS.to_string(), Ok(()))];
    let manager = BeaconNodeManager::new(base, discovered);
    assert_eq!(manager.node_count(), 0);
    assert!(manager.get_node(LONG_ALIAS).is_none());
}

// Starting a node needs the Esplora server of the test network; where it
// cannot be reached the start fails, and the failure must be reported with
// the start's own text and leave the manager as it was.
#[test]
fn two_creations_run_or_report_the_start_error() {
    let temp_dir = tempfile::Builder::new().prefix("beacon-node").tempdir().unwrap();
    let storage_dir = temp_dir.path().to_str().unwrap().to_string();
    let config = config_with_alias("beacon-node");
    let mut beacon_node_manager = BeaconNodeManager::new(storage_dir, Vec::new());

    let mut expected = 0;
    for name in ["node1", "node2"] {
        let before = beacon_node_manager.node_count();
        // The builder makes the storage directory itself.
        match beacon_node_manager.create_node(name.to_string(), config.clone(), Ok(())) {
            Ok(node) => {
                assert!(node.get_node_status().is_running);
                expected += 1;
            }
            Err(BeaconNodeError::StartNodeError(text)) => {
                assert!(!text.is_empty());
                assert_eq!(beacon_node_manager.node_count(), before);
            }
            Err(other) => panic!("unexpected error {:?}", other),
        }
        assert_eq!(beacon_node_manager.node_count(), expected);
    }
    for name in ["node1", "node2"] {
        if let Some(node) = beacon_node_manager.get_node(name) {
            assert!(node.get_node_status().is_running);
        }
    }
}
