use testing_framework::node_control::{
    node_name, NodeControlError, NodeRegistry, PeerSelection, StartNodeOptions,
};

#[test]
fn no_peers_resolves_to_empty() {
    let reg = NodeRegistry::new();
    assert_eq!(reg.resolve_peers(&PeerSelection::NoPeers), Ok(vec![]));
    let opts = StartNodeOptions::default();
    assert!(matches!(opts.peers, PeerSelection::NoPeers));
    assert!(opts.persist_dir.is_none() && opts.config_patch.is_none());
}

#[test]
fn named_peers_resolve_to_their_ports_in_order() {
    let mut reg = NodeRegistry::new();
    reg.start_node("node-a", 1, 3000).unwrap();
    reg.start_node("node-b", 2, 3100).unwrap();
    let sel = PeerSelection::Named(vec!["node-b".to_string(), "node-a".to_string()]);
    assert_eq!(reg.resolve_peers(&sel), Ok(vec![3100, 3000]));
}

#[test]
fn unknown_or_stopped_peer_is_reported() {
    let mut reg = NodeRegistry::new();
    reg.start_node("node-a", 1, 3000).unwrap();
    reg.start_node("node-b", 2, 3100).unwrap();
    reg.stop_node("node-b").unwrap();
    let sel = PeerSelection::Named(vec!["node-a".to_string(), "node-b".to_string(), "node-z".to_string()]);
    assert_eq!(
        reg.resolve_peers(&sel),
        Err(NodeControlError::UnknownPeer { name: "node-b".to_string() })
    );
    let sel = PeerSelection::Named(vec!["node-z".to_string()]);
    assert_eq!(
        reg.resolve_peers(&sel),
        Err(NodeControlError::UnknownPeer { name: "node-z".to_string() })
    );
}

#[test]
fn node_names_are_prefixed() {
    assert_eq!(node_name("c"), "node-c");
    assert_eq!(node_name(""), "node-");
}
