use testing_framework::node_control::{NodeControlError, NodeRegistry};

#[test]
fn local_restart_node() {
    let mut control = NodeRegistry::new();
    let node_name = "node-0";
    control.start_node(node_name, 4100, 3000).unwrap();
    let old_pid = control.node_pid(node_name).expect("missing node pid");

    control.restart_node(node_name, 4200).unwrap();

    let new_pid = control.node_pid(node_name).expect("missing node pid");
    assert_ne!(old_pid, new_pid, "expected a new process after restart");

    control.stop_node(node_name).unwrap();
    assert!(
        control.node_pid(node_name).is_none(),
        "expected node pid to be absent after stop"
    );
}

#[test]
fn manual_cluster_restart_node() {
    let mut cluster = NodeRegistry::new();
    let node_name = testing_framework::node_control::node_name("a");
    assert_eq!(node_name, "node-a");
    cluster.start_node(&node_name, 7, 3001).unwrap();

    let old_pid = cluster.node_pid(&node_name).expect("missing node pid");

    assert_eq!(cluster.restart_target(&node_name), Ok(old_pid));
    assert_eq!(cluster.restart_node(&node_name, 8), Ok(7));

    let new_pid = cluster.node_pid(&node_name).expect("missing node pid");
    assert_ne!(old_pid, new_pid, "expected a new process after restart");

    cluster.stop_node(&node_name).unwrap();
    assert!(
        cluster.node_pid(&node_name).is_none(),
        "expected node pid to be absent after stop"
    );
}

#[test]
fn restart_of_stopped_node_fails() {
    let mut reg = NodeRegistry::new();
    reg.start_node("node-0", 1, 3000).unwrap();
    reg.stop_node("node-0").unwrap();
    assert_eq!(
        reg.restart_node("node-0", 2),
        Err(NodeControlError::NodeNotRunning { name: "node-0".to_string() })
    );
    assert_eq!(reg.node_pid("node-0"), None);
    assert_eq!(
        reg.restart_target("node-0"),
        Err(NodeControlError::NodeNotRunning { name: "node-0".to_string() })
    );
}

#[test]
fn restart_reporting_same_pid_is_refused() {
    let mut reg = NodeRegistry::new();
    reg.start_node("n", 5, 3000).unwrap();
    assert_eq!(
        reg.restart_node("n", 5),
        Err(NodeControlError::SameIdentifier { name: "n".to_string(), pid: 5 })
    );
    assert_eq!(reg.node_pid("n"), Some(5));
}

#[test]
fn never_started_node_has_no_pid() {
    let mut reg = NodeRegistry::new();
    assert_eq!(reg.node_pid("ghost"), None);
    assert_eq!(
        reg.stop_node("ghost"),
        Err(NodeControlError::NodeNotRunning { name: "ghost".to_string() })
    );
    assert_eq!(
        reg.restart_node("ghost", 9),
        Err(NodeControlError::NodeNotRunning { name: "ghost".to_string() })
    );
}

#[test]
fn stop_twice_fails_the_second_time() {
    let mut reg = NodeRegistry::new();
    reg.start_node("x", 11, 3000).unwrap();
    assert_eq!(reg.stop_node("x"), Ok(11));
    assert_eq!(
        reg.stop_node("x"),
        Err(NodeControlError::NodeNotRunning { name: "x".to_string() })
    );
}

#[test]
fn starting_a_name_twice_fails() {
    let mut reg = NodeRegistry::new();
    reg.start_node("x", 1, 3000).unwrap();
    assert_eq!(
        reg.start_node("x", 2, 3001),
        Err(NodeControlError::AlreadyStarted { name: "x".to_string() })
    );
    assert_eq!(reg.node_pid("x"), Some(1));
}
