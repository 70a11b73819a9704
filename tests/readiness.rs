use testing_framework::readiness::{
    ManualNetworkReadiness, ManualNetworkStatus, NetworkInfo, PollDecision, ReadinessNode, ReadinessPoll,
};

fn status(label: &str, expected: Option<usize>, result: Result<usize, &str>) -> ManualNetworkStatus {
    ManualNetworkStatus {
        label: label.to_string(),
        expected_peers: expected,
        result: result.map(|n_peers| NetworkInfo { n_peers }).map_err(|e| e.to_string()),
    }
}

#[test]
fn ready_snapshot_ends_the_wait_at_once() {
    let poll = ReadinessPoll::new(10_000, 1_000);
    assert_eq!(poll.decide(true, 0), PollDecision::Ready);
    assert_eq!(poll.decide(true, 50_000), PollDecision::Ready);
}

#[test]
fn unready_wait_times_out_exactly_at_the_deadline() {
    let poll = ReadinessPoll::new(2_500, 1_000);
    let mut elapsed = 0u64;
    let mut sleeps = Vec::new();
    loop {
        match poll.decide(false, elapsed) {
            PollDecision::Retry { sleep_ms } => {
                sleeps.push(sleep_ms);
                elapsed += sleep_ms;
            }
            PollDecision::TimedOut => break,
            PollDecision::Ready => panic!("never ready"),
        }
    }
    assert_eq!(elapsed, 2_500);
    assert_eq!(sleeps, vec![1_000, 1_000, 500]);
}

#[test]
fn late_collection_times_out_without_sleeping() {
    let poll = ReadinessPoll::new(1_000, 300);
    assert_eq!(poll.decide(false, 1_200), PollDecision::TimedOut);
    assert_eq!(poll.decide(false, 999), PollDecision::Retry { sleep_ms: 1 });
}

#[test]
fn network_ready_only_when_every_node_sees_its_peers() {
    let check = ManualNetworkReadiness::new(vec![ReadinessNode { label: "node-a".to_string(), expected_peers: Some(1) }]);
    assert_eq!(check.nodes.len(), 1);
    assert!(check.is_ready(&vec![status("a", Some(1), Ok(1)), status("b", Some(2), Ok(3))]));
    assert!(!check.is_ready(&vec![status("a", Some(1), Ok(1)), status("b", Some(2), Ok(1))]));
    assert!(!check.is_ready(&vec![status("a", None, Ok(5))]));
    assert!(!check.is_ready(&vec![status("a", Some(0), Err("down"))]));
    assert!(check.is_ready(&vec![]));
}

#[test]
fn timeout_message_lists_every_node() {
    let check = ManualNetworkReadiness::new(vec![]);
    let msg = check.timeout_message(vec![
        status("node-a", Some(2), Ok(1)),
        status("node-b", None, Ok(12)),
        status("node-c", Some(1), Err("network_info request timed out")),
    ]);
    assert_eq!(
        msg,
        "timed out waiting for network readiness: node-a (peers 1/2), node-b (peers 12/0), node-c (error: network_info request timed out)"
    );
    assert_eq!(check.timeout_message(vec![]), "timed out waiting for network readiness: ");
}
