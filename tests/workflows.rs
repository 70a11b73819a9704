use testing_framework::workflows::{min_height_decision, start_node_timeout_error, HeightPollDecision, ManualTestError};

#[test]
fn min_height_reached_when_both_nodes_are_high_enough() {
    let results = vec![Ok(5), Ok(9)];
    assert_eq!(min_height_decision(&results, 5, 0, 500_000, 1_000), HeightPollDecision::Reached);
    assert_eq!(min_height_decision(&results, 5, 600_000, 500_000, 1_000), HeightPollDecision::Reached);
}

#[test]
fn min_height_waits_before_the_timeout() {
    let results = vec![Ok(4), Ok(9)];
    assert_eq!(
        min_height_decision(&results, 5, 10_000, 500_000, 1_000),
        HeightPollDecision::Retry { sleep_ms: 1_000 }
    );
    let results = vec![Ok(9), Err("refused".to_string())];
    assert_eq!(
        min_height_decision(&results, 5, 10_000, 500_000, 1_000),
        HeightPollDecision::Retry { sleep_ms: 1_000 }
    );
}

#[test]
fn min_height_timeout_names_last_heights() {
    let results = vec![Ok(3), Ok(4)];
    assert_eq!(
        min_height_decision(&results, 5, 500_000, 500_000, 1_000),
        HeightPollDecision::Failed(ManualTestError::Timeout {
            message: "min height 5 not reached before timeout; heights=[3, 4]".to_string()
        })
    );
    assert_eq!(
        min_height_decision(&vec![Ok(1234567890)], 18446744073709551615, 1, 1, 1),
        HeightPollDecision::Failed(ManualTestError::Timeout {
            message: "min height 18446744073709551615 not reached before timeout; heights=[1234567890]".to_string()
        })
    );
}

#[test]
fn min_height_timeout_with_failed_request_names_every_node() {
    let results = vec![Ok(3), Err("connection refused".to_string()), Ok(7)];
    assert_eq!(
        min_height_decision(&results, 5, 500_001, 500_000, 1_000),
        HeightPollDecision::Failed(ManualTestError::Timeout {
            message: "min height 5 not reached before timeout; heights=[3, error: connection refused, 7]".to_string()
        })
    );
    let results = vec![Ok(9), Err("later".to_string())];
    assert_eq!(
        min_height_decision(&results, 5, 500_000, 500_000, 1_000),
        HeightPollDecision::Failed(ManualTestError::Timeout {
            message: "min height 5 not reached before timeout; heights=[9, error: later]".to_string()
        })
    );
}

#[test]
fn no_nodes_have_trivially_reached() {
    assert_eq!(min_height_decision(&vec![], 5, 0, 1, 1), HeightPollDecision::Reached);
}

#[test]
fn start_timeout_names_the_node() {
    assert_eq!(
        start_node_timeout_error("c"),
        ManualTestError::Timeout { message: "starting node 'c' exceeded timeout".to_string() }
    );
}
