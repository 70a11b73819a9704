use testing_framework::chaos::ChaosRestartBuilder;
use testing_framework::cluster::{node_teardown_plan, should_persist_tempdir, BinaryResolver, TeardownPlan};
use testing_framework::scenario::{
    evaluate_expectations, outcome_of_deploy_failure, DeployError, Expectation, RunError, RunStep,
    ScenarioBuildError, ScenarioBuilder, ScenarioOutcome, Workload,
};
use testing_framework::topology::{TopologyBuilder, TopologyConfig};

fn topo() -> TopologyBuilder {
    TopologyBuilder::new(TopologyConfig::with_node_numbers(1, 1))
}

#[test]
fn run_steps_follow_declaration_order() {
    let policy = ChaosRestartBuilder::restart().min_delay(120_000).max_delay(180_000).target_cooldown(240_000).apply().unwrap();
    let mut s = ScenarioBuilder::topology_with(topo())
        .enable_node_control()
        .chaos(policy)
        .wallets(1000)
        .transactions(5, 500)
        .da(1, 1)
        .with_run_duration(60_000)
        .expect_consensus_liveness()
        .build()
        .ok()
        .unwrap();
    assert_eq!(s.duration_ms(), 60_000);
    assert_eq!(s.wallet_count(), 1000);
    assert!(s.node_control_enabled());
    let steps = s.begin_run().unwrap();
    assert_eq!(
        steps,
        vec![
            RunStep::StartChaos(policy),
            RunStep::Workload(Workload::Transactions { txs_per_block: 5, users: 500 }),
            RunStep::Workload(Workload::DataAvailability { channel_rate: 1, blob_rate: 1 }),
            RunStep::Expect { expectation: Expectation::ConsensusLiveness, budget_ms: 60_000 },
        ]
    );
    assert_eq!(s.begin_run(), Err(RunError::AlreadyRun));
}

#[test]
fn chaos_needs_node_control() {
    let policy = ChaosRestartBuilder::restart().apply().unwrap();
    let r = ScenarioBuilder::topology_with(topo()).chaos(policy).build();
    assert_eq!(r.err(), Some(ScenarioBuildError::ChaosWithoutNodeControl));
}

#[test]
fn inverted_chaos_policy_is_rejected() {
    let policy = testing_framework::chaos::ChaosPolicy { min_delay_ms: 9, max_delay_ms: 3, target_cooldown_ms: 0 };
    let r = ScenarioBuilder::topology_with(topo()).enable_node_control().chaos(policy).build();
    assert_eq!(
        r.err(),
        Some(ScenarioBuildError::Chaos(testing_framework::chaos::ChaosConfigError::DelayRangeInverted {
            min_delay_ms: 9,
            max_delay_ms: 3
        }))
    );
}

#[test]
fn plain_scenario_runs_only_expectations() {
    let mut s = ScenarioBuilder::topology_with(topo()).expect_consensus_liveness().build().ok().unwrap();
    assert_eq!(
        s.begin_run().unwrap(),
        vec![RunStep::Expect { expectation: Expectation::ConsensusLiveness, budget_ms: 60_000 }]
    );
}

#[test]
fn run_passes_only_when_every_expectation_passes() {
    assert_eq!(evaluate_expectations(&vec![Ok(()), Ok(())]), Ok(()));
    assert_eq!(evaluate_expectations(&vec![]), Ok(()));
    assert_eq!(
        evaluate_expectations(&vec![Ok(()), Err("stalled at 3".to_string()), Err("x".to_string())]),
        Err(RunError::ExpectationFailed { index: 1, message: "stalled at 3".to_string() })
    );
}

#[test]
fn unavailable_backend_is_a_skip() {
    assert_eq!(
        outcome_of_deploy_failure(DeployError::BackendUnavailable { message: "docker".to_string() }),
        ScenarioOutcome::Skipped { message: "docker".to_string() }
    );
    assert_eq!(
        outcome_of_deploy_failure(DeployError::Failed { message: "bad".to_string() }),
        ScenarioOutcome::Failed { message: "bad".to_string() }
    );
}

#[test]
fn persist_dir_survives_cluster_teardown() {
    let plan = node_teardown_plan(Some("/tmp/test-node-persist-dir".to_string()), false, false);
    assert_eq!(
        plan,
        TeardownPlan { copy_to: Some("/tmp/test-node-persist-dir".to_string()), keep_workdir: false }
    );
    assert_eq!(node_teardown_plan(None, true, false), TeardownPlan { copy_to: None, keep_workdir: true });
    assert!(should_persist_tempdir(false, true));
    assert!(!should_persist_tempdir(false, false));
}

#[test]
fn binary_path_preference() {
    let s = |x: &str| x.to_string();
    assert_eq!(BinaryResolver::resolve_path(Some(s("/env")), Some(s("/path")), s("/shared"), true, s("/fb")), "/env");
    assert_eq!(BinaryResolver::resolve_path(None, Some(s("/path")), s("/shared"), true, s("/fb")), "/path");
    assert_eq!(BinaryResolver::resolve_path(None, None, s("/shared"), true, s("/fb")), "/shared");
    assert_eq!(BinaryResolver::resolve_path(None, None, s("/shared"), false, s("/fb")), "/fb");
}
