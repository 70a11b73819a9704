use testing_framework::chaos::{next_chaos_action, plan_next_restart, ChaosAction, ChaosConfigError, ChaosRestartBuilder};

#[test]
fn cooldown_longer_than_run_means_no_restarts() {
    let policy = ChaosRestartBuilder::restart()
        .min_delay(120_000)
        .max_delay(180_000)
        .target_cooldown(240_000)
        .apply()
        .unwrap();
    let run = 60_000;
    for elapsed in [0u64, 10_000, 59_999, 60_000] {
        assert_eq!(plan_next_restart(&policy, elapsed, run, 2), ChaosAction::Stop);
    }
}

#[test]
fn restarts_never_fire_inside_the_cooldown_window() {
    let policy = ChaosRestartBuilder::restart().min_delay(1_000).max_delay(5_000).target_cooldown(10_000).apply().unwrap();
    let run = 60_000u64;
    let mut elapsed = 0u64;
    let mut fired = Vec::new();
    while let ChaosAction::Restart { delay_ms, target } = plan_next_restart(&policy, elapsed, run, 3) {
        assert!((1_000..=5_000).contains(&delay_ms));
        assert!(target < 3);
        elapsed += delay_ms;
        fired.push(elapsed);
    }
    assert!(!fired.is_empty());
    for t in fired {
        assert!(t + 10_000 <= run, "restart at {t} falls within the cooldown");
    }
}

#[test]
fn drawn_delays_spread_over_the_range() {
    let policy = ChaosRestartBuilder::restart().min_delay(0).max_delay(1_000_000).target_cooldown(0).apply().unwrap();
    let mut delays = Vec::new();
    for _ in 0..20 {
        if let ChaosAction::Restart { delay_ms, .. } = plan_next_restart(&policy, 0, u64::MAX, 5) {
            delays.push(delay_ms);
        }
    }
    assert_eq!(delays.len(), 20);
    assert!(delays.iter().any(|d| *d != 0));
    assert!(delays.iter().any(|d| *d != 1_000_000));
}

#[test]
fn decision_from_drawn_values_is_exact() {
    let policy = ChaosRestartBuilder::restart().min_delay(100).max_delay(200).target_cooldown(300).apply().unwrap();
    assert_eq!(next_chaos_action(&policy, 0, 500, 2, 200, 1), ChaosAction::Restart { delay_ms: 200, target: 1 });
    assert_eq!(next_chaos_action(&policy, 1, 500, 2, 200, 1), ChaosAction::Stop);
    assert_eq!(next_chaos_action(&policy, 0, 500, 0, 100, 0), ChaosAction::Stop);
    assert_eq!(next_chaos_action(&policy, 600, 500, 2, 100, 0), ChaosAction::Stop);
}

#[test]
fn inverted_delay_range_is_rejected() {
    assert_eq!(
        ChaosRestartBuilder::restart().min_delay(5).max_delay(4).apply(),
        Err(ChaosConfigError::DelayRangeInverted { min_delay_ms: 5, max_delay_ms: 4 })
    );
    let p = ChaosRestartBuilder::restart().apply().unwrap();
    assert!(p.min_delay_ms <= p.max_delay_ms);
}
