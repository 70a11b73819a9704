//! Chaos injection: a restart policy and the decision, before each
//! cycle, of whether and whom to restart. A restart is only scheduled
//! when it fires at least the policy's cooldown before the run ends.

use vstd::prelude::*;

verus! {

/// Randomly timed node restarts.
#[derive(Clone, Copy, Debug, PartialEq, Eq, Structural)]
pub struct ChaosPolicy {
    pub min_delay_ms: u64,
    pub max_delay_ms: u64,
    /// No restart fires within this long of the end of the run.
    pub target_cooldown_ms: u64,
}

impl ChaosPolicy {
    pub open spec fn wf(&self) -> bool {
        self.min_delay_ms <= self.max_delay_ms
    }
}

#[derive(Clone, Copy, Debug, PartialEq, Eq, Structural)]
pub enum ChaosConfigError {
    /// The shortest delay exceeds the longest.
    DelayRangeInverted { min_delay_ms: u64, max_delay_ms: u64 },
}

pub const DEFAULT_CHAOS_MIN_DELAY_MS: u64 = 10_000;
pub const DEFAULT_CHAOS_MAX_DELAY_MS: u64 = 30_000;
pub const DEFAULT_CHAOS_COOLDOWN_MS: u64 = 60_000;

/// Builder of a restart policy.
#[derive(Clone, Copy, Debug, PartialEq, Eq, Structural)]
pub struct ChaosRestartBuilder {
    pub min_delay_ms: u64,
    pub max_delay_ms: u64,
    pub target_cooldown_ms: u64,
}

impl ChaosRestartBuilder {
    /// A restart policy with the default delays and cooldown.
    pub fn restart() -> (r: Self)
        ensures
            r.min_delay_ms == DEFAULT_CHAOS_MIN_DELAY_MS,
            r.max_delay_ms == DEFAULT_CHAOS_MAX_DELAY_MS,
            r.target_cooldown_ms == DEFAULT_CHAOS_COOLDOWN_MS,
    {
        ChaosRestartBuilder {
            min_delay_ms: DEFAULT_CHAOS_MIN_DELAY_MS,
            max_delay_ms: DEFAULT_CHAOS_MAX_DELAY_MS,
            target_cooldown_ms: DEFAULT_CHAOS_COOLDOWN_MS,
        }
    }

    pub fn min_delay(self, ms: u64) -> (r: Self)
        ensures
            r == (ChaosRestartBuilder { min_delay_ms: ms, ..self }),
    {
        ChaosRestartBuilder { min_delay_ms: ms, ..self }
    }

    pub fn max_delay(self, ms: u64) -> (r: Self)
        ensures
            r == (ChaosRestartBuilder { max_delay_ms: ms, ..self }),
    {
        ChaosRestartBuilder { max_delay_ms: ms, ..self }
    }

    pub fn target_cooldown(self, ms: u64) -> (r: Self)
        ensures
            r == (ChaosRestartBuilder { target_cooldown_ms: ms, ..self }),
    {
        ChaosRestartBuilder { target_cooldown_ms: ms, ..self }
    }

    /// The policy, unless its delay range is empty.
    pub fn apply(self) -> (r: Result<ChaosPolicy, ChaosConfigError>)
        ensures
            self.min_delay_ms <= self.max_delay_ms ==> r == Ok::<ChaosPolicy, ChaosConfigError>(ChaosPolicy {
                min_delay_ms: self.min_delay_ms,
                max_delay_ms: self.max_delay_ms,
                target_cooldown_ms: self.target_cooldown_ms,
            }),
            self.min_delay_ms > self.max_delay_ms ==> r == Err::<ChaosPolicy, ChaosConfigError>(
                ChaosConfigError::DelayRangeInverted { min_delay_ms: self.min_delay_ms, max_delay_ms: self.max_delay_ms }),
            r matches Ok(p) ==> p.wf(),
    {
        if self.min_delay_ms > self.max_delay_ms {
            return Err(ChaosConfigError::DelayRangeInverted {
                min_delay_ms: self.min_delay_ms,
                max_delay_ms: self.max_delay_ms,
            });
        }
        Ok(ChaosPolicy {
            min_delay_ms: self.min_delay_ms,
            max_delay_ms: self.max_delay_ms,
            target_cooldown_ms: self.target_cooldown_ms,
        })
    }
}

#[derive(Clone, Copy, Debug, PartialEq, Eq, Structural)]
pub enum ChaosAction {
    /// Sleep `delay_ms`, then restart node `target`.
    Restart { delay_ms: u64, target: usize },
    /// Schedule no further restarts in this run.
    Stop,
}

/// The cycle that starts at `elapsed_ms` into a run of `run_duration_ms`,
/// with drawn delay `delay_ms` and drawn node index `target`: the restart
/// goes ahead only if there are nodes and it fires no later than the
/// cooldown before the end of the run.
pub open spec fn chaos_decision(
    policy: ChaosPolicy,
    elapsed_ms: u64,
    run_duration_ms: u64,
    n_nodes: usize,
    delay_ms: u64,
    target: usize,
) -> ChaosAction {
    if n_nodes > 0 && elapsed_ms + delay_ms + policy.target_cooldown_ms <= run_duration_ms {
        ChaosAction::Restart { delay_ms, target }
    } else {
        ChaosAction::Stop
    }
}

/// Every restart that is scheduled fires at least the cooldown before the
/// end of the run, after a delay within the policy's range, on an existing
/// node; so a policy whose cooldown exceeds the run never restarts anything.
pub proof fn chaos_restarts_respect_cooldown(
    policy: ChaosPolicy,
    elapsed_ms: u64,
    run_duration_ms: u64,
    n_nodes: usize,
    delay_ms: u64,
    target: usize,
)
    requires
        policy.wf(),
        policy.min_delay_ms <= delay_ms <= policy.max_delay_ms,
        n_nodes > 0 ==> target < n_nodes,
    ensures
        chaos_decision(policy, elapsed_ms, run_duration_ms, n_nodes, delay_ms, target) matches
            ChaosAction::Restart { delay_ms: d, target: t } ==> {
                &&& elapsed_ms + d + policy.target_cooldown_ms <= run_duration_ms
                &&& run_duration_ms - (elapsed_ms + d) >= policy.target_cooldown_ms
                &&& policy.min_delay_ms <= d <= policy.max_delay_ms
                &&& t < n_nodes
            },
        policy.target_cooldown_ms > run_duration_ms
            ==> chaos_decision(policy, elapsed_ms, run_duration_ms, n_nodes, delay_ms, target) == ChaosAction::Stop,
{
}

/// Relies on rand::Rng::gen_range over an inclusive range: a value drawn
/// uniformly from `[low, high]`; it panics only on an empty range.
#[verifier::external_body]
fn draw_between(low: u64, high: u64) -> (r: u64)
    requires
        low <= high,
    ensures
        low <= r <= high,
{
    rand::Rng::gen_range(&mut rand::thread_rng(), low..=high)
}

/// Decides one chaos cycle from drawn values.
pub fn next_chaos_action(
    policy: &ChaosPolicy,
    elapsed_ms: u64,
    run_duration_ms: u64,
    n_nodes: usize,
    delay_ms: u64,
    target: usize,
) -> (r: ChaosAction)
    ensures
        r == chaos_decision(*policy, elapsed_ms, run_duration_ms, n_nodes, delay_ms, target),
{
    if n_nodes == 0 {
        return ChaosAction::Stop;
    }
    let remaining: u64 = if run_duration_ms >= elapsed_ms { run_duration_ms - elapsed_ms } else { 0 };
    if run_duration_ms < elapsed_ms || delay_ms > remaining || policy.target_cooldown_ms > remaining - delay_ms {
        return ChaosAction::Stop;
    }
    ChaosAction::Restart { delay_ms, target }
}

/// Decides one chaos cycle, drawing the delay uniformly from the policy's
/// range and the target uniformly from the nodes.
pub fn plan_next_restart(policy: &ChaosPolicy, elapsed_ms: u64, run_duration_ms: u64, n_nodes: usize) -> (r: ChaosAction)
    requires
        policy.wf(),
    ensures
        exists|d: u64, t: usize| policy.min_delay_ms <= d <= policy.max_delay_ms && (n_nodes > 0 ==> t < n_nodes)
            && r == chaos_decision(*policy, elapsed_ms, run_duration_ms, n_nodes, d, t),
        n_nodes == 0 || elapsed_ms + policy.min_delay_ms + policy.target_cooldown_ms > run_duration_ms
            ==> r == ChaosAction::Stop,
{
    let delay_ms = draw_between(policy.min_delay_ms, policy.max_delay_ms);
    let target: usize = if n_nodes > 0 { draw_between(0, (n_nodes - 1) as u64) as usize } else { 0 };
    next_chaos_action(policy, elapsed_ms, run_duration_ms, n_nodes, delay_ms, target)
}

} // verus!
