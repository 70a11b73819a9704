//! Scenarios: a topology with node control, chaos, workloads, a run
//! duration and expectations, composed once and run once; the order in
//! which a run performs its steps, and how its result is judged.

use vstd::prelude::*;
use crate::chaos::{ChaosConfigError, ChaosPolicy};
use crate::topology::TopologyBuilder;

verus! {

#[derive(Clone, Copy, Debug, PartialEq, Eq, Structural)]
pub enum Workload {
    /// Submit transactions at `txs_per_block` from `users` wallets.
    Transactions { txs_per_block: u64, users: usize },
    /// Disperse blobs over `channel_rate` channels at `blob_rate` per block.
    DataAvailability { channel_rate: u64, blob_rate: u64 },
}

#[derive(Clone, Copy, Debug, PartialEq, Eq, Structural)]
pub enum Expectation {
    /// Every node keeps producing blocks.
    ConsensusLiveness,
}

/// One step of a scenario run, in the order performed.
#[derive(Clone, Copy, Debug, PartialEq, Eq, Structural)]
pub enum RunStep {
    StartChaos(ChaosPolicy),
    Workload(Workload),
    /// Evaluate an expectation within the given budget.
    Expect { expectation: Expectation, budget_ms: u64 },
}

#[derive(Clone, Copy, Debug, PartialEq, Eq, Structural)]
pub enum ScenarioBuildError {
    /// Chaos restarts nodes, which needs node control.
    ChaosWithoutNodeControl,
    Chaos(ChaosConfigError),
}

#[derive(Clone, Debug, PartialEq, Eq)]
pub enum RunError {
    /// The scenario was run before.
    AlreadyRun,
    /// The expectation at `index` failed for the given reason.
    ExpectationFailed { index: usize, message: String },
}

/// Why a deployment did not come up.
#[derive(Clone, Debug, PartialEq, Eq)]
pub enum DeployError {
    /// The backend itself (the container engine, the cluster) is out of
    /// reach, which is no fault of the scenario.
    BackendUnavailable { message: String },
    Failed { message: String },
}

#[derive(Clone, Debug, PartialEq, Eq)]
pub enum ScenarioOutcome {
    Passed,
    Failed { message: String },
    /// The scenario could not run for want of its backend.
    Skipped { message: String },
}

pub struct ScenarioBuilder {
    pub topology: TopologyBuilder,
    pub node_control: bool,
    pub chaos: Option<ChaosPolicy>,
    pub workloads: Vec<Workload>,
    pub expectations: Vec<Expectation>,
    pub run_duration_ms: u64,
    pub wallets: usize,
}

/// A composed scenario; it can be run once.
pub struct Scenario {
    topology: TopologyBuilder,
    node_control: bool,
    chaos: Option<ChaosPolicy>,
    workloads: Vec<Workload>,
    expectations: Vec<Expectation>,
    run_duration_ms: u64,
    wallets: usize,
    run_started: bool,
}

pub const DEFAULT_RUN_DURATION_MS: u64 = 60_000;

/// The steps of a run: chaos first when node control is on and a policy
/// is set, then the workloads in declaration order, then every
/// expectation, each with the whole run duration as its budget.
pub open spec fn run_steps(
    node_control: bool,
    chaos: Option<ChaosPolicy>,
    workloads: Seq<Workload>,
    expectations: Seq<Expectation>,
    run_duration_ms: u64,
) -> Seq<RunStep> {
    let head: Seq<RunStep> = if node_control && chaos is Some { seq![RunStep::StartChaos(chaos->Some_0)] } else { seq![] };
    head + workloads.map_values(|w: Workload| RunStep::Workload(w))
        + expectations.map_values(|e: Expectation| RunStep::Expect { expectation: e, budget_ms: run_duration_ms })
}

impl ScenarioBuilder {
    /// A scenario on the given topology, with no node control, chaos,
    /// workloads or expectations, running for the default duration.
    pub fn topology_with(topology: TopologyBuilder) -> (r: Self)
        ensures
            r.topology == topology,
            !r.node_control && r.chaos is None && r.workloads@.len() == 0 && r.expectations@.len() == 0,
            r.run_duration_ms == DEFAULT_RUN_DURATION_MS && r.wallets == 0,
    {
        ScenarioBuilder {
            topology,
            node_control: false,
            chaos: None,
            workloads: Vec::new(),
            expectations: Vec::new(),
            run_duration_ms: DEFAULT_RUN_DURATION_MS,
            wallets: 0,
        }
    }

    pub fn enable_node_control(self) -> (r: Self)
        ensures
            r == (ScenarioBuilder { node_control: true, ..self }),
    {
        ScenarioBuilder { node_control: true, ..self }
    }

    pub fn chaos(self, policy: ChaosPolicy) -> (r: Self)
        ensures
            r == (ScenarioBuilder { chaos: Some(policy), ..self }),
    {
        ScenarioBuilder { chaos: Some(policy), ..self }
    }

    /// Funds this many wallets at genesis.
    pub fn wallets(self, n: usize) -> (r: Self)
        ensures
            r == (ScenarioBuilder { wallets: n, ..self }),
    {
        ScenarioBuilder { wallets: n, ..self }
    }

    pub fn transactions(self, txs_per_block: u64, users: usize) -> (r: Self)
        ensures
            r.workloads@ == self.workloads@.push(Workload::Transactions { txs_per_block, users }),
            r.topology == self.topology && r.node_control == self.node_control && r.chaos == self.chaos,
            r.expectations == self.expectations && r.run_duration_ms == self.run_duration_ms && r.wallets == self.wallets,
    {
        let mut s = self;
        s.workloads.push(Workload::Transactions { txs_per_block, users });
        s
    }

    pub fn da(self, channel_rate: u64, blob_rate: u64) -> (r: Self)
        ensures
            r.workloads@ == self.workloads@.push(Workload::DataAvailability { channel_rate, blob_rate }),
            r.topology == self.topology && r.node_control == self.node_control && r.chaos == self.chaos,
            r.expectations == self.expectations && r.run_duration_ms == self.run_duration_ms && r.wallets == self.wallets,
    {
        let mut s = self;
        s.workloads.push(Workload::DataAvailability { channel_rate, blob_rate });
        s
    }

    pub fn with_run_duration(self, ms: u64) -> (r: Self)
        ensures
            r == (ScenarioBuilder { run_duration_ms: ms, ..self }),
    {
        ScenarioBuilder { run_duration_ms: ms, ..self }
    }

    pub fn expect_consensus_liveness(self) -> (r: Self)
        ensures
            r.expectations@ == self.expectations@.push(Expectation::ConsensusLiveness),
            r.topology == self.topology && r.node_control == self.node_control && r.chaos == self.chaos,
            r.workloads == self.workloads && r.run_duration_ms == self.run_duration_ms && r.wallets == self.wallets,
    {
        let mut s = self;
        s.expectations.push(Expectation::ConsensusLiveness);
        s
    }

    /// The scenario, unless chaos was asked for without node control or
    /// with an empty delay range.
    pub fn build(self) -> (r: Result<Scenario, ScenarioBuildError>)
        ensures
            self.chaos is Some && !self.node_control ==> r == Err::<Scenario, ScenarioBuildError>(
                ScenarioBuildError::ChaosWithoutNodeControl),
            self.chaos is Some && self.node_control && !self.chaos->Some_0.wf() ==> r == Err::<Scenario, ScenarioBuildError>(
                ScenarioBuildError::Chaos(ChaosConfigError::DelayRangeInverted {
                    min_delay_ms: self.chaos->Some_0.min_delay_ms,
                    max_delay_ms: self.chaos->Some_0.max_delay_ms,
                })),
            !(self.chaos is Some && !(self.node_control && self.chaos->Some_0.wf())) ==> (r matches Ok(s) && s.fresh()
                && s.planned_steps() == run_steps(self.node_control, self.chaos, self.workloads@,
                    self.expectations@, self.run_duration_ms)
                && s.run_duration() == self.run_duration_ms && s.topology_spec() == self.topology
                && s.node_control_spec() == self.node_control && s.wallets_spec() == self.wallets),
    {
        if let Some(policy) = self.chaos {
            if !self.node_control {
                return Err(ScenarioBuildError::ChaosWithoutNodeControl);
            }
            if policy.min_delay_ms > policy.max_delay_ms {
                return Err(ScenarioBuildError::Chaos(ChaosConfigError::DelayRangeInverted {
                    min_delay_ms: policy.min_delay_ms,
                    max_delay_ms: policy.max_delay_ms,
                }));
            }
        }
        let ScenarioBuilder { topology, node_control, chaos, workloads, expectations, run_duration_ms, wallets } = self;
        Ok(Scenario {
            topology,
            node_control,
            chaos,
            workloads,
            expectations,
            run_duration_ms,
            wallets,
            run_started: false,
        })
    }
}

impl Scenario {
    /// The scenario has not been run.
    pub closed spec fn fresh(&self) -> bool {
        !self.run_started
    }

    pub closed spec fn planned_steps(&self) -> Seq<RunStep> {
        run_steps(self.node_control, self.chaos, self.workloads@, self.expectations@, self.run_duration_ms)
    }

    pub closed spec fn run_duration(&self) -> u64 {
        self.run_duration_ms
    }

    pub closed spec fn topology_spec(&self) -> TopologyBuilder {
        self.topology
    }

    pub closed spec fn node_control_spec(&self) -> bool {
        self.node_control
    }

    pub closed spec fn wallets_spec(&self) -> usize {
        self.wallets
    }

    pub fn topology(&self) -> (r: &TopologyBuilder)
        ensures
            *r == self.topology_spec(),
    {
        &self.topology
    }

    pub fn node_control_enabled(&self) -> (r: bool)
        ensures
            r == self.node_control_spec(),
    {
        self.node_control
    }

    pub fn wallet_count(&self) -> (r: usize)
        ensures
            r == self.wallets_spec(),
    {
        self.wallets
    }

    pub fn duration_ms(&self) -> (r: u64)
        ensures
            r == self.run_duration(),
    {
        self.run_duration_ms
    }

    /// Starts the one run of this scenario and returns its steps in
    /// order; a second run is refused.
    pub fn begin_run(&mut self) -> (r: Result<Vec<RunStep>, RunError>)
        ensures
            !final(self).fresh(),
            final(self).planned_steps() == old(self).planned_steps(),
            final(self).run_duration() == old(self).run_duration(),
            old(self).fresh() ==> (r matches Ok(steps) && steps@ == old(self).planned_steps()),
            !old(self).fresh() ==> r == Err::<Vec<RunStep>, RunError>(RunError::AlreadyRun),
    {
        if self.run_started {
            return Err(RunError::AlreadyRun);
        }
        self.run_started = true;
        let mut steps: Vec<RunStep> = Vec::new();
        if self.node_control {
            if let Some(policy) = self.chaos {
                steps.push(RunStep::StartChaos(policy));
            }
        }
        let ghost head = steps@;
        let mut i: usize = 0;
        while i < self.workloads.len()
            invariant
                0 <= i <= self.workloads@.len(),
                steps@ == head + self.workloads@.subrange(0, i as int).map_values(|w: Workload| RunStep::Workload(w)),
            decreases self.workloads@.len() - i,
        {
            steps.push(RunStep::Workload(self.workloads[i]));
            i = i + 1;
            assert(steps@ =~= head + self.workloads@.subrange(0, i as int).map_values(|w: Workload| RunStep::Workload(w)));
        }
        assert(self.workloads@.subrange(0, self.workloads@.len() as int) =~= self.workloads@);
        let ghost mid = steps@;
        let mut k: usize = 0;
        while k < self.expectations.len()
            invariant
                0 <= k <= self.expectations@.len(),
                steps@ == mid + self.expectations@.subrange(0, k as int).map_values(
                    |e: Expectation| RunStep::Expect { expectation: e, budget_ms: self.run_duration_ms }),
            decreases self.expectations@.len() - k,
        {
            steps.push(RunStep::Expect { expectation: self.expectations[k], budget_ms: self.run_duration_ms });
            k = k + 1;
            assert(steps@ =~= mid + self.expectations@.subrange(0, k as int).map_values(
                |e: Expectation| RunStep::Expect { expectation: e, budget_ms: self.run_duration_ms }));
        }
        assert(self.expectations@.subrange(0, self.expectations@.len() as int) =~= self.expectations@);
        assert(steps@ =~= self.planned_steps());
        Ok(steps)
    }
}

/// The verdict of a run from its expectations' outcomes, in order: it
/// passes only if every expectation passed, and otherwise names the
/// first that failed.
pub fn evaluate_expectations(outcomes: &Vec<Result<(), String>>) -> (r: Result<(), RunError>)
    ensures
        r is Ok <==> forall|i: int| 0 <= i < outcomes@.len() ==> #[trigger] outcomes@[i] is Ok,
        r matches Err(RunError::ExpectationFailed { index, message }) ==> index < outcomes@.len()
            && outcomes@[index as int] is Err && message == outcomes@[index as int]->Err_0
            && forall|j: int| 0 <= j < index ==> #[trigger] outcomes@[j] is Ok,
        !(r matches Err(RunError::AlreadyRun)),
{
    let mut i: usize = 0;
    while i < outcomes.len()
        invariant
            0 <= i <= outcomes@.len(),
            forall|j: int| 0 <= j < i ==> #[trigger] outcomes@[j] is Ok,
        decreases outcomes@.len() - i,
    {
        match &outcomes[i] {
            Ok(()) => {},
            Err(message) => {
                return Err(RunError::ExpectationFailed { index: i, message: message.clone() });
            },
        }
        i = i + 1;
    }
    Ok(())
}

/// How a scenario whose deployment failed is reported: skipped when the
/// backend was out of reach, failed otherwise.
pub fn outcome_of_deploy_failure(e: DeployError) -> (r: ScenarioOutcome)
    ensures
        e matches DeployError::BackendUnavailable { message } ==> r == (ScenarioOutcome::Skipped { message }),
        e matches DeployError::Failed { message } ==> r == (ScenarioOutcome::Failed { message }),
{
    match e {
        DeployError::BackendUnavailable { message } => ScenarioOutcome::Skipped { message },
        DeployError::Failed { message } => ScenarioOutcome::Failed { message },
    }
}

} // verus!
