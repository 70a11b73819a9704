//! Topology description and its builder: node counts and parameters go in,
//! validated node descriptors with unique identities and ports come out.

use vstd::prelude::*;
use crate::configs::{
    build_base_configs, base_config_error, default_da_params, general_config_of, BaseConfigError,
    BaseConfigs, ConsensusParams, DaParams, DaPolicySettings, GeneralConfig, Libp2pNetworkLayout,
    NetworkParams, WalletConfig,
};
use crate::resolve::{
    ids_distinct, opt_view, ports_distinct, resolve_ids, resolve_ports, resolved_ports,
    validate_generated_vectors, AllocatedPorts, PortKind, TopologyInvariantError, TopologyResolveError,
};

verus! {

pub const DEFAULT_DA_BALANCER_INTERVAL_SECS: u64 = 1;
pub const VALIDATOR_EXECUTOR_DA_BALANCER_INTERVAL_SECS: u64 = 5;

#[derive(Clone, Copy, Debug, PartialEq, Eq, Structural)]
pub enum NodeRole {
    Validator,
    Executor,
}

/// High-level topology settings from which node descriptors are generated.
#[derive(Clone, Debug)]
pub struct TopologyConfig {
    pub n_validators: usize,
    pub n_executors: usize,
    pub consensus_params: ConsensusParams,
    pub da_params: DaParams,
    pub network_params: NetworkParams,
    pub wallet_config: WalletConfig,
}

/// The data-availability parameters chosen for `p` participants.
pub open spec fn node_numbers_da_params(p: nat) -> DaParams {
    let d = default_da_params();
    if p <= 1 {
        DaParams {
            subnetwork_size: 1,
            num_subnets: 1,
            dispersal_factor: 1,
            policy_settings: DaPolicySettings {
                min_dispersal_peers: 0,
                min_replication_peers: 0,
                ..d.policy_settings
            },
            ..d
        }
    } else {
        let dispersal = vstd::math::min(p as int, vstd::math::max(d.dispersal_factor as int, 2));
        let subnetwork_size = vstd::math::max(d.subnetwork_size as int, dispersal);
        let min_peers = vstd::math::max(dispersal - 1, 1);
        DaParams {
            dispersal_factor: dispersal as usize,
            subnetwork_size: subnetwork_size as usize,
            num_subnets: subnetwork_size as u16,
            policy_settings: DaPolicySettings {
                min_dispersal_peers: min_peers as usize,
                min_replication_peers: min_peers as usize,
                ..d.policy_settings
            },
            balancer_interval_secs: DEFAULT_DA_BALANCER_INTERVAL_SECS,
        }
    }
}

impl TopologyConfig {
    /// A config with zero nodes; counts must be set before building.
    pub fn empty() -> (r: Self)
        ensures
            r.n_validators == 0 && r.n_executors == 0,
            r.consensus_params.n_participants == 1,
            r.da_params == default_da_params(),
            r.network_params.libp2p_network_layout == Libp2pNetworkLayout::Star,
            r.wallet_config.accounts@.len() == 0,
    {
        TopologyConfig {
            n_validators: 0,
            n_executors: 0,
            consensus_params: ConsensusParams::default_for_participants(1),
            da_params: DaParams::default(),
            network_params: NetworkParams::default(),
            wallet_config: WalletConfig::default(),
        }
    }

    /// Two validators, for consensus-only scenarios.
    pub fn two_validators() -> (r: Self)
        ensures
            r.n_validators == 2 && r.n_executors == 0,
            r.consensus_params.n_participants == 2,
            r.da_params == default_da_params(),
            r.network_params.libp2p_network_layout == Libp2pNetworkLayout::Star,
            r.wallet_config.accounts@.len() == 0,
    {
        TopologyConfig {
            n_validators: 2,
            n_executors: 0,
            consensus_params: ConsensusParams::default_for_participants(2),
            da_params: DaParams::default(),
            network_params: NetworkParams::default(),
            wallet_config: WalletConfig::default(),
        }
    }

    /// One validator and one executor, the smallest dual-role setup.
    pub fn validator_and_executor() -> (r: Self)
        ensures
            r.n_validators == 1 && r.n_executors == 1,
            r.consensus_params.n_participants == 2,
            r.da_params == (DaParams {
                dispersal_factor: 2,
                subnetwork_size: 2,
                num_subnets: 2,
                policy_settings: DaPolicySettings {
                    min_dispersal_peers: 1,
                    min_replication_peers: 1,
                    max_dispersal_failures: 0,
                    max_sampling_failures: 0,
                    max_replication_failures: 0,
                    malicious_threshold: 0,
                },
                balancer_interval_secs: DEFAULT_DA_BALANCER_INTERVAL_SECS,
            }),
            r.network_params.libp2p_network_layout == Libp2pNetworkLayout::Star,
            r.wallet_config.accounts@.len() == 0,
    {
        TopologyConfig {
            n_validators: 1,
            n_executors: 1,
            consensus_params: ConsensusParams::default_for_participants(2),
            da_params: DaParams {
                dispersal_factor: 2,
                subnetwork_size: 2,
                num_subnets: 2,
                policy_settings: DaPolicySettings {
                    min_dispersal_peers: 1,
                    min_replication_peers: 1,
                    max_dispersal_failures: 0,
                    max_sampling_failures: 0,
                    max_replication_failures: 0,
                    malicious_threshold: 0,
                },
                balancer_interval_secs: DEFAULT_DA_BALANCER_INTERVAL_SECS,
            },
            network_params: NetworkParams::default(),
            wallet_config: WalletConfig::default(),
        }
    }

    /// A topology with explicit validator and executor counts, whose
    /// data-availability parameters are scaled to the participant count.
    pub fn with_node_numbers(validators: usize, executors: usize) -> (r: Self)
        requires
            validators + executors <= usize::MAX,
        ensures
            r.n_validators == validators && r.n_executors == executors,
            r.consensus_params.n_participants == validators + executors,
            r.da_params == node_numbers_da_params((validators + executors) as nat),
            r.network_params.libp2p_network_layout == Libp2pNetworkLayout::Star,
            r.wallet_config.accounts@.len() == 0,
    {
        let participants = validators + executors;
        let mut da_params = DaParams::default();
        if participants <= 1 {
            da_params.subnetwork_size = 1;
            da_params.num_subnets = 1;
            da_params.dispersal_factor = 1;
            da_params.policy_settings.min_dispersal_peers = 0;
            da_params.policy_settings.min_replication_peers = 0;
        } else {
            let floor = if da_params.dispersal_factor > 2 { da_params.dispersal_factor } else { 2 };
            let dispersal = if participants < floor { participants } else { floor };
            da_params.dispersal_factor = dispersal;
            if da_params.subnetwork_size < dispersal {
                da_params.subnetwork_size = dispersal;
            }
            da_params.num_subnets = da_params.subnetwork_size as u16;
            let below = if dispersal > 0 { dispersal - 1 } else { 0 };
            let min_peers = if below > 1 { below } else { 1 };
            da_params.policy_settings.min_dispersal_peers = min_peers;
            da_params.policy_settings.min_replication_peers = min_peers;
            da_params.balancer_interval_secs = DEFAULT_DA_BALANCER_INTERVAL_SECS;
        }
        TopologyConfig {
            n_validators: validators,
            n_executors: executors,
            consensus_params: ConsensusParams::default_for_participants(participants),
            da_params,
            network_params: NetworkParams::default(),
            wallet_config: WalletConfig::default(),
        }
    }

    /// One executor beside `num_validators` validators, with explicit
    /// subnet count and dispersal factor.
    pub fn validators_and_executor(num_validators: usize, num_subnets: usize, dispersal_factor: usize) -> (r: Self)
        requires
            num_validators < usize::MAX,
            dispersal_factor >= 1,
        ensures
            r.n_validators == num_validators && r.n_executors == 1,
            r.consensus_params.n_participants == num_validators + 1,
            r.da_params == (DaParams {
                dispersal_factor,
                subnetwork_size: num_subnets,
                num_subnets: num_subnets as u16,
                policy_settings: DaPolicySettings {
                    min_dispersal_peers: num_subnets,
                    min_replication_peers: (dispersal_factor - 1) as usize,
                    max_dispersal_failures: 0,
                    max_sampling_failures: 0,
                    max_replication_failures: 0,
                    malicious_threshold: 0,
                },
                balancer_interval_secs: VALIDATOR_EXECUTOR_DA_BALANCER_INTERVAL_SECS,
            }),
            r.network_params.libp2p_network_layout == Libp2pNetworkLayout::Star,
            r.wallet_config.accounts@.len() == 0,
    {
        TopologyConfig {
            n_validators: num_validators,
            n_executors: 1,
            consensus_params: ConsensusParams::default_for_participants(num_validators + 1),
            da_params: DaParams {
                dispersal_factor,
                subnetwork_size: num_subnets,
                num_subnets: num_subnets as u16,
                policy_settings: DaPolicySettings {
                    min_dispersal_peers: num_subnets,
                    min_replication_peers: dispersal_factor - 1,
                    max_dispersal_failures: 0,
                    max_sampling_failures: 0,
                    max_replication_failures: 0,
                    malicious_threshold: 0,
                },
                balancer_interval_secs: VALIDATOR_EXECUTOR_DA_BALANCER_INTERVAL_SECS,
            },
            network_params: NetworkParams::default(),
            wallet_config: WalletConfig::default(),
        }
    }

    pub fn wallet(&self) -> (r: &WalletConfig)
        ensures
            *r == self.wallet_config,
    {
        &self.wallet_config
    }
}

/// One generated node: its role, its index among nodes of that role, its
/// identity, its two ports and its service configuration.
#[derive(Clone, Copy, Debug, PartialEq, Eq)]
pub struct GeneratedNodeConfig {
    pub role: NodeRole,
    pub index: usize,
    pub id: [u8; 32],
    pub general: GeneralConfig,
    pub da_port: u16,
    pub blend_port: u16,
}

/// The validators and executors of a topology, with the config they were
/// generated from.
#[derive(Clone, Debug)]
pub struct GeneratedTopology {
    pub config: TopologyConfig,
    pub validators: Vec<GeneratedNodeConfig>,
    pub executors: Vec<GeneratedNodeConfig>,
}

#[derive(Clone, Copy, Debug, PartialEq, Eq, Structural)]
pub enum TopologyBuildError {
    /// The topology has neither validators nor executors.
    EmptyParticipants,
    Invariants(TopologyInvariantError),
    Resolve(TopologyResolveError),
    Base(BaseConfigError),
}

/// Builder of `GeneratedTopology` values from a `TopologyConfig`.
#[derive(Clone, Debug)]
pub struct TopologyBuilder {
    pub config: TopologyConfig,
    pub ids: Option<Vec<[u8; 32]>>,
    pub da_ports: Option<Vec<u16>>,
    pub blend_ports: Option<Vec<u16>>,
}

/// The identities of all nodes, validators first.
pub open spec fn all_ids(t: GeneratedTopology) -> Seq<[u8; 32]> {
    t.validators@.map_values(|d: GeneratedNodeConfig| d.id) + t.executors@.map_values(|d: GeneratedNodeConfig| d.id)
}

/// The data-availability ports of all nodes, validators first.
pub open spec fn all_da_ports(t: GeneratedTopology) -> Seq<u16> {
    t.validators@.map_values(|d: GeneratedNodeConfig| d.da_port) + t.executors@.map_values(|d: GeneratedNodeConfig| d.da_port)
}

/// The blend ports of all nodes, validators first.
pub open spec fn all_blend_ports(t: GeneratedTopology) -> Seq<u16> {
    t.validators@.map_values(|d: GeneratedNodeConfig| d.blend_port) + t.executors@.map_values(|d: GeneratedNodeConfig| d.blend_port)
}

/// Node `i` of the combined list, numbered among the nodes of its role.
pub open spec fn descriptor_of(
    config: TopologyConfig,
    ids: Seq<[u8; 32]>,
    da_ports: Seq<u16>,
    blend_ports: Seq<u16>,
    i: int,
) -> GeneratedNodeConfig {
    GeneratedNodeConfig {
        role: if i < config.n_validators { NodeRole::Validator } else { NodeRole::Executor },
        index: if i < config.n_validators { i as usize } else { (i - config.n_validators) as usize },
        id: ids[i],
        general: general_config_of(
            ids,
            config.consensus_params,
            config.da_params,
            config.network_params,
            config.wallet_config.accounts@.len(),
            da_ports,
            blend_ports,
            i,
        ),
        da_port: da_ports[i],
        blend_port: blend_ports[i],
    }
}

/// `t` is a complete topology for its config: one descriptor per node,
/// each derived from the combined identities and ports, all identities
/// pairwise distinct and no port used twice.
pub open spec fn topology_wf(t: GeneratedTopology) -> bool {
    let c = t.config;
    let ids = all_ids(t);
    let da = all_da_ports(t);
    let blend = all_blend_ports(t);
    &&& t.validators@.len() == c.n_validators
    &&& t.executors@.len() == c.n_executors
    &&& forall|k: int| 0 <= k < c.n_validators ==> #[trigger] t.validators@[k] == descriptor_of(c, ids, da, blend, k)
    &&& forall|k: int| 0 <= k < c.n_executors ==> #[trigger] t.executors@[k] == descriptor_of(c, ids, da, blend, c.n_validators + k)
    &&& ids_distinct(ids)
    &&& ports_distinct(da, blend)
}

pub open spec fn participants(b: TopologyBuilder) -> nat {
    (b.config.n_validators + b.config.n_executors) as nat
}

/// The builder's identities are usable: absent, or one per node.
pub open spec fn ids_resolvable(b: TopologyBuilder) -> bool {
    b.ids matches Some(g) ==> g@.len() == participants(b)
}

pub open spec fn da_resolution(b: TopologyBuilder, alloc: AllocatedPorts) -> Result<Seq<u16>, TopologyResolveError> {
    resolved_ports(opt_view(b.da_ports), participants(b), PortKind::Da, alloc.da@)
}

pub open spec fn blend_resolution(b: TopologyBuilder, alloc: AllocatedPorts) -> Result<Seq<u16>, TopologyResolveError> {
    resolved_ports(opt_view(b.blend_ports), participants(b), PortKind::Blend, alloc.blend@)
}

/// How `build` ends once identities and ports are resolved: a repeated
/// port or identity is reported, then unfit service parameters; otherwise
/// the topology is built. Randomly drawn identities may collide.
pub open spec fn validation_outcome(
    b: TopologyBuilder,
    da: Seq<u16>,
    blend: Seq<u16>,
    r: Result<GeneratedTopology, TopologyBuildError>,
) -> bool {
    let given_distinct = b.ids is Some ==> ids_distinct(b.ids->Some_0@);
    let base = base_config_error(participants(b), b.config.da_params, participants(b));
    let id_collision = r is Err && r->Err_0 is Invariants && r->Err_0->Invariants_0 is DuplicateId;
    &&& !ports_distinct(da, blend) && given_distinct ==> ((r is Err && r->Err_0 is Invariants
        && r->Err_0->Invariants_0 is DuplicatePort) || (b.ids is None && id_collision))
    &&& b.ids is Some && !ids_distinct(b.ids->Some_0@) ==> id_collision
    &&& ports_distinct(da, blend) && given_distinct && base is Some
        ==> (r == Err::<GeneratedTopology, TopologyBuildError>(TopologyBuildError::Base(base->Some_0))
            || (b.ids is None && id_collision))
    &&& ports_distinct(da, blend) && given_distinct && base is None
        ==> (r is Ok || (b.ids is None && id_collision))
}

/// How `build` ends: each refusal in the order the checks are made, and
/// the topology that comes out when none applies.
pub open spec fn build_outcome(
    b: TopologyBuilder,
    alloc: AllocatedPorts,
    r: Result<GeneratedTopology, TopologyBuildError>,
) -> bool {
    &&& (participants(b) == 0 <==> r == Err::<GeneratedTopology, TopologyBuildError>(TopologyBuildError::EmptyParticipants))
    &&& (participants(b) > 0 && !ids_resolvable(b) ==> r == Err::<GeneratedTopology, TopologyBuildError>(
            TopologyBuildError::Resolve(TopologyResolveError::IdCountMismatch {
                expected: participants(b) as usize,
                actual: b.ids->Some_0@.len() as usize,
            })))
    &&& (participants(b) > 0 && ids_resolvable(b) && da_resolution(b, alloc) is Err
            ==> r == Err::<GeneratedTopology, TopologyBuildError>(TopologyBuildError::Resolve(da_resolution(b, alloc)->Err_0)))
    &&& (participants(b) > 0 && ids_resolvable(b) && da_resolution(b, alloc) is Ok
            && blend_resolution(b, alloc) is Err
            ==> r == Err::<GeneratedTopology, TopologyBuildError>(TopologyBuildError::Resolve(blend_resolution(b, alloc)->Err_0)))
    &&& (r is Ok ==> {
            let t = r->Ok_0;
            &&& t.config == b.config
            &&& topology_wf(t)
            &&& all_da_ports(t) == da_resolution(b, alloc)->Ok_0
            &&& all_blend_ports(t) == blend_resolution(b, alloc)->Ok_0
            &&& (b.ids is Some ==> all_ids(t) == b.ids->Some_0@)
        })
    &&& (participants(b) > 0 && ids_resolvable(b) && da_resolution(b, alloc) is Ok
            && blend_resolution(b, alloc) is Ok
            ==> validation_outcome(b, da_resolution(b, alloc)->Ok_0, blend_resolution(b, alloc)->Ok_0, r))
}

/// The validators followed by the executors.
pub open spec fn all_nodes(t: GeneratedTopology) -> Seq<GeneratedNodeConfig> {
    t.validators@ + t.executors@
}

/// Every topology that `build` produces for a non-empty node count holds
/// pairwise distinct identities across validators and executors, and its
/// data-availability and blend ports, all together, are pairwise distinct.
pub proof fn built_topology_is_unique(
    b: TopologyBuilder,
    alloc: AllocatedPorts,
    r: Result<GeneratedTopology, TopologyBuildError>,
)
    requires
        b.config.n_validators + b.config.n_executors >= 1,
        b.config.n_validators + b.config.n_executors <= usize::MAX,
        build_outcome(b, alloc, r),
    ensures
        r is Ok ==> {
            let ds = all_nodes(r->Ok_0);
            let ps = ds.map_values(|d: GeneratedNodeConfig| d.da_port) + ds.map_values(|d: GeneratedNodeConfig| d.blend_port);
            &&& forall|i: int, j: int| 0 <= i < ds.len() && 0 <= j < ds.len() && i != j ==> ds[i].id != ds[j].id
            &&& forall|i: int, j: int| 0 <= i < ps.len() && 0 <= j < ps.len() && i != j ==> ps[i] != ps[j]
        },
{
    if r is Ok {
        let t = r->Ok_0;
        let ds = all_nodes(t);
        let nv = t.validators@.len() as int;
        assert(ds.map_values(|d: GeneratedNodeConfig| d.id) =~= all_ids(t));
        assert(ds.map_values(|d: GeneratedNodeConfig| d.da_port) =~= all_da_ports(t));
        assert(ds.map_values(|d: GeneratedNodeConfig| d.blend_port) =~= all_blend_ports(t));
        assert forall|i: int, j: int| 0 <= i < ds.len() && 0 <= j < ds.len() && i != j implies ds[i].id != ds[j].id by {
            assert(all_ids(t)[i] == ds[i].id && all_ids(t)[j] == ds[j].id);
        }
    }
}

impl TopologyBuilder {
    pub fn new(config: TopologyConfig) -> (r: Self)
        ensures
            r.config == config,
            r.ids is None && r.da_ports is None && r.blend_ports is None,
    {
        TopologyBuilder { config, ids: None, da_ports: None, blend_ports: None }
    }

    /// Uses the given node identities, in node order.
    pub fn with_ids(self, ids: Vec<[u8; 32]>) -> (r: Self)
        ensures
            r == (TopologyBuilder { ids: Some(ids), ..self }),
    {
        TopologyBuilder { ids: Some(ids), ..self }
    }

    /// Uses the given data-availability ports, in node order.
    pub fn with_da_ports(self, ports: Vec<u16>) -> (r: Self)
        ensures
            r == (TopologyBuilder { da_ports: Some(ports), ..self }),
    {
        TopologyBuilder { da_ports: Some(ports), ..self }
    }

    /// Uses the given blend ports, in node order.
    pub fn with_blend_ports(self, ports: Vec<u16>) -> (r: Self)
        ensures
            r == (TopologyBuilder { blend_ports: Some(ports), ..self }),
    {
        TopologyBuilder { blend_ports: Some(ports), ..self }
    }

    pub fn with_validator_count(self, validators: usize) -> (r: Self)
        ensures
            r.config == (TopologyConfig { n_validators: validators, ..self.config }),
            r.ids == self.ids && r.da_ports == self.da_ports && r.blend_ports == self.blend_ports,
    {
        let TopologyBuilder { config, ids, da_ports, blend_ports } = self;
        TopologyBuilder { config: TopologyConfig { n_validators: validators, ..config }, ids, da_ports, blend_ports }
    }

    pub fn with_executor_count(self, executors: usize) -> (r: Self)
        ensures
            r.config == (TopologyConfig { n_executors: executors, ..self.config }),
            r.ids == self.ids && r.da_ports == self.da_ports && r.blend_ports == self.blend_ports,
    {
        let TopologyBuilder { config, ids, da_ports, blend_ports } = self;
        TopologyBuilder { config: TopologyConfig { n_executors: executors, ..config }, ids, da_ports, blend_ports }
    }

    pub fn with_node_counts(self, validators: usize, executors: usize) -> (r: Self)
        ensures
            r.config == (TopologyConfig { n_validators: validators, n_executors: executors, ..self.config }),
            r.ids == self.ids && r.da_ports == self.da_ports && r.blend_ports == self.blend_ports,
    {
        let TopologyBuilder { config, ids, da_ports, blend_ports } = self;
        TopologyBuilder {
            config: TopologyConfig { n_validators: validators, n_executors: executors, ..config },
            ids,
            da_ports,
            blend_ports,
        }
    }

    pub fn with_network_layout(self, layout: Libp2pNetworkLayout) -> (r: Self)
        ensures
            r.config == (TopologyConfig {
                network_params: NetworkParams { libp2p_network_layout: layout },
                ..self.config
            }),
            r.ids == self.ids && r.da_ports == self.da_ports && r.blend_ports == self.blend_ports,
    {
        let TopologyBuilder { config, ids, da_ports, blend_ports } = self;
        TopologyBuilder {
            config: TopologyConfig { network_params: NetworkParams { libp2p_network_layout: layout }, ..config },
            ids,
            da_ports,
            blend_ports,
        }
    }

    /// Funds the given accounts at genesis.
    pub fn with_wallet_config(self, wallet: WalletConfig) -> (r: Self)
        ensures
            r.config == (TopologyConfig { wallet_config: wallet, ..self.config }),
            r.ids == self.ids && r.da_ports == self.da_ports && r.blend_ports == self.blend_ports,
    {
        let TopologyBuilder { config, ids, da_ports, blend_ports } = self;
        TopologyBuilder { config: TopologyConfig { wallet_config: wallet, ..config }, ids, da_ports, blend_ports }
    }

    pub fn config(&self) -> (r: &TopologyConfig)
        ensures
            *r == self.config,
    {
        &self.config
    }

    /// Generates the node descriptors. Identities come from the builder or
    /// are drawn at random; ports come from the builder or from `alloc`.
    /// Nothing is built unless every node has an identity and two ports,
    /// all identities differ, no port repeats and the service parameters
    /// fit the node count.
    pub fn build(self, alloc: &AllocatedPorts) -> (r: Result<GeneratedTopology, TopologyBuildError>)
        requires
            self.config.n_validators + self.config.n_executors <= usize::MAX,
        ensures
            build_outcome(self, *alloc, r),
    {
        let TopologyBuilder { config, ids, da_ports, blend_ports } = self;
        let n = config.n_validators + config.n_executors;
        if n == 0 {
            return Err(TopologyBuildError::EmptyParticipants);
        }
        let ids = match resolve_ids(ids, n) {
            Ok(v) => v,
            Err(e) => {
                return Err(TopologyBuildError::Resolve(e));
            },
        };
        let da_ports = match resolve_ports(da_ports, n, PortKind::Da, &alloc.da) {
            Ok(v) => v,
            Err(e) => {
                return Err(TopologyBuildError::Resolve(e));
            },
        };
        let blend_ports = match resolve_ports(blend_ports, n, PortKind::Blend, &alloc.blend) {
            Ok(v) => v,
            Err(e) => {
                return Err(TopologyBuildError::Resolve(e));
            },
        };
        match validate_generated_vectors(n, &ids, &da_ports, &blend_ports) {
            Ok(()) => {},
            Err(e) => {
                return Err(TopologyBuildError::Invariants(e));
            },
        }
        let base = match build_base_configs(
            &ids,
            &config.consensus_params,
            &config.da_params,
            &config.network_params,
            &config.wallet_config,
            &da_ports,
            &blend_ports,
        ) {
            Ok(b) => b,
            Err(e) => {
                return Err(TopologyBuildError::Base(e));
            },
        };
        let BaseConfigs { consensus_configs, bootstrap_configs, da_configs, network_configs, blend_configs } = base;
        let mut validators: Vec<GeneratedNodeConfig> = Vec::new();
        let mut executors: Vec<GeneratedNodeConfig> = Vec::new();
        let mut i: usize = 0;
        while i < n
            invariant
                n == config.n_validators + config.n_executors,
                ids@.len() == n && da_ports@.len() == n && blend_ports@.len() == n,
                consensus_configs@.len() == n && bootstrap_configs@.len() == n && da_configs@.len() == n,
                network_configs@.len() == n && blend_configs@.len() == n,
                forall|k: int| 0 <= k < n ==> (GeneralConfig {
                    consensus_config: #[trigger] consensus_configs@[k],
                    bootstrapping_config: bootstrap_configs@[k],
                    da_config: da_configs@[k],
                    network_config: network_configs@[k],
                    blend_config: blend_configs@[k],
                }) == descriptor_of(config, ids@, da_ports@, blend_ports@, k).general,
                i <= n,
                i <= config.n_validators ==> validators@.len() == i && executors@.len() == 0,
                i > config.n_validators ==> validators@.len() == config.n_validators
                    && executors@.len() == i - config.n_validators,
                forall|k: int| 0 <= k < validators@.len() ==> #[trigger] validators@[k] == descriptor_of(config, ids@, da_ports@, blend_ports@, k),
                forall|k: int| 0 <= k < executors@.len() ==> #[trigger] executors@[k] == descriptor_of(
                    config, ids@, da_ports@, blend_ports@, config.n_validators + k),
            decreases n - i,
        {
            let general = GeneralConfig {
                consensus_config: consensus_configs[i],
                bootstrapping_config: bootstrap_configs[i],
                da_config: da_configs[i],
                network_config: network_configs[i],
                blend_config: blend_configs[i],
            };
            if i < config.n_validators {
                validators.push(GeneratedNodeConfig {
                    role: NodeRole::Validator,
                    index: i,
                    id: ids[i],
                    general,
                    da_port: da_ports[i],
                    blend_port: blend_ports[i],
                });
            } else {
                executors.push(GeneratedNodeConfig {
                    role: NodeRole::Executor,
                    index: i - config.n_validators,
                    id: ids[i],
                    general,
                    da_port: da_ports[i],
                    blend_port: blend_ports[i],
                });
            }
            i = i + 1;
        }
        let t = GeneratedTopology { config, validators, executors };
        proof {
            let nv = config.n_validators as int;
            assert(all_ids(t) =~= ids@) by {
                assert forall|k: int| 0 <= k < n implies #[trigger] all_ids(t)[k] == ids@[k] by {
                    if k < nv {
                        assert(t.validators@[k] == descriptor_of(config, ids@, da_ports@, blend_ports@, k));
                    } else {
                        assert(t.executors@[k - nv] == descriptor_of(config, ids@, da_ports@, blend_ports@, k));
                    }
                }
            }
            assert(all_da_ports(t) =~= da_ports@) by {
                assert forall|k: int| 0 <= k < n implies #[trigger] all_da_ports(t)[k] == da_ports@[k] by {
                    if k < nv {
                        assert(t.validators@[k] == descriptor_of(config, ids@, da_ports@, blend_ports@, k));
                    } else {
                        assert(t.executors@[k - nv] == descriptor_of(config, ids@, da_ports@, blend_ports@, k));
                    }
                }
            }
            assert(all_blend_ports(t) =~= blend_ports@) by {
                assert forall|k: int| 0 <= k < n implies #[trigger] all_blend_ports(t)[k] == blend_ports@[k] by {
                    if k < nv {
                        assert(t.validators@[k] == descriptor_of(config, ids@, da_ports@, blend_ports@, k));
                    } else {
                        assert(t.executors@[k - nv] == descriptor_of(config, ids@, da_ports@, blend_ports@, k));
                    }
                }
            }
        }
        Ok(t)
    }
}

} // verus!
