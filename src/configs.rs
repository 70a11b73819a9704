//! Topology parameters and the per-node service configurations derived
//! from node identities and ports.

use vstd::prelude::*;
use crate::address::{localhost_quic_address, quic_address, Multiaddr, LOCALHOST};
use crate::resolve::{
    ids_distinct, ports_distinct, resolve_ids, validate_generated_vectors, AllocatedPorts, PortKind,
    TopologyInvariantError,
};

verus! {

/// How nodes are wired to their initial peers.
#[derive(Clone, Copy, Debug, PartialEq, Eq, Structural)]
pub enum Libp2pNetworkLayout {
    /// Every node but the first dials the first.
    Star,
    /// Every node but the first dials its predecessor.
    Chain,
    /// Every node dials all nodes before it.
    Full,
}

#[derive(Clone, Copy, Debug, PartialEq, Eq, Structural)]
pub struct NetworkParams {
    pub libp2p_network_layout: Libp2pNetworkLayout,
}

impl Default for NetworkParams {
    fn default() -> (r: Self)
        ensures
            r.libp2p_network_layout == Libp2pNetworkLayout::Star,
    {
        NetworkParams { libp2p_network_layout: Libp2pNetworkLayout::Star }
    }
}

/// Peer thresholds of the data-availability connection policy.
#[derive(Clone, Copy, Debug, PartialEq, Eq, Structural)]
pub struct DaPolicySettings {
    pub min_dispersal_peers: usize,
    pub min_replication_peers: usize,
    pub max_dispersal_failures: usize,
    pub max_sampling_failures: usize,
    pub max_replication_failures: usize,
    pub malicious_threshold: usize,
}

/// Data-availability parameters shared by all nodes of a topology.
#[derive(Clone, Copy, Debug, PartialEq, Eq, Structural)]
pub struct DaParams {
    pub dispersal_factor: usize,
    pub subnetwork_size: usize,
    pub num_subnets: u16,
    pub policy_settings: DaPolicySettings,
    pub balancer_interval_secs: u64,
}

pub open spec fn default_da_params() -> DaParams {
    DaParams {
        dispersal_factor: 1,
        subnetwork_size: 2,
        num_subnets: 2,
        policy_settings: DaPolicySettings {
            min_dispersal_peers: 1,
            min_replication_peers: 1,
            max_dispersal_failures: 0,
            max_sampling_failures: 0,
            max_replication_failures: 0,
            malicious_threshold: 0,
        },
        balancer_interval_secs: 1,
    }
}

impl Default for DaParams {
    fn default() -> (r: Self)
        ensures
            r == default_da_params(),
    {
        DaParams {
            dispersal_factor: 1,
            subnetwork_size: 2,
            num_subnets: 2,
            policy_settings: DaPolicySettings {
                min_dispersal_peers: 1,
                min_replication_peers: 1,
                max_dispersal_failures: 0,
                max_sampling_failures: 0,
                max_replication_failures: 0,
                malicious_threshold: 0,
            },
            balancer_interval_secs: 1,
        }
    }
}

/// Consensus parameters shared by all nodes of a topology.
#[derive(Clone, Copy, Debug, PartialEq, Eq, Structural)]
pub struct ConsensusParams {
    pub n_participants: usize,
}

impl ConsensusParams {
    pub fn default_for_participants(n_participants: usize) -> (r: Self)
        ensures
            r.n_participants == n_participants,
    {
        ConsensusParams { n_participants }
    }
}

/// A funded account placed in the genesis state.
#[derive(Clone, Copy, Debug, PartialEq, Eq)]
pub struct WalletAccount {
    pub secret_key: [u8; 32],
    pub value: u64,
}

/// The accounts funded at genesis.
#[derive(Clone, Debug, PartialEq, Eq)]
pub struct WalletConfig {
    pub accounts: Vec<WalletAccount>,
}

impl Default for WalletConfig {
    fn default() -> (r: Self)
        ensures
            r.accounts@.len() == 0,
    {
        WalletConfig { accounts: Vec::new() }
    }
}

/// The bootstrap period given to every node of a generated topology.
pub const SHORT_PROLONGED_BOOTSTRAP_PERIOD_SECS: u64 = 1;

#[derive(Clone, Copy, Debug, PartialEq, Eq)]
pub struct GeneralConsensusConfig {
    pub node_id: [u8; 32],
    pub n_participants: usize,
    pub n_genesis_accounts: usize,
}

#[derive(Clone, Copy, Debug, PartialEq, Eq, Structural)]
pub struct GeneralBootstrapConfig {
    pub prolonged_bootstrap_period_secs: u64,
}

#[derive(Clone, Copy, Debug, PartialEq, Eq)]
pub struct GeneralDaConfig {
    pub node_id: [u8; 32],
    pub listening_port: u16,
    pub dispersal_factor: usize,
    /// The subnetwork this node serves.
    pub subnet: u16,
}

#[derive(Clone, Copy, Debug, PartialEq, Eq)]
pub struct GeneralNetworkConfig {
    pub node_id: [u8; 32],
    pub node_index: usize,
    pub layout: Libp2pNetworkLayout,
}

#[derive(Clone, Copy, Debug, PartialEq, Eq)]
pub struct GeneralBlendConfig {
    pub node_id: [u8; 32],
    pub listening_port: u16,
    /// The node is declared a blend core provider at genesis.
    pub core: bool,
}

/// All service configurations of one node.
#[derive(Clone, Copy, Debug, PartialEq, Eq)]
pub struct GeneralConfig {
    pub consensus_config: GeneralConsensusConfig,
    pub bootstrapping_config: GeneralBootstrapConfig,
    pub da_config: GeneralDaConfig,
    pub network_config: GeneralNetworkConfig,
    pub blend_config: GeneralBlendConfig,
}

/// The indices of the nodes that node `i` dials at start-up.
pub open spec fn layout_peers(layout: Libp2pNetworkLayout, i: nat) -> Seq<usize> {
    match layout {
        Libp2pNetworkLayout::Star => if i == 0 { seq![] } else { seq![0usize] },
        Libp2pNetworkLayout::Chain => if i == 0 { seq![] } else { seq![(i - 1) as usize] },
        Libp2pNetworkLayout::Full => Seq::new(i, |j: int| j as usize),
    }
}

impl GeneralDaConfig {
    pub fn listening_address(&self) -> (r: Multiaddr)
        ensures
            r@ == quic_address(LOCALHOST, self.listening_port),
    {
        localhost_quic_address(self.listening_port)
    }
}

impl GeneralBlendConfig {
    pub fn listening_address(&self) -> (r: Multiaddr)
        ensures
            r@ == quic_address(LOCALHOST, self.listening_port),
    {
        localhost_quic_address(self.listening_port)
    }
}

impl GeneralNetworkConfig {
    /// The indices of the nodes this node dials at start-up.
    pub fn initial_peers(&self) -> (r: Vec<usize>)
        ensures
            r@ == layout_peers(self.layout, self.node_index as nat),
    {
        let mut r: Vec<usize> = Vec::new();
        if self.node_index == 0 {
            assert(r@ =~= layout_peers(self.layout, 0));
            return r;
        }
        match self.layout {
            Libp2pNetworkLayout::Star => {
                r.push(0);
            },
            Libp2pNetworkLayout::Chain => {
                r.push(self.node_index - 1);
            },
            Libp2pNetworkLayout::Full => {
                let mut j: usize = 0;
                while j < self.node_index
                    invariant
                        j <= self.node_index,
                        r@ == Seq::new(j as nat, |k: int| k as usize),
                    decreases self.node_index - j,
                {
                    r.push(j);
                    j = j + 1;
                    assert(r@ =~= Seq::new(j as nat, |k: int| k as usize));
                }
            },
        }
        assert(r@ =~= layout_peers(self.layout, self.node_index as nat));
        r
    }
}

#[derive(Clone, Copy, Debug, PartialEq, Eq, Structural)]
pub enum ConsensusConfigError {
    /// Consensus needs at least one participant.
    NoParticipants,
}

#[derive(Clone, Copy, Debug, PartialEq, Eq, Structural)]
pub enum DaConfigError {
    /// The dispersal factor must lie in `1..=participants`.
    InvalidDispersalFactor { dispersal_factor: usize, participants: usize },
    /// At least one subnetwork is needed.
    NoSubnets,
    PortCountMismatch { expected: usize, actual: usize },
}

#[derive(Clone, Copy, Debug, PartialEq, Eq, Structural)]
pub enum NetworkConfigError {
    /// A network needs at least one node.
    NoParticipants,
}

#[derive(Clone, Copy, Debug, PartialEq, Eq, Structural)]
pub enum BaseConfigError {
    Consensus(ConsensusConfigError),
    Da(DaConfigError),
    Network(NetworkConfigError),
}

/// The per-service configurations of every node, in node order.
pub struct BaseConfigs {
    pub consensus_configs: Vec<GeneralConsensusConfig>,
    pub bootstrap_configs: Vec<GeneralBootstrapConfig>,
    pub da_configs: Vec<GeneralDaConfig>,
    pub network_configs: Vec<GeneralNetworkConfig>,
    pub blend_configs: Vec<GeneralBlendConfig>,
}

pub open spec fn consensus_config_of(
    ids: Seq<[u8; 32]>,
    params: ConsensusParams,
    n_accounts: nat,
    i: int,
) -> GeneralConsensusConfig {
    GeneralConsensusConfig { node_id: ids[i], n_participants: params.n_participants, n_genesis_accounts: n_accounts as usize }
}

pub open spec fn bootstrap_config_of() -> GeneralBootstrapConfig {
    GeneralBootstrapConfig { prolonged_bootstrap_period_secs: SHORT_PROLONGED_BOOTSTRAP_PERIOD_SECS }
}

pub open spec fn da_config_of(ids: Seq<[u8; 32]>, params: DaParams, ports: Seq<u16>, i: int) -> GeneralDaConfig {
    GeneralDaConfig {
        node_id: ids[i],
        listening_port: ports[i],
        dispersal_factor: params.dispersal_factor,
        subnet: (i % (params.num_subnets as int)) as u16,
    }
}

pub open spec fn network_config_of(ids: Seq<[u8; 32]>, params: NetworkParams, i: int) -> GeneralNetworkConfig {
    GeneralNetworkConfig { node_id: ids[i], node_index: i as usize, layout: params.libp2p_network_layout }
}

pub open spec fn blend_config_of(ids: Seq<[u8; 32]>, ports: Seq<u16>, i: int) -> GeneralBlendConfig {
    GeneralBlendConfig { node_id: ids[i], listening_port: ports[i], core: true }
}

/// The configuration of node `i`.
pub open spec fn general_config_of(
    ids: Seq<[u8; 32]>,
    consensus: ConsensusParams,
    da: DaParams,
    network: NetworkParams,
    n_accounts: nat,
    da_ports: Seq<u16>,
    blend_ports: Seq<u16>,
    i: int,
) -> GeneralConfig {
    GeneralConfig {
        consensus_config: consensus_config_of(ids, consensus, n_accounts, i),
        bootstrapping_config: bootstrap_config_of(),
        da_config: da_config_of(ids, da, da_ports, i),
        network_config: network_config_of(ids, network, i),
        blend_config: blend_config_of(ids, blend_ports, i),
    }
}

/// The blend configuration of each node that has a port, in node order.
pub fn create_blend_configs(ids: &Vec<[u8; 32]>, ports: &Vec<u16>) -> (r: Vec<GeneralBlendConfig>)
    ensures
        r@.len() == vstd::math::min(ids@.len() as int, ports@.len() as int),
        forall|i: int| 0 <= i < r@.len() ==> #[trigger] r@[i] == blend_config_of(ids@, ports@, i),
{
    let n = if ids.len() < ports.len() { ids.len() } else { ports.len() };
    let mut r: Vec<GeneralBlendConfig> = Vec::new();
    let mut i: usize = 0;
    while i < n
        invariant
            n <= ids@.len() && n <= ports@.len(),
            0 <= i <= n,
            r@.len() == i,
            forall|k: int| 0 <= k < i ==> #[trigger] r@[k] == blend_config_of(ids@, ports@, k),
        decreases n - i,
    {
        r.push(GeneralBlendConfig { node_id: ids[i], listening_port: ports[i], core: true });
        i = i + 1;
    }
    r
}

/// Why base configurations cannot be derived, checked in the order
/// consensus, data availability; `None` when they can.
pub open spec fn base_config_error(n: nat, da: DaParams, n_da_ports: nat) -> Option<BaseConfigError> {
    if n == 0 {
        Some(BaseConfigError::Consensus(ConsensusConfigError::NoParticipants))
    } else if da.dispersal_factor == 0 || da.dispersal_factor > n {
        Some(BaseConfigError::Da(DaConfigError::InvalidDispersalFactor {
            dispersal_factor: da.dispersal_factor,
            participants: n as usize,
        }))
    } else if da.num_subnets == 0 {
        Some(BaseConfigError::Da(DaConfigError::NoSubnets))
    } else if n_da_ports != n {
        Some(BaseConfigError::Da(DaConfigError::PortCountMismatch { expected: n as usize, actual: n_da_ports as usize }))
    } else {
        None
    }
}

/// `b` holds, for each of the nodes, the configurations derived from its
/// identity and ports; only nodes with a blend port get a blend
/// configuration.
pub open spec fn base_configs_match(
    b: BaseConfigs,
    ids: Seq<[u8; 32]>,
    consensus: ConsensusParams,
    da: DaParams,
    network: NetworkParams,
    n_accounts: nat,
    da_ports: Seq<u16>,
    blend_ports: Seq<u16>,
) -> bool {
    let n = ids.len();
    let n_blend = vstd::math::min(n as int, blend_ports.len() as int);
    &&& b.consensus_configs@.len() == n
    &&& b.bootstrap_configs@.len() == n
    &&& b.da_configs@.len() == n
    &&& b.network_configs@.len() == n
    &&& b.blend_configs@.len() == n_blend
    &&& forall|i: int| 0 <= i < n ==> #[trigger] b.consensus_configs@[i] == consensus_config_of(ids, consensus, n_accounts, i)
    &&& forall|i: int| 0 <= i < n ==> #[trigger] b.bootstrap_configs@[i] == bootstrap_config_of()
    &&& forall|i: int| 0 <= i < n ==> #[trigger] b.da_configs@[i] == da_config_of(ids, da, da_ports, i)
    &&& forall|i: int| 0 <= i < n ==> #[trigger] b.network_configs@[i] == network_config_of(ids, network, i)
    &&& forall|i: int| 0 <= i < n_blend ==> #[trigger] b.blend_configs@[i] == blend_config_of(ids, blend_ports, i)
}

/// Derives every node's service configurations from its identity and ports.
pub fn build_base_configs(
    ids: &Vec<[u8; 32]>,
    consensus_params: &ConsensusParams,
    da_params: &DaParams,
    network_params: &NetworkParams,
    wallet_config: &WalletConfig,
    da_ports: &Vec<u16>,
    blend_ports: &Vec<u16>,
) -> (r: Result<BaseConfigs, BaseConfigError>)
    ensures
        base_config_error(ids@.len(), *da_params, da_ports@.len()) matches Some(e) ==> r == Err::<BaseConfigs, BaseConfigError>(e),
        base_config_error(ids@.len(), *da_params, da_ports@.len()) is None ==> (r matches Ok(b)
            && base_configs_match(b, ids@, *consensus_params, *da_params, *network_params,
                wallet_config.accounts@.len(), da_ports@, blend_ports@)),
{
    let n = ids.len();
    if n == 0 {
        return Err(BaseConfigError::Consensus(ConsensusConfigError::NoParticipants));
    }
    if da_params.dispersal_factor == 0 || da_params.dispersal_factor > n {
        return Err(BaseConfigError::Da(DaConfigError::InvalidDispersalFactor {
            dispersal_factor: da_params.dispersal_factor,
            participants: n,
        }));
    }
    if da_params.num_subnets == 0 {
        return Err(BaseConfigError::Da(DaConfigError::NoSubnets));
    }
    if da_ports.len() != n {
        return Err(BaseConfigError::Da(DaConfigError::PortCountMismatch { expected: n, actual: da_ports.len() }));
    }
    let n_accounts = wallet_config.accounts.len();
    let mut consensus_configs: Vec<GeneralConsensusConfig> = Vec::new();
    let mut bootstrap_configs: Vec<GeneralBootstrapConfig> = Vec::new();
    let mut da_configs: Vec<GeneralDaConfig> = Vec::new();
    let mut network_configs: Vec<GeneralNetworkConfig> = Vec::new();
    let blend_configs = create_blend_configs(ids, blend_ports);
    let mut i: usize = 0;
    while i < n
        invariant
            n == ids@.len(),
            n == da_ports@.len(),
            da_params.num_subnets > 0,
            n_accounts == wallet_config.accounts@.len(),
            i <= n,
            consensus_configs@.len() == i,
            bootstrap_configs@.len() == i,
            da_configs@.len() == i,
            network_configs@.len() == i,
            blend_configs@.len() == vstd::math::min(n as int, blend_ports@.len() as int),
            forall|k: int| 0 <= k < blend_configs@.len() ==> #[trigger] blend_configs@[k] == blend_config_of(ids@, blend_ports@, k),
            forall|k: int| 0 <= k < i ==> #[trigger] consensus_configs@[k] == consensus_config_of(ids@, *consensus_params, wallet_config.accounts@.len(), k),
            forall|k: int| 0 <= k < i ==> #[trigger] bootstrap_configs@[k] == bootstrap_config_of(),
            forall|k: int| 0 <= k < i ==> #[trigger] da_configs@[k] == da_config_of(ids@, *da_params, da_ports@, k),
            forall|k: int| 0 <= k < i ==> #[trigger] network_configs@[k] == network_config_of(ids@, *network_params, k),
        decreases n - i,
    {
        let id = ids[i];
        consensus_configs.push(GeneralConsensusConfig {
            node_id: id,
            n_participants: consensus_params.n_participants,
            n_genesis_accounts: n_accounts,
        });
        bootstrap_configs.push(GeneralBootstrapConfig {
            prolonged_bootstrap_period_secs: SHORT_PROLONGED_BOOTSTRAP_PERIOD_SECS,
        });
        let subnet = (i % (da_params.num_subnets as usize)) as u16;
        da_configs.push(GeneralDaConfig {
            node_id: id,
            listening_port: da_ports[i],
            dispersal_factor: da_params.dispersal_factor,
            subnet,
        });
        network_configs.push(GeneralNetworkConfig {
            node_id: id,
            node_index: i,
            layout: network_params.libp2p_network_layout,
        });
        i = i + 1;
    }
    let b = BaseConfigs { consensus_configs, bootstrap_configs, da_configs, network_configs, blend_configs };
    assert(base_configs_match(b, ids@, *consensus_params, *da_params, *network_params,
                wallet_config.accounts@.len(), da_ports@, blend_ports@));
    Ok(b)
}

#[derive(Clone, Copy, Debug, PartialEq, Eq, Structural)]
pub enum GeneralConfigError {
    EmptyParticipants,
    BlendCoreSubsetTooLarge { blend_core: usize, participants: usize },
    /// The operating system supplied no free port for one of the nodes.
    PortAllocationFailed { kind: PortKind },
    Invariants(TopologyInvariantError),
    Consensus(ConsensusConfigError),
    Network(NetworkConfigError),
    Da(DaConfigError),
}

/// The `i`-th port request's result; a request that was not made failed.
pub open spec fn slot(alloc: Seq<Option<u16>>, i: int) -> Option<u16> {
    if 0 <= i < alloc.len() { alloc[i] } else { None }
}

/// Node `i` got both its ports.
pub open spec fn node_allocated(alloc: AllocatedPorts, i: int) -> bool {
    slot(alloc.da@, i) is Some && slot(alloc.blend@, i) is Some
}

/// Node `i` is the first whose port request failed, and `kind` is the
/// request that failed first: each node asks for its data-availability
/// port before its blend port.
pub open spec fn first_failed_request(alloc: AllocatedPorts, i: int, kind: PortKind) -> bool {
    &&& forall|j: int| 0 <= j < i ==> #[trigger] node_allocated(alloc, j)
    &&& match kind {
        PortKind::Da => slot(alloc.da@, i) is None,
        PortKind::Blend => slot(alloc.da@, i) is Some && slot(alloc.blend@, i) is None,
    }
}

pub open spec fn allocated_da(alloc: AllocatedPorts, n: nat) -> Seq<u16> {
    Seq::new(n, |i: int| slot(alloc.da@, i)->Some_0)
}

pub open spec fn allocated_blend(alloc: AllocatedPorts, n: nat) -> Seq<u16> {
    Seq::new(n, |i: int| slot(alloc.blend@, i)->Some_0)
}

fn allocate_node_ports(n: usize, alloc: &AllocatedPorts) -> (r: Result<(Vec<u16>, Vec<u16>), PortKind>)
    ensures
        r is Ok <==> forall|i: int| 0 <= i < n ==> #[trigger] node_allocated(*alloc, i),
        r matches Ok((da, blend)) ==> da@ == allocated_da(*alloc, n as nat) && blend@ == allocated_blend(*alloc, n as nat),
        r matches Err(kind) ==> exists|i: int| 0 <= i < n && first_failed_request(*alloc, i, kind),
{
    let mut da: Vec<u16> = Vec::new();
    let mut blend: Vec<u16> = Vec::new();
    let mut i: usize = 0;
    while i < n
        invariant
            0 <= i <= n,
            forall|j: int| 0 <= j < i ==> #[trigger] node_allocated(*alloc, j),
            da@ == allocated_da(*alloc, i as nat),
            blend@ == allocated_blend(*alloc, i as nat),
        decreases n - i,
    {
        let d = if i < alloc.da.len() { alloc.da[i] } else { None };
        match d {
            None => {
                assert(first_failed_request(*alloc, i as int, PortKind::Da));
                assert(!node_allocated(*alloc, i as int));
                return Err(PortKind::Da);
            },
            Some(p) => da.push(p),
        }
        let b = if i < alloc.blend.len() { alloc.blend[i] } else { None };
        match b {
            None => {
                assert(first_failed_request(*alloc, i as int, PortKind::Blend));
                assert(!node_allocated(*alloc, i as int));
                return Err(PortKind::Blend);
            },
            Some(p) => blend.push(p),
        }
        assert(node_allocated(*alloc, i as int));
        i = i + 1;
        assert(da@ =~= allocated_da(*alloc, i as nat));
        assert(blend@ =~= allocated_blend(*alloc, i as nat));
    }
    Ok((da, blend))
}

/// Node `i`'s configuration among `ids.len()` standalone nodes of which
/// the first `n_core` are blend core providers.
pub open spec fn standalone_config_of(
    ids: Seq<[u8; 32]>,
    network: NetworkParams,
    da_ports: Seq<u16>,
    blend_ports: Seq<u16>,
    n_core: nat,
    i: int,
) -> GeneralConfig {
    let g = general_config_of(
        ids,
        ConsensusParams { n_participants: ids.len() as usize },
        default_da_params(),
        network,
        0,
        da_ports,
        blend_ports,
        i,
    );
    GeneralConfig { blend_config: GeneralBlendConfig { core: i < n_core, ..g.blend_config }, ..g }
}

pub open spec fn config_ids(v: Seq<GeneralConfig>) -> Seq<[u8; 32]> {
    v.map_values(|g: GeneralConfig| g.consensus_config.node_id)
}

/// Configurations for `n_nodes` standalone nodes with random identities
/// and ports from `alloc`.
pub fn create_general_configs(n_nodes: usize, alloc: &AllocatedPorts) -> (r: Result<Vec<GeneralConfig>, GeneralConfigError>)
    ensures
        general_configs_outcome(n_nodes as nat, n_nodes as nat, NetworkParams { libp2p_network_layout: Libp2pNetworkLayout::Star }, *alloc, r),
{
    create_general_configs_with_network(n_nodes, &NetworkParams::default(), alloc)
}

/// As `create_general_configs`, on the given network layout.
pub fn create_general_configs_with_network(
    n_nodes: usize,
    network_params: &NetworkParams,
    alloc: &AllocatedPorts,
) -> (r: Result<Vec<GeneralConfig>, GeneralConfigError>)
    ensures
        general_configs_outcome(n_nodes as nat, n_nodes as nat, *network_params, *alloc, r),
{
    create_general_configs_with_blend_core_subset(n_nodes, n_nodes, network_params, alloc)
}

/// What generating standalone configurations yields: refusal of an empty
/// or over-large core subset, then of a failed port request, then of a
/// repeated port (or a collision of the random identities); otherwise one
/// configuration per node.
pub open spec fn general_configs_outcome(
    n: nat,
    n_core: nat,
    network: NetworkParams,
    alloc: AllocatedPorts,
    r: Result<Vec<GeneralConfig>, GeneralConfigError>,
) -> bool {
    let ports_ok = forall|i: int| 0 <= i < n ==> #[trigger] node_allocated(alloc, i);
    let da = allocated_da(alloc, n);
    let blend = allocated_blend(alloc, n);
    let id_collision = r is Err && r->Err_0 is Invariants && r->Err_0->Invariants_0 is DuplicateId;
    &&& n == 0 ==> r == Err::<Vec<GeneralConfig>, GeneralConfigError>(GeneralConfigError::EmptyParticipants)
    &&& n > 0 && n_core > n ==> r == Err::<Vec<GeneralConfig>, GeneralConfigError>(
        GeneralConfigError::BlendCoreSubsetTooLarge { blend_core: n_core as usize, participants: n as usize })
    &&& n > 0 && n_core <= n && !ports_ok ==> r is Err && r->Err_0 is PortAllocationFailed
        && exists|i: int| 0 <= i < n && first_failed_request(alloc, i, r->Err_0->PortAllocationFailed_kind)
    &&& n > 0 && n_core <= n && ports_ok && !ports_distinct(da, blend) ==> (id_collision
        || (r is Err && r->Err_0 is Invariants && r->Err_0->Invariants_0 is DuplicatePort))
    &&& n > 0 && n_core <= n && ports_ok && ports_distinct(da, blend) ==> (r is Ok || id_collision)
    &&& r is Ok ==> {
        let v = r->Ok_0@;
        &&& v.len() == n
        &&& ids_distinct(config_ids(v))
        &&& forall|i: int| 0 <= i < n ==> #[trigger] v[i] == standalone_config_of(config_ids(v), network, da, blend, n_core, i)
    }
}

/// Configurations for `n_nodes` standalone nodes with random identities
/// and ports from `alloc`, of which the first `n_blend_core_nodes` are
/// declared blend core providers.
pub fn create_general_configs_with_blend_core_subset(
    n_nodes: usize,
    n_blend_core_nodes: usize,
    network_params: &NetworkParams,
    alloc: &AllocatedPorts,
) -> (r: Result<Vec<GeneralConfig>, GeneralConfigError>)
    ensures
        general_configs_outcome(n_nodes as nat, n_blend_core_nodes as nat, *network_params, *alloc, r),
{
    if n_nodes == 0 {
        return Err(GeneralConfigError::EmptyParticipants);
    }
    if n_blend_core_nodes > n_nodes {
        return Err(GeneralConfigError::BlendCoreSubsetTooLarge { blend_core: n_blend_core_nodes, participants: n_nodes });
    }
    let ids = match resolve_ids(None, n_nodes) {
        Ok(v) => v,
        Err(_) => {
            return Err(GeneralConfigError::EmptyParticipants);
        },
    };
    let (da_ports, blend_ports) = match allocate_node_ports(n_nodes, alloc) {
        Ok(p) => p,
        Err(kind) => {
            return Err(GeneralConfigError::PortAllocationFailed { kind });
        },
    };
    match validate_generated_vectors(n_nodes, &ids, &da_ports, &blend_ports) {
        Ok(()) => {},
        Err(e) => {
            return Err(GeneralConfigError::Invariants(e));
        },
    }
    let consensus_params = ConsensusParams::default_for_participants(n_nodes);
    let da_params = DaParams::default();
    let wallet = WalletConfig::default();
    let base = match build_base_configs(&ids, &consensus_params, &da_params, network_params, &wallet, &da_ports, &blend_ports) {
        Ok(b) => b,
        Err(BaseConfigError::Consensus(e)) => {
            return Err(GeneralConfigError::Consensus(e));
        },
        Err(BaseConfigError::Da(e)) => {
            return Err(GeneralConfigError::Da(e));
        },
        Err(BaseConfigError::Network(e)) => {
            return Err(GeneralConfigError::Network(e));
        },
    };
    let mut configs: Vec<GeneralConfig> = Vec::new();
    let mut i: usize = 0;
    while i < n_nodes
        invariant
            0 <= i <= n_nodes,
            ids@.len() == n_nodes,
            da_ports@.len() == n_nodes && blend_ports@.len() == n_nodes,
            base_configs_match(base, ids@, consensus_params, da_params, *network_params, 0, da_ports@, blend_ports@),
            consensus_params.n_participants == n_nodes,
            da_params == default_da_params(),
            configs@.len() == i,
            forall|k: int| 0 <= k < i ==> #[trigger] configs@[k] == standalone_config_of(
                ids@, *network_params, da_ports@, blend_ports@, n_blend_core_nodes as nat, k),
        decreases n_nodes - i,
    {
        let blend = base.blend_configs[i];
        configs.push(GeneralConfig {
            consensus_config: base.consensus_configs[i],
            bootstrapping_config: base.bootstrap_configs[i],
            da_config: base.da_configs[i],
            network_config: base.network_configs[i],
            blend_config: GeneralBlendConfig { core: i < n_blend_core_nodes, ..blend },
        });
        i = i + 1;
    }
    proof {
        assert(config_ids(configs@) =~= ids@) by {
            assert forall|k: int| 0 <= k < n_nodes implies #[trigger] config_ids(configs@)[k] == ids@[k] by {
                assert(configs@[k] == standalone_config_of(ids@, *network_params, da_ports@, blend_ports@, n_blend_core_nodes as nat, k));
            }
        }
    }
    Ok(configs)
}

} // verus!
