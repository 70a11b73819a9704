use testing_framework::address::Protocol;
use testing_framework::configs::{
    build_base_configs, BaseConfigError, ConsensusConfigError, ConsensusParams, DaConfigError, DaParams,
    Libp2pNetworkLayout, NetworkParams, WalletConfig,
};
use testing_framework::resolve::{
    resolve_ids, resolve_ports, validate_generated_vectors, AllocatedPorts, PortKind, TopologyInvariantError,
    TopologyResolveError, VectorKind,
};
use testing_framework::topology::{NodeRole, TopologyBuildError, TopologyBuilder, TopologyConfig};

fn id(b: u8) -> [u8; 32] {
    [b; 32]
}

fn collect_ids(t: &testing_framework::topology::GeneratedTopology) -> Vec<[u8; 32]> {
    t.validators.iter().chain(t.executors.iter()).map(|d| d.id).collect()
}

#[test]
fn build_with_explicit_vectors_partitions_by_role() {
    let t = TopologyBuilder::new(TopologyConfig::with_node_numbers(2, 1))
        .with_ids(vec![id(1), id(2), id(3)])
        .with_da_ports(vec![4000, 4001, 4002])
        .with_blend_ports(vec![5000, 5001, 5002])
        .build(&AllocatedPorts::none())
        .unwrap();
    assert_eq!(t.validators.len(), 2);
    assert_eq!(t.executors.len(), 1);
    assert_eq!(t.validators[0].role, NodeRole::Validator);
    assert_eq!(t.validators[1].index, 1);
    assert_eq!(t.executors[0].role, NodeRole::Executor);
    assert_eq!(t.executors[0].index, 0);
    assert_eq!(t.executors[0].id, id(3));
    assert_eq!(t.executors[0].da_port, 4002);
    assert_eq!(t.executors[0].blend_port, 5002);
    assert_eq!(t.executors[0].general.da_config.listening_port, 4002);
    assert_eq!(t.executors[0].general.blend_config.listening_port, 5002);
    assert_eq!(t.executors[0].general.network_config.node_index, 2);
    assert_eq!(t.executors[0].general.consensus_config.n_participants, 3);
    assert_eq!(t.executors[0].general.network_config.initial_peers(), vec![0]);
    assert_eq!(t.validators[0].general.network_config.initial_peers(), Vec::<usize>::new());
}

#[test]
fn build_with_allocated_ports_gives_unique_ids_and_ports() {
    let alloc = AllocatedPorts {
        da: vec![Some(4000), Some(4001), Some(4002)],
        blend: vec![Some(5000), Some(5001), Some(5002)],
    };
    let t = TopologyBuilder::new(TopologyConfig::with_node_numbers(1, 2)).build(&alloc).unwrap();
    let ids = collect_ids(&t);
    assert_eq!(ids.len(), 3);
    for i in 0..ids.len() {
        for j in 0..ids.len() {
            if i != j {
                assert_ne!(ids[i], ids[j]);
            }
        }
    }
    let mut ports: Vec<u16> = t.validators.iter().chain(t.executors.iter()).flat_map(|d| [d.da_port, d.blend_port]).collect();
    ports.sort();
    ports.dedup();
    assert_eq!(ports.len(), 6);
}

#[test]
fn build_with_no_nodes_fails() {
    let r = TopologyBuilder::new(TopologyConfig::empty()).build(&AllocatedPorts::none());
    assert_eq!(r.err(), Some(TopologyBuildError::EmptyParticipants));
    let r = TopologyBuilder::new(TopologyConfig::with_node_numbers(0, 0))
        .with_ids(vec![])
        .with_da_ports(vec![])
        .with_blend_ports(vec![])
        .build(&AllocatedPorts::none());
    assert_eq!(r.err(), Some(TopologyBuildError::EmptyParticipants));
}

#[test]
fn build_rejects_duplicate_ids() {
    let r = TopologyBuilder::new(TopologyConfig::two_validators())
        .with_ids(vec![id(7), id(7)])
        .with_da_ports(vec![4000, 4001])
        .with_blend_ports(vec![5000, 5001])
        .build(&AllocatedPorts::none());
    assert_eq!(
        r.err(),
        Some(TopologyBuildError::Invariants(TopologyInvariantError::DuplicateId { first: 0, second: 1 }))
    );
}

#[test]
fn build_rejects_port_shared_across_kinds() {
    let r = TopologyBuilder::new(TopologyConfig::two_validators())
        .with_ids(vec![id(1), id(2)])
        .with_da_ports(vec![4000, 4001])
        .with_blend_ports(vec![4001, 5001])
        .build(&AllocatedPorts::none());
    assert_eq!(
        r.err(),
        Some(TopologyBuildError::Invariants(TopologyInvariantError::DuplicatePort { port: 4001 }))
    );
}

#[test]
fn build_reports_wrong_id_count() {
    let r = TopologyBuilder::new(TopologyConfig::two_validators())
        .with_ids(vec![id(1)])
        .build(&AllocatedPorts::none());
    assert_eq!(
        r.err(),
        Some(TopologyBuildError::Resolve(TopologyResolveError::IdCountMismatch { expected: 2, actual: 1 }))
    );
}

#[test]
fn build_reports_failed_port_allocation() {
    let alloc = AllocatedPorts { da: vec![Some(4000), None], blend: vec![Some(5000), Some(5001)] };
    let r = TopologyBuilder::new(TopologyConfig::two_validators()).build(&alloc);
    assert_eq!(
        r.err(),
        Some(TopologyBuildError::Resolve(TopologyResolveError::PortAllocationFailed { kind: PortKind::Da }))
    );
    let alloc = AllocatedPorts { da: vec![Some(4000), Some(4001)], blend: vec![Some(5000)] };
    let r = TopologyBuilder::new(TopologyConfig::two_validators()).build(&alloc);
    assert_eq!(
        r.err(),
        Some(TopologyBuildError::Resolve(TopologyResolveError::PortAllocationFailed { kind: PortKind::Blend }))
    );
}

#[test]
fn build_reports_wrong_port_count() {
    let r = TopologyBuilder::new(TopologyConfig::two_validators())
        .with_da_ports(vec![4000, 4001, 4002])
        .build(&AllocatedPorts::none());
    assert_eq!(
        r.err(),
        Some(TopologyBuildError::Resolve(TopologyResolveError::PortCountMismatch {
            kind: PortKind::Da,
            expected: 2,
            actual: 3
        }))
    );
}

#[test]
fn build_rejects_dispersal_factor_above_node_count() {
    let r = TopologyBuilder::new(TopologyConfig::validators_and_executor(1, 2, 3))
        .with_ids(vec![id(1), id(2)])
        .with_da_ports(vec![4000, 4001])
        .with_blend_ports(vec![5000, 5001])
        .build(&AllocatedPorts::none());
    assert_eq!(
        r.err(),
        Some(TopologyBuildError::Base(BaseConfigError::Da(DaConfigError::InvalidDispersalFactor {
            dispersal_factor: 3,
            participants: 2
        })))
    );
}

#[test]
fn builder_setters_change_counts_and_layout() {
    let b = TopologyBuilder::new(TopologyConfig::empty())
        .with_validator_count(3)
        .with_executor_count(2)
        .with_network_layout(Libp2pNetworkLayout::Full);
    assert_eq!(b.config().n_validators, 3);
    assert_eq!(b.config().n_executors, 2);
    let b = b.with_node_counts(1, 1).with_wallet_config(WalletConfig::default());
    assert_eq!(b.config().n_validators, 1);
    assert_eq!(b.config().n_executors, 1);
    assert_eq!(b.config().network_params.libp2p_network_layout, Libp2pNetworkLayout::Full);
    assert!(b.config().wallet().accounts.is_empty());
}

#[test]
fn full_layout_dials_every_earlier_node() {
    let t = TopologyBuilder::new(TopologyConfig::with_node_numbers(3, 0))
        .with_network_layout(Libp2pNetworkLayout::Full)
        .with_ids(vec![id(1), id(2), id(3)])
        .with_da_ports(vec![4000, 4001, 4002])
        .with_blend_ports(vec![5000, 5001, 5002])
        .build(&AllocatedPorts::none())
        .unwrap();
    assert_eq!(t.validators[2].general.network_config.initial_peers(), vec![0, 1]);
    let addr = t.validators[2].general.da_config.listening_address();
    assert_eq!(addr.protocols, vec![Protocol::Ip4([127, 0, 0, 1]), Protocol::Udp(4002), Protocol::QuicV1]);
    assert_eq!(t.validators[2].general.da_config.subnet, 0);
    assert_eq!(t.validators[1].general.da_config.subnet, 1);
}

#[test]
fn node_numbers_scale_da_params() {
    let one = TopologyConfig::with_node_numbers(1, 0);
    assert_eq!(one.da_params.dispersal_factor, 1);
    assert_eq!(one.da_params.subnetwork_size, 1);
    assert_eq!(one.da_params.num_subnets, 1);
    assert_eq!(one.da_params.policy_settings.min_dispersal_peers, 0);
    assert_eq!(one.da_params.policy_settings.min_replication_peers, 0);
    let five = TopologyConfig::with_node_numbers(3, 2);
    assert_eq!(five.consensus_params.n_participants, 5);
    assert_eq!(five.da_params.dispersal_factor, 2);
    assert_eq!(five.da_params.subnetwork_size, 2);
    assert_eq!(five.da_params.num_subnets, 2);
    assert_eq!(five.da_params.policy_settings.min_dispersal_peers, 1);
    assert_eq!(five.da_params.policy_settings.min_replication_peers, 1);
    assert_eq!(five.da_params.balancer_interval_secs, 1);
}

#[test]
fn validators_and_executor_sets_da_policy() {
    let c = TopologyConfig::validators_and_executor(3, 4, 2);
    assert_eq!(c.n_validators, 3);
    assert_eq!(c.n_executors, 1);
    assert_eq!(c.consensus_params.n_participants, 4);
    assert_eq!(c.da_params.num_subnets, 4);
    assert_eq!(c.da_params.policy_settings.min_dispersal_peers, 4);
    assert_eq!(c.da_params.policy_settings.min_replication_peers, 1);
    assert_eq!(c.da_params.balancer_interval_secs, 5);
    let ve = TopologyConfig::validator_and_executor();
    assert_eq!((ve.n_validators, ve.n_executors), (1, 1));
    assert_eq!(ve.da_params.dispersal_factor, 2);
}

#[test]
fn resolve_ids_checks_or_generates() {
    assert_eq!(
        resolve_ids(Some(vec![id(1)]), 2),
        Err(TopologyResolveError::IdCountMismatch { expected: 2, actual: 1 })
    );
    assert_eq!(resolve_ids(Some(vec![id(1), id(2)]), 2), Ok(vec![id(1), id(2)]));
    let generated = resolve_ids(None, 4).unwrap();
    assert_eq!(generated.len(), 4);
    assert_ne!(generated[0], generated[1]);
    assert_ne!(generated[0], [0u8; 32]);
}

#[test]
fn resolve_ports_takes_first_allocations() {
    assert_eq!(resolve_ports(None, 2, PortKind::Blend, &vec![Some(9), Some(8), None]), Ok(vec![9, 8]));
    assert_eq!(
        resolve_ports(None, 3, PortKind::Blend, &vec![Some(9), Some(8)]),
        Err(TopologyResolveError::PortAllocationFailed { kind: PortKind::Blend })
    );
    assert_eq!(resolve_ports(Some(vec![1, 2]), 2, PortKind::Da, &vec![]), Ok(vec![1, 2]));
}

#[test]
fn validation_reports_lengths_first() {
    assert_eq!(
        validate_generated_vectors(2, &vec![id(1)], &vec![1, 2], &vec![3, 4]),
        Err(TopologyInvariantError::VectorLenMismatch { kind: VectorKind::Ids, expected: 2, actual: 1 })
    );
    assert_eq!(
        validate_generated_vectors(1, &vec![id(1)], &vec![1], &vec![]),
        Err(TopologyInvariantError::VectorLenMismatch { kind: VectorKind::BlendPorts, expected: 1, actual: 0 })
    );
    assert_eq!(validate_generated_vectors(1, &vec![id(1)], &vec![1], &vec![2]), Ok(()));
}

#[test]
fn base_configs_reject_empty_and_bad_subnets() {
    let params = ConsensusParams::default_for_participants(1);
    let net = NetworkParams::default();
    let wallet = WalletConfig::default();
    let r = build_base_configs(&vec![], &params, &DaParams::default(), &net, &wallet, &vec![], &vec![]);
    assert_eq!(r.err(), Some(BaseConfigError::Consensus(ConsensusConfigError::NoParticipants)));
    let mut da = DaParams::default();
    da.num_subnets = 0;
    let r = build_base_configs(&vec![id(1)], &params, &da, &net, &wallet, &vec![1], &vec![2]);
    assert_eq!(r.err(), Some(BaseConfigError::Da(DaConfigError::NoSubnets)));
    let r = build_base_configs(&vec![id(1)], &params, &DaParams::default(), &net, &wallet, &vec![], &vec![2]);
    assert_eq!(r.err(), Some(BaseConfigError::Da(DaConfigError::PortCountMismatch { expected: 1, actual: 0 })));
    let ok = build_base_configs(&vec![id(1), id(2)], &params, &DaParams::default(), &net, &wallet, &vec![1, 2], &vec![3, 4])
        .ok()
        .unwrap();
    assert_eq!(ok.blend_configs[1].listening_port, 4);
    assert!(ok.blend_configs[1].core);
    assert_eq!(ok.bootstrap_configs.len(), 2);
    let short = build_base_configs(&vec![id(1), id(2)], &params, &DaParams::default(), &net, &wallet, &vec![1, 2], &vec![3])
        .ok()
        .unwrap();
    assert_eq!(short.blend_configs.len(), 1);
    assert_eq!(short.da_configs.len(), 2);
}
