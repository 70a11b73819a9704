use testing_framework::address::{
    extract_udp_port, find_matching_host, localhost_quic_address, multiaddr_port, rewrite_initial_peers, Host,
    Multiaddr, PeerId, Protocol,
};

fn quic(ip: [u8; 4], port: u16) -> Multiaddr {
    Multiaddr { protocols: vec![Protocol::Ip4(ip), Protocol::Udp(port), Protocol::QuicV1] }
}

#[test]
fn ports_are_read_from_components() {
    let tcp = Multiaddr { protocols: vec![Protocol::Ip4([10, 0, 0, 1]), Protocol::Tcp(80), Protocol::Udp(90)] };
    assert_eq!(multiaddr_port(&tcp), Some(80));
    assert_eq!(extract_udp_port(&tcp), Some(90));
    let none = Multiaddr { protocols: vec![Protocol::QuicV1] };
    assert_eq!(multiaddr_port(&none), None);
    assert_eq!(extract_udp_port(&none), None);
    assert_eq!(localhost_quic_address(3000).protocols, quic([127, 0, 0, 1], 3000).protocols);
}

#[test]
fn hosts_are_matched_by_original_udp_port() {
    let ports = vec![3000, 3001, 3002];
    assert_eq!(find_matching_host(&quic([127, 0, 0, 1], 3001), &ports), Some(1));
    assert_eq!(find_matching_host(&quic([127, 0, 0, 1], 4000), &ports), None);
    let tcp_only = Multiaddr { protocols: vec![Protocol::Tcp(3001)] };
    assert_eq!(find_matching_host(&tcp_only, &ports), None);
}

#[test]
fn peers_are_rewritten_onto_hosts_without_self() {
    let ports = vec![3000, 3001, 3002];
    let templates = vec![
        vec![quic([127, 0, 0, 1], 3000), quic([127, 0, 0, 1], 3001), quic([127, 0, 0, 1], 3002)],
        vec![quic([127, 0, 0, 1], 3000), quic([127, 0, 0, 1], 9999)],
        vec![],
    ];
    let hosts = vec![
        Host { ip: [10, 0, 0, 1], network_port: 4000 },
        Host { ip: [10, 0, 0, 2], network_port: 4001 },
        Host { ip: [10, 0, 0, 3], network_port: 4002 },
    ];
    let peer_ids = vec![PeerId { bytes: [1; 32] }, PeerId { bytes: [2; 32] }, PeerId { bytes: [3; 32] }];
    let out = rewrite_initial_peers(&templates, &ports, &hosts, &peer_ids);
    assert_eq!(out.len(), 3);
    assert_eq!(out[0].len(), 2);
    assert_eq!(
        out[0][0].protocols,
        vec![Protocol::Ip4([10, 0, 0, 2]), Protocol::Udp(4001), Protocol::QuicV1, Protocol::P2p(PeerId { bytes: [2; 32] })]
    );
    assert_eq!(out[0][1].protocols[0], Protocol::Ip4([10, 0, 0, 3]));
    assert_eq!(out[1].len(), 1);
    assert_eq!(out[1][0].protocols[1], Protocol::Udp(4000));
    assert!(out[2].is_empty());
}

#[test]
fn unmatched_extra_original_port_needs_no_host() {
    let ports = vec![3000, 3001, 3999];
    let templates = vec![vec![quic([127, 0, 0, 1], 3001)], vec![quic([127, 0, 0, 1], 3000)]];
    let hosts = vec![
        Host { ip: [10, 0, 0, 1], network_port: 4000 },
        Host { ip: [10, 0, 0, 2], network_port: 4001 },
    ];
    let peer_ids = vec![PeerId { bytes: [1; 32] }, PeerId { bytes: [2; 32] }];
    let out = rewrite_initial_peers(&templates, &ports, &hosts, &peer_ids);
    assert_eq!(out[0][0].protocols[1], Protocol::Udp(4001));
    assert_eq!(out[1][0].protocols[3], Protocol::P2p(PeerId { bytes: [1; 32] }));
}
