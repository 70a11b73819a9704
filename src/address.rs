//! Node network addresses as sequences of protocol components, and the
//! rewriting of template peer lists onto the hosts that a deployment
//! actually assigned.

use vstd::prelude::*;

verus! {

/// The identity of a peer on the network layer.
#[derive(Clone, Copy, Debug, PartialEq, Eq)]
pub struct PeerId {
    pub bytes: [u8; 32],
}

/// One component of a layered network address.
#[derive(Clone, Copy, Debug, PartialEq, Eq)]
pub enum Protocol {
    Ip4([u8; 4]),
    Udp(u16),
    Tcp(u16),
    QuicV1,
    P2p(PeerId),
}

/// A layered network address such as `/ip4/127.0.0.1/udp/3000/quic-v1`.
#[derive(Clone, Debug)]
pub struct Multiaddr {
    pub protocols: Vec<Protocol>,
}

impl View for Multiaddr {
    type V = Seq<Protocol>;

    open spec fn view(&self) -> Seq<Protocol> {
        self.protocols@
    }
}

/// A host that a deployment assigned to a node.
#[derive(Clone, Copy, Debug, PartialEq, Eq)]
pub struct Host {
    pub ip: [u8; 4],
    pub network_port: u16,
}

/// The loopback IPv4 address.
pub const LOCALHOST: [u8; 4] = [127, 0, 0, 1];

/// The port of the first UDP component, if any.
pub open spec fn first_udp_port(p: Seq<Protocol>) -> Option<u16>
    decreases p.len(),
{
    if p.len() == 0 {
        None
    } else {
        match p[0] {
            Protocol::Udp(port) => Some(port),
            _ => first_udp_port(p.drop_first()),
        }
    }
}

/// The port of the first UDP or TCP component, if any.
pub open spec fn first_transport_port(p: Seq<Protocol>) -> Option<u16>
    decreases p.len(),
{
    if p.len() == 0 {
        None
    } else {
        match p[0] {
            Protocol::Udp(port) => Some(port),
            Protocol::Tcp(port) => Some(port),
            _ => first_transport_port(p.drop_first()),
        }
    }
}

/// The first index at which `port` occurs in `ports`, if any.
pub open spec fn first_position(ports: Seq<u16>, port: u16) -> Option<int>
    decreases ports.len(),
{
    if ports.len() == 0 {
        None
    } else if ports[0] == port {
        Some(0)
    } else {
        match first_position(ports.drop_first(), port) {
            Some(i) => Some(i + 1),
            None => None,
        }
    }
}

/// The index of the host whose original port is the address's UDP port.
pub open spec fn matching_host(addr: Seq<Protocol>, original_ports: Seq<u16>) -> Option<int> {
    match first_udp_port(addr) {
        Some(port) => first_position(original_ports, port),
        None => None,
    }
}

/// `/ip4/<ip>/udp/<port>/quic-v1`.
pub open spec fn quic_address(ip: [u8; 4], port: u16) -> Seq<Protocol> {
    seq![Protocol::Ip4(ip), Protocol::Udp(port), Protocol::QuicV1]
}

/// `/ip4/<ip>/udp/<port>/quic-v1/p2p/<peer>`.
pub open spec fn peer_address(host: Host, peer: PeerId) -> Seq<Protocol> {
    quic_address(host.ip, host.network_port).push(Protocol::P2p(peer))
}

/// Every host that a node's template peer list names, other than the node
/// itself, has a host entry and a peer identity.
pub open spec fn matches_in_range(
    templates: Seq<Vec<Multiaddr>>,
    original_ports: Seq<u16>,
    n_hosts: nat,
    n_peer_ids: nat,
) -> bool {
    forall|n: int, p: int| 0 <= n < templates.len() && 0 <= p < templates[n]@.len()
        ==> match #[trigger] matching_host(templates[n]@[p]@, original_ports) {
            Some(k) => k != n ==> k < n_hosts && k < n_peer_ids,
            None => true,
        }
}

/// The hosts that a node's template peer list names, in template order,
/// leaving out addresses that match no host and the node itself.
pub open spec fn rewritten_peer_indices(
    peers: Seq<Seq<Protocol>>,
    original_ports: Seq<u16>,
    node_idx: int,
) -> Seq<int>
    decreases peers.len(),
{
    if peers.len() == 0 {
        seq![]
    } else {
        let rest = rewritten_peer_indices(peers.drop_last(), original_ports, node_idx);
        match matching_host(peers.last(), original_ports) {
            Some(k) => if k != node_idx { rest.push(k) } else { rest },
            None => rest,
        }
    }
}

/// The address `/ip4/127.0.0.1/udp/<port>/quic-v1`.
pub fn localhost_quic_address(port: u16) -> (r: Multiaddr)
    ensures
        r@ == quic_address(LOCALHOST, port),
{
    let mut protocols: Vec<Protocol> = Vec::new();
    protocols.push(Protocol::Ip4(LOCALHOST));
    protocols.push(Protocol::Udp(port));
    protocols.push(Protocol::QuicV1);
    let r = Multiaddr { protocols };
    assert(r@ =~= quic_address(LOCALHOST, port));
    r
}

fn peer_multiaddr(host: Host, peer: PeerId) -> (r: Multiaddr)
    ensures
        r@ == peer_address(host, peer),
{
    let mut protocols: Vec<Protocol> = Vec::new();
    protocols.push(Protocol::Ip4(host.ip));
    protocols.push(Protocol::Udp(host.network_port));
    protocols.push(Protocol::QuicV1);
    protocols.push(Protocol::P2p(peer));
    let r = Multiaddr { protocols };
    assert(r@ =~= peer_address(host, peer));
    r
}

/// The port of the address's first UDP or TCP component.
pub fn multiaddr_port(addr: &Multiaddr) -> (r: Option<u16>)
    ensures
        r == first_transport_port(addr@),
{
    let mut i: usize = 0;
    assert(addr@.subrange(0, addr@.len() as int) =~= addr@);
    while i < addr.protocols.len()
        invariant
            0 <= i <= addr@.len(),
            first_transport_port(addr@) == first_transport_port(addr@.subrange(i as int, addr@.len() as int)),
        decreases addr@.len() - i,
    {
        let ghost rest = addr@.subrange(i as int, addr@.len() as int);
        assert(rest.drop_first() =~= addr@.subrange(i + 1, addr@.len() as int));
        match addr.protocols[i] {
            Protocol::Udp(port) => {
                return Some(port);
            },
            Protocol::Tcp(port) => {
                return Some(port);
            },
            _ => {},
        }
        i = i + 1;
    }
    None
}

/// The port of the address's first UDP component.
pub fn extract_udp_port(addr: &Multiaddr) -> (r: Option<u16>)
    ensures
        r == first_udp_port(addr@),
{
    let mut i: usize = 0;
    assert(addr@.subrange(0, addr@.len() as int) =~= addr@);
    while i < addr.protocols.len()
        invariant
            0 <= i <= addr@.len(),
            first_udp_port(addr@) == first_udp_port(addr@.subrange(i as int, addr@.len() as int)),
        decreases addr@.len() - i,
    {
        let ghost rest = addr@.subrange(i as int, addr@.len() as int);
        assert(rest.drop_first() =~= addr@.subrange(i + 1, addr@.len() as int));
        if let Protocol::Udp(port) = addr.protocols[i] {
            return Some(port);
        }
        i = i + 1;
    }
    None
}

/// The index of the host whose original port is the address's UDP port.
pub fn find_matching_host(addr: &Multiaddr, original_ports: &Vec<u16>) -> (r: Option<usize>)
    ensures
        r matches Some(k) ==> matching_host(addr@, original_ports@) == Some(k as int),
        r is None ==> matching_host(addr@, original_ports@) is None,
{
    match extract_udp_port(addr) {
        None => None,
        Some(port) => {
            let mut i: usize = 0;
            assert(original_ports@.subrange(0, original_ports@.len() as int) =~= original_ports@);
            while i < original_ports.len()
                invariant
                    0 <= i <= original_ports@.len(),
                    first_udp_port(addr@) == Some(port),
                    first_position(original_ports@, port) == (match first_position(
                        original_ports@.subrange(i as int, original_ports@.len() as int),
                        port,
                    ) {
                        Some(j) => Some(j + i),
                        None => None,
                    }),
                decreases original_ports@.len() - i,
            {
                let ghost rest = original_ports@.subrange(i as int, original_ports@.len() as int);
                assert(rest.drop_first() =~= original_ports@.subrange(i + 1, original_ports@.len() as int));
                if original_ports[i] == port {
                    assert(rest[0] == port);
                    return Some(i);
                }
                i = i + 1;
            }
            assert(original_ports@.subrange(i as int, original_ports@.len() as int).len() == 0);
            None
        },
    }
}

/// Rewrites each node's template peer list onto the assigned hosts: an
/// address whose UDP port was the original port of host `k` becomes
/// `/ip4/<ip of k>/udp/<network port of k>/quic-v1/p2p/<peer id of k>`;
/// addresses that match no host, and a node's own address, are dropped.
pub fn rewrite_initial_peers(
    templates: &Vec<Vec<Multiaddr>>,
    original_ports: &Vec<u16>,
    hosts: &Vec<Host>,
    peer_ids: &Vec<PeerId>,
) -> (r: Vec<Vec<Multiaddr>>)
    requires
        matches_in_range(templates@, original_ports@, hosts@.len(), peer_ids@.len()),
    ensures
        r@.len() == templates@.len(),
        forall|n: int| 0 <= n < r@.len() ==> {
            let idx = rewritten_peer_indices(
                templates@[n]@.map_values(|a: Multiaddr| a@),
                original_ports@,
                n,
            );
            &&& #[trigger] r@[n]@.len() == idx.len()
            &&& forall|j: int| 0 <= j < idx.len()
                ==> r@[n]@[j]@ == peer_address(hosts@[idx[j]], peer_ids@[idx[j]])
        },
{
    let mut out: Vec<Vec<Multiaddr>> = Vec::new();
    let mut n: usize = 0;
    while n < templates.len()
        invariant
            0 <= n <= templates@.len(),
            out@.len() == n,
            matches_in_range(templates@, original_ports@, hosts@.len(), peer_ids@.len()),
            forall|m: int| 0 <= m < n ==> {
                let idx = rewritten_peer_indices(
                    templates@[m]@.map_values(|a: Multiaddr| a@),
                    original_ports@,
                    m,
                );
                &&& #[trigger] out@[m]@.len() == idx.len()
                &&& forall|j: int| 0 <= j < idx.len()
                    ==> out@[m]@[j]@ == peer_address(hosts@[idx[j]], peer_ids@[idx[j]])
            },
        decreases templates@.len() - n,
    {
        let peers = &templates[n];
        let ghost views = peers@.map_values(|a: Multiaddr| a@);
        let mut row: Vec<Multiaddr> = Vec::new();
        let mut p: usize = 0;
        while p < peers.len()
            invariant
                0 <= p <= peers@.len(),
                peers == templates@[n as int],
                views == peers@.map_values(|a: Multiaddr| a@),
                matches_in_range(templates@, original_ports@, hosts@.len(), peer_ids@.len()),
                n < templates@.len(),
                ({
                    let idx = rewritten_peer_indices(views.subrange(0, p as int), original_ports@, n as int);
                    &&& row@.len() == idx.len()
                    &&& forall|j: int| 0 <= j < idx.len()
                        ==> row@[j]@ == peer_address(hosts@[idx[j]], peer_ids@[idx[j]])
                }),
            decreases peers@.len() - p,
        {
            let ghost prev = views.subrange(0, p as int);
            let ghost next = views.subrange(0, p + 1);
            assert(next.drop_last() =~= prev);
            assert(next.last() == peers@[p as int]@);
            match find_matching_host(&peers[p], original_ports) {
                Some(k) => {
                    if k != n {
                        assert(matching_host(templates@[n as int]@[p as int]@, original_ports@) == Some(k as int));
                        row.push(peer_multiaddr(hosts[k], peer_ids[k]));
                    }
                },
                None => {},
            }
            p = p + 1;
        }
        assert(views.subrange(0, peers@.len() as int) =~= views);
        out.push(row);
        n = n + 1;
    }
    out
}

} // verus!
