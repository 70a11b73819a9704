//! Resolution of node identities and ports, either taken from the caller or
//! freshly generated, and the uniqueness checks that every topology passes.

use vstd::prelude::*;

verus! {

/// Which of a node's two ports a value refers to.
#[derive(Clone, Copy, Debug, PartialEq, Eq, Structural)]
pub enum PortKind {
    /// The data-availability port.
    Da,
    /// The blend-network port.
    Blend,
}

/// Why the identities or ports of a topology could not be resolved.
#[derive(Clone, Copy, Debug, PartialEq, Eq, Structural)]
pub enum TopologyResolveError {
    IdCountMismatch { expected: usize, actual: usize },
    PortCountMismatch { kind: PortKind, expected: usize, actual: usize },
    /// The operating system supplied no free port for one of the nodes.
    PortAllocationFailed { kind: PortKind },
}

/// The results of asking the operating system for a free port, one entry
/// per request and `None` where none could be had; consulted only for the
/// port kinds that the builder was not given explicitly.
#[derive(Clone, Debug)]
pub struct AllocatedPorts {
    pub da: Vec<Option<u16>>,
    pub blend: Vec<Option<u16>>,
}

impl AllocatedPorts {
    /// No allocation results, for builders given all their ports.
    pub fn none() -> (r: Self)
        ensures
            r.da@.len() == 0 && r.blend@.len() == 0,
    {
        AllocatedPorts { da: Vec::new(), blend: Vec::new() }
    }
}

/// Which per-node vector had the wrong length.
#[derive(Clone, Copy, Debug, PartialEq, Eq, Structural)]
pub enum VectorKind {
    Ids,
    DaPorts,
    BlendPorts,
}

/// A generated topology that would break global uniqueness.
#[derive(Clone, Copy, Debug, PartialEq, Eq, Structural)]
pub enum TopologyInvariantError {
    VectorLenMismatch { kind: VectorKind, expected: usize, actual: usize },
    /// Two nodes were given the same identity.
    DuplicateId { first: usize, second: usize },
    /// A port was assigned twice among all data-availability and blend ports.
    DuplicatePort { port: u16 },
}

/// No two identities are equal.
pub open spec fn ids_distinct(ids: Seq<[u8; 32]>) -> bool {
    forall|i: int, j: int| 0 <= i < ids.len() && 0 <= j < ids.len() && i != j ==> ids[i]@ != ids[j]@
}

/// No port occurs twice among the data-availability and blend ports together.
pub open spec fn ports_distinct(da: Seq<u16>, blend: Seq<u16>) -> bool {
    (da + blend).no_duplicates()
}

/// The ports that `count` allocation attempts produced, if all of them
/// succeeded; a missing attempt counts as a failed one.
pub open spec fn allocated_ports(alloc: Seq<Option<u16>>, count: nat) -> Option<Seq<u16>> {
    if count <= alloc.len() && forall|i: int| 0 <= i < count ==> #[trigger] alloc[i] is Some {
        Some(Seq::new(count, |i: int| alloc[i]->Some_0))
    } else {
        None
    }
}

/// The outcome of resolving one kind of port for `count` nodes.
pub open spec fn resolved_ports(
    ports: Option<Seq<u16>>,
    count: nat,
    kind: PortKind,
    alloc: Seq<Option<u16>>,
) -> Result<Seq<u16>, TopologyResolveError> {
    match ports {
        Some(p) => if p.len() == count {
            Ok(p)
        } else {
            Err(TopologyResolveError::PortCountMismatch { kind, expected: count as usize, actual: p.len() as usize })
        },
        None => match allocated_ports(alloc, count) {
            Some(p) => Ok(p),
            None => Err(TopologyResolveError::PortAllocationFailed { kind }),
        },
    }
}

pub open spec fn opt_view<T: View>(o: Option<T>) -> Option<T::V> {
    match o {
        Some(v) => Some(v@),
        None => None,
    }
}

pub open spec fn result_view<T: View, E>(r: Result<T, E>) -> Result<T::V, E> {
    match r {
        Ok(v) => Ok(v@),
        Err(e) => Err(e),
    }
}

/// Relies on rand::random: a value drawn from the thread-local generator,
/// of which nothing is known.
#[verifier::external_body]
fn random_node_id() -> [u8; 32] {
    rand::random::<[u8; 32]>()
}

/// The identities of `count` nodes: the caller's, which must be exactly
/// `count`, or `count` freshly drawn random ones.
pub fn resolve_ids(ids: Option<Vec<[u8; 32]>>, count: usize) -> (r: Result<Vec<[u8; 32]>, TopologyResolveError>)
    ensures
        match ids {
            Some(given) => if given@.len() == count {
                r == Ok::<Vec<[u8; 32]>, TopologyResolveError>(given)
            } else {
                r == Err::<Vec<[u8; 32]>, TopologyResolveError>(
                    TopologyResolveError::IdCountMismatch { expected: count, actual: given@.len() as usize },
                )
            },
            None => r matches Ok(generated) && generated@.len() == count,
        },
{
    match ids {
        Some(given) => {
            if given.len() != count {
                let actual = given.len();
                return Err(TopologyResolveError::IdCountMismatch { expected: count, actual });
            }
            Ok(given)
        },
        None => {
            let mut generated: Vec<[u8; 32]> = Vec::new();
            let mut i: usize = 0;
            while i < count
                invariant
                    i <= count,
                    generated@.len() == i,
                decreases count - i,
            {
                generated.push(random_node_id());
                i = i + 1;
            }
            Ok(generated)
        },
    }
}

/// The ports of one kind for `count` nodes: the caller's, which must be
/// exactly `count`, or else the first `count` results of asking the
/// operating system for a free port (`alloc`, `None` where it had none).
pub fn resolve_ports(
    ports: Option<Vec<u16>>,
    count: usize,
    kind: PortKind,
    alloc: &Vec<Option<u16>>,
) -> (r: Result<Vec<u16>, TopologyResolveError>)
    ensures
        result_view(r) == resolved_ports(opt_view(ports), count as nat, kind, alloc@),
{
    match ports {
        Some(given) => {
            if given.len() != count {
                let actual = given.len();
                return Err(TopologyResolveError::PortCountMismatch { kind, expected: count, actual });
            }
            Ok(given)
        },
        None => {
            if alloc.len() < count {
                return Err(TopologyResolveError::PortAllocationFailed { kind });
            }
            let mut out: Vec<u16> = Vec::new();
            let mut i: usize = 0;
            while i < count
                invariant
                    i <= count <= alloc@.len(),
                    ports is None,
                    out@.len() == i,
                    forall|j: int| 0 <= j < i ==> (#[trigger] alloc@[j]) is Some && out@[j] == alloc@[j]->Some_0,
                decreases count - i,
            {
                match alloc[i] {
                    Some(port) => out.push(port),
                    None => {
                        assert(!(alloc@[i as int] is Some));
                        return Err(TopologyResolveError::PortAllocationFailed { kind });
                    },
                }
                i = i + 1;
            }
            assert(out@ =~= Seq::new(count as nat, |j: int| alloc@[j]->Some_0));
            Ok(out)
        },
    }
}

fn same_id(a: &[u8; 32], b: &[u8; 32]) -> (r: bool)
    ensures
        r == (a@ == b@),
{
    let mut i: usize = 0;
    while i < 32
        invariant
            0 <= i <= 32,
            a@.len() == 32 && b@.len() == 32,
            forall|j: int| 0 <= j < i ==> a@[j] == b@[j],
        decreases 32 - i,
    {
        if a[i] != b[i] {
            return false;
        }
        i = i + 1;
    }
    assert(a@ =~= b@);
    true
}

fn find_duplicate_id(ids: &Vec<[u8; 32]>) -> (r: Option<(usize, usize)>)
    ensures
        r is None <==> ids_distinct(ids@),
        r matches Some((i, j)) ==> i < j < ids@.len() && ids@[i as int]@ == ids@[j as int]@,
{
    let mut i: usize = 0;
    while i < ids.len()
        invariant
            0 <= i <= ids@.len(),
            forall|a: int, b: int| 0 <= a < i && a < b < ids@.len() ==> ids@[a]@ != ids@[b]@,
        decreases ids@.len() - i,
    {
        let mut j: usize = i + 1;
        while j < ids.len()
            invariant
                i < ids@.len(),
                i + 1 <= j <= ids@.len(),
                forall|a: int, b: int| 0 <= a < i && a < b < ids@.len() ==> ids@[a]@ != ids@[b]@,
                forall|b: int| i < b < j ==> ids@[i as int]@ != ids@[b]@,
            decreases ids@.len() - j,
        {
            if same_id(&ids[i], &ids[j]) {
                return Some((i, j));
            }
            j = j + 1;
        }
        i = i + 1;
    }
    None
}

fn find_duplicate_port(ports: &Vec<u16>) -> (r: Option<u16>)
    ensures
        r is None <==> ports@.no_duplicates(),
        r matches Some(p) ==> exists|i: int, j: int|
            0 <= i < j < ports@.len() && ports@[i] == p && ports@[j] == p,
{
    let mut i: usize = 0;
    while i < ports.len()
        invariant
            0 <= i <= ports@.len(),
            forall|a: int, b: int| 0 <= a < i && a < b < ports@.len() ==> ports@[a] != ports@[b],
        decreases ports@.len() - i,
    {
        let mut j: usize = i + 1;
        while j < ports.len()
            invariant
                i < ports@.len(),
                i + 1 <= j <= ports@.len(),
                forall|a: int, b: int| 0 <= a < i && a < b < ports@.len() ==> ports@[a] != ports@[b],
                forall|b: int| i < b < j ==> ports@[i as int] != ports@[b],
            decreases ports@.len() - j,
        {
            if ports[i] == ports[j] {
                return Some(ports[i]);
            }
            j = j + 1;
        }
        i = i + 1;
    }
    None
}

/// Checks the generated per-node vectors before any node configuration is
/// derived from them: each holds one entry per node, identities are
/// pairwise distinct, and no port is used twice across both port kinds.
pub fn validate_generated_vectors(
    n: usize,
    ids: &Vec<[u8; 32]>,
    da_ports: &Vec<u16>,
    blend_ports: &Vec<u16>,
) -> (r: Result<(), TopologyInvariantError>)
    ensures
        ids@.len() != n ==> r == Err::<(), TopologyInvariantError>(TopologyInvariantError::VectorLenMismatch {
            kind: VectorKind::Ids, expected: n, actual: ids@.len() as usize }),
        ids@.len() == n && da_ports@.len() != n ==> r == Err::<(), TopologyInvariantError>(
            TopologyInvariantError::VectorLenMismatch { kind: VectorKind::DaPorts, expected: n, actual: da_ports@.len() as usize }),
        ids@.len() == n && da_ports@.len() == n && blend_ports@.len() != n ==> r == Err::<(), TopologyInvariantError>(
            TopologyInvariantError::VectorLenMismatch { kind: VectorKind::BlendPorts, expected: n, actual: blend_ports@.len() as usize }),
        r is Ok <==> ids@.len() == n && da_ports@.len() == n && blend_ports@.len() == n
            && ids_distinct(ids@) && ports_distinct(da_ports@, blend_ports@),
        r matches Err(TopologyInvariantError::VectorLenMismatch { .. }) ==>
            !(ids@.len() == n && da_ports@.len() == n && blend_ports@.len() == n),
        r matches Err(TopologyInvariantError::DuplicateId { first, second }) ==>
            first < second < ids@.len() && ids@[first as int]@ == ids@[second as int]@,
        r matches Err(TopologyInvariantError::DuplicatePort { .. }) ==> ids_distinct(ids@),
        r matches Err(TopologyInvariantError::DuplicatePort { port }) ==> exists|i: int, j: int|
            0 <= i < j < (da_ports@ + blend_ports@).len()
            && (da_ports@ + blend_ports@)[i] == port && (da_ports@ + blend_ports@)[j] == port,
{
    if ids.len() != n {
        return Err(TopologyInvariantError::VectorLenMismatch { kind: VectorKind::Ids, expected: n, actual: ids.len() });
    }
    if da_ports.len() != n {
        return Err(TopologyInvariantError::VectorLenMismatch { kind: VectorKind::DaPorts, expected: n, actual: da_ports.len() });
    }
    if blend_ports.len() != n {
        return Err(TopologyInvariantError::VectorLenMismatch { kind: VectorKind::BlendPorts, expected: n, actual: blend_ports.len() });
    }
    if let Some((first, second)) = find_duplicate_id(ids) {
        return Err(TopologyInvariantError::DuplicateId { first, second });
    }
    let mut all: Vec<u16> = Vec::new();
    let mut i: usize = 0;
    while i < da_ports.len()
        invariant
            0 <= i <= da_ports@.len(),
            all@ == da_ports@.subrange(0, i as int),
        decreases da_ports@.len() - i,
    {
        all.push(da_ports[i]);
        i = i + 1;
        assert(all@ =~= da_ports@.subrange(0, i as int));
    }
    let mut k: usize = 0;
    while k < blend_ports.len()
        invariant
            0 <= k <= blend_ports@.len(),
            all@ == da_ports@ + blend_ports@.subrange(0, k as int),
        decreases blend_ports@.len() - k,
    {
        all.push(blend_ports[k]);
        k = k + 1;
        assert(all@ =~= da_ports@ + blend_ports@.subrange(0, k as int));
    }
    assert(all@ =~= da_ports@ + blend_ports@);
    match find_duplicate_port(&all) {
        Some(port) => Err(TopologyInvariantError::DuplicatePort { port }),
        None => Ok(()),
    }
}

} // verus!
