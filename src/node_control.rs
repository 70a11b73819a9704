//! Per-node lifecycle bookkeeping behind node control: which named nodes
//! run under which process identifier, and the state machine
//! `unstarted -> running -> (restart -> running)* -> stopped`.
//! The embedding program performs the process work and reports its
//! outcome here; every transition is checked before it is recorded.

use vstd::prelude::*;
use vstd::string::*;

verus! {

#[derive(Clone, Copy, Debug, PartialEq, Eq, Structural)]
pub enum NodeState {
    Running { pid: u32 },
    Stopped,
}

/// What is recorded of a started node.
#[derive(Clone, Copy, Debug, PartialEq, Eq, Structural)]
pub struct NodeRecord {
    pub state: NodeState,
    /// The port on which the node accepts peers.
    pub network_port: u16,
}

#[derive(Clone, Debug)]
pub struct NodeEntry {
    pub name: String,
    pub record: NodeRecord,
}

/// Which peers a newly started node joins.
#[derive(Clone, Debug)]
pub enum PeerSelection {
    /// Start without initial peers.
    NoPeers,
    Named(Vec<String>),
}

#[derive(Clone, Debug, PartialEq, Eq)]
pub enum NodeControlError {
    /// A node of this name was started before.
    AlreadyStarted { name: String },
    /// The node is unknown or stopped.
    NodeNotRunning { name: String },
    /// The restarted node reported the identifier it had before.
    SameIdentifier { name: String, pid: u32 },
    /// A selected peer is unknown or stopped.
    UnknownPeer { name: String },
}

/// Options for starting one node.
#[derive(Clone, Debug)]
pub struct StartNodeOptions {
    pub peers: PeerSelection,
    /// A configuration overlay, passed through to the node unchanged.
    pub config_patch: Option<String>,
    /// Where the node's state is kept after the cluster goes away.
    pub persist_dir: Option<String>,
}

impl Default for StartNodeOptions {
    fn default() -> (r: Self)
        ensures
            r.peers is NoPeers && r.config_patch is None && r.persist_dir is None,
    {
        StartNodeOptions { peers: PeerSelection::NoPeers, config_patch: None, persist_dir: None }
    }
}

/// The name under which a node started with `label` is known.
pub open spec fn node_name_spec(label: Seq<char>) -> Seq<char> {
    seq!['n', 'o', 'd', 'e', '-'] + label
}

/// The name under which a node started with `label` is known: `node-<label>`.
pub fn node_name(label: &str) -> (r: String)
    ensures
        r@ == node_name_spec(label@),
{
    proof {
        reveal_strlit("node-");
    }
    let mut r = String::from_str("node-");
    r.append(label);
    r
}

/// The started nodes of one deployment.
#[derive(Debug)]
pub struct NodeRegistry {
    entries: Vec<NodeEntry>,
}

pub open spec fn has_name(entries: Seq<NodeEntry>, i: int, k: Seq<char>) -> bool {
    0 <= i < entries.len() && entries[i].name@ == k
}

pub open spec fn names_unique(entries: Seq<NodeEntry>) -> bool {
    forall|i: int, j: int| 0 <= i < entries.len() && 0 <= j < entries.len() && i != j
        ==> entries[i].name@ != entries[j].name@
}

pub open spec fn entries_view(entries: Seq<NodeEntry>) -> Map<Seq<char>, NodeRecord> {
    Map::new(
        |k: Seq<char>| exists|i: int| has_name(entries, i, k),
        |k: Seq<char>| entries[choose|i: int| has_name(entries, i, k)].record,
    )
}

/// The identifier of the named node while it runs.
pub open spec fn pid_of(m: Map<Seq<char>, NodeRecord>, name: Seq<char>) -> Option<u32> {
    if m.contains_key(name) && m[name].state is Running {
        Some(m[name].state->Running_pid)
    } else {
        None
    }
}

pub open spec fn running_record(pid: u32, network_port: u16) -> NodeRecord {
    NodeRecord { state: NodeState::Running { pid }, network_port }
}

/// `r` reports that `name` is not running.
pub open spec fn not_running_error<T>(r: Result<T, NodeControlError>, name: Seq<char>) -> bool {
    r is Err && r->Err_0 is NodeNotRunning && r->Err_0->NodeNotRunning_name@ == name
}

/// How a restart of `name`, reported to have come back as `new_pid`,
/// takes the nodes from `before` to `after`.
pub open spec fn restarted(
    before: Map<Seq<char>, NodeRecord>,
    after: Map<Seq<char>, NodeRecord>,
    name: Seq<char>,
    new_pid: u32,
    r: Result<u32, NodeControlError>,
) -> bool {
    let old_pid = pid_of(before, name);
    &&& old_pid is None ==> not_running_error(r, name) && after == before
    &&& old_pid == Some(new_pid) ==> r is Err && r->Err_0 is SameIdentifier
        && r->Err_0->SameIdentifier_name@ == name && r->Err_0->SameIdentifier_pid == new_pid && after == before
    &&& old_pid is Some && old_pid->Some_0 != new_pid ==> r == Ok::<u32, NodeControlError>(old_pid->Some_0)
        && after == before.insert(name, running_record(new_pid, before[name].network_port))
}

/// How stopping `name` takes the nodes from `before` to `after`.
pub open spec fn stopped(
    before: Map<Seq<char>, NodeRecord>,
    after: Map<Seq<char>, NodeRecord>,
    name: Seq<char>,
    r: Result<u32, NodeControlError>,
) -> bool {
    let old_pid = pid_of(before, name);
    &&& old_pid is None ==> not_running_error(r, name) && after == before
    &&& old_pid is Some ==> r == Ok::<u32, NodeControlError>(old_pid->Some_0)
        && after == before.insert(name, NodeRecord { state: NodeState::Stopped, network_port: before[name].network_port })
}

/// A restart that succeeds leaves the node running under an identifier
/// other than the one it had before; a restart of a node that is not
/// running (never started, or stopped) fails and changes nothing.
pub proof fn restart_yields_new_identifier(
    before: Map<Seq<char>, NodeRecord>,
    after: Map<Seq<char>, NodeRecord>,
    name: Seq<char>,
    new_pid: u32,
    r: Result<u32, NodeControlError>,
)
    requires
        restarted(before, after, name, new_pid, r),
    ensures
        r is Ok ==> pid_of(before, name) is Some && pid_of(after, name) == Some(new_pid)
            && pid_of(after, name) != pid_of(before, name),
        pid_of(before, name) is None ==> r is Err && pid_of(after, name) is None,
{
}

/// Once a node is stopped its identifier is gone, and a node that was
/// never started has none.
pub proof fn stopped_node_has_no_identifier(
    before: Map<Seq<char>, NodeRecord>,
    after: Map<Seq<char>, NodeRecord>,
    name: Seq<char>,
    r: Result<u32, NodeControlError>,
)
    requires
        stopped(before, after, name, r),
    ensures
        pid_of(after, name) is None,
        !before.contains_key(name) ==> pid_of(before, name) is None && r is Err,
{
}

proof fn lemma_view_at(entries: Seq<NodeEntry>, i: int)
    requires
        names_unique(entries),
        0 <= i < entries.len(),
    ensures
        entries_view(entries).contains_key(entries[i].name@),
        entries_view(entries)[entries[i].name@] == entries[i].record,
{
    let k = entries[i].name@;
    assert(has_name(entries, i, k));
    let j = choose|j: int| has_name(entries, j, k);
    assert(j == i);
}

proof fn lemma_view_set(entries: Seq<NodeEntry>, i: int, e: NodeEntry)
    requires
        names_unique(entries),
        0 <= i < entries.len(),
        e.name@ == entries[i].name@,
    ensures
        names_unique(entries.update(i, e)),
        entries_view(entries.update(i, e)) == entries_view(entries).insert(e.name@, e.record),
{
    let new = entries.update(i, e);
    assert forall|a: int, b: int| 0 <= a < new.len() && 0 <= b < new.len() && a != b
        implies new[a].name@ != new[b].name@ by {
        assert(new[a].name@ == entries[a].name@);
        assert(new[b].name@ == entries[b].name@);
    }
    let m = entries_view(entries).insert(e.name@, e.record);
    assert forall|k: Seq<char>| #[trigger] entries_view(new).contains_key(k) <==> m.contains_key(k) by {
        if entries_view(new).contains_key(k) {
            let j = choose|j: int| has_name(new, j, k);
            assert(has_name(entries, j, k));
        }
        if m.contains_key(k) && k != e.name@ {
            let j = choose|j: int| has_name(entries, j, k);
            assert(has_name(new, j, k));
        }
        if k == e.name@ {
            assert(has_name(new, i, k));
        }
    }
    assert forall|k: Seq<char>| #[trigger] entries_view(new).contains_key(k) implies entries_view(new)[k] == m[k] by {
        let j = choose|j: int| has_name(new, j, k);
        if k == e.name@ {
            assert(has_name(new, i, k));
            assert(j == i);
        } else {
            assert(has_name(entries, j, k));
            lemma_view_at(entries, j);
        }
    }
    assert(entries_view(new) =~= m);
}

proof fn lemma_view_push(entries: Seq<NodeEntry>, e: NodeEntry)
    requires
        names_unique(entries),
        !entries_view(entries).contains_key(e.name@),
    ensures
        names_unique(entries.push(e)),
        entries_view(entries.push(e)) == entries_view(entries).insert(e.name@, e.record),
{
    let new = entries.push(e);
    let n = entries.len() as int;
    assert forall|i: int| 0 <= i < n implies entries[i].name@ != e.name@ by {
        if entries[i].name@ == e.name@ {
            assert(has_name(entries, i, e.name@));
        }
    }
    assert forall|a: int, b: int| 0 <= a < new.len() && 0 <= b < new.len() && a != b
        implies new[a].name@ != new[b].name@ by {
        if a < n && b < n {
            assert(new[a] == entries[a] && new[b] == entries[b]);
        } else if a < n {
            assert(new[a] == entries[a]);
        } else {
            assert(new[b] == entries[b]);
        }
    }
    let m = entries_view(entries).insert(e.name@, e.record);
    assert forall|k: Seq<char>| #[trigger] entries_view(new).contains_key(k) <==> m.contains_key(k) by {
        if entries_view(new).contains_key(k) && k != e.name@ {
            let j = choose|j: int| has_name(new, j, k);
            assert(j < n);
            assert(has_name(entries, j, k));
        }
        if m.contains_key(k) && k != e.name@ {
            let j = choose|j: int| has_name(entries, j, k);
            assert(has_name(new, j, k));
        }
        if k == e.name@ {
            assert(has_name(new, n, k));
        }
    }
    assert forall|k: Seq<char>| #[trigger] entries_view(new).contains_key(k) implies entries_view(new)[k] == m[k] by {
        let j = choose|j: int| has_name(new, j, k);
        if k == e.name@ {
            assert(has_name(new, n, k));
            lemma_view_at(new, n);
        } else {
            assert(j < n);
            assert(has_name(entries, j, k));
            lemma_view_at(entries, j);
        }
    }
    assert(entries_view(new) =~= m);
}

impl View for NodeRegistry {
    type V = Map<Seq<char>, NodeRecord>;

    closed spec fn view(&self) -> Map<Seq<char>, NodeRecord> {
        entries_view(self.entries@)
    }
}

impl NodeRegistry {
    pub closed spec fn wf(&self) -> bool {
        names_unique(self.entries@)
    }

    pub fn new() -> (r: Self)
        ensures
            r.wf(),
            r@ == Map::<Seq<char>, NodeRecord>::empty(),
    {
        let r = NodeRegistry { entries: Vec::new() };
        assert(r@ =~= Map::<Seq<char>, NodeRecord>::empty());
        r
    }

    fn find(&self, name: &String) -> (r: Option<usize>)
        requires
            self.wf(),
        ensures
            r matches Some(i) ==> has_name(self.entries@, i as int, name@)
                && self@.contains_key(name@) && self@[name@] == self.entries@[i as int].record,
            r is None ==> !self@.contains_key(name@),
    {
        let mut i: usize = 0;
        while i < self.entries.len()
            invariant
                0 <= i <= self.entries@.len(),
                self.wf(),
                forall|j: int| 0 <= j < i ==> self.entries@[j].name@ != name@,
            decreases self.entries@.len() - i,
        {
            if self.entries[i].name == *name {
                proof {
                    lemma_view_at(self.entries@, i as int);
                }
                return Some(i);
            }
            i = i + 1;
        }
        proof {
            if self@.contains_key(name@) {
                let j = choose|j: int| has_name(self.entries@, j, name@);
                assert(self.entries@[j].name@ != name@);
            }
        }
        None
    }

    /// The identifier of the named node, while it runs.
    pub fn node_pid(&self, name: &str) -> (r: Option<u32>)
        requires
            self.wf(),
        ensures
            r == pid_of(self@, name@),
    {
        let key = String::from_str(name);
        match self.find(&key) {
            Some(i) => match self.entries[i].record.state {
                NodeState::Running { pid } => Some(pid),
                NodeState::Stopped => None,
            },
            None => None,
        }
    }

    /// Records that the named node was started under `pid`.
    pub fn start_node(&mut self, name: &str, pid: u32, network_port: u16) -> (r: Result<(), NodeControlError>)
        requires
            old(self).wf(),
        ensures
            final(self).wf(),
            old(self)@.contains_key(name@) ==> (r matches Err(NodeControlError::AlreadyStarted { name: n })
                && n@ == name@ && final(self)@ == old(self)@),
            !old(self)@.contains_key(name@) ==> r is Ok
                && final(self)@ == old(self)@.insert(name@, running_record(pid, network_port)),
    {
        let key = String::from_str(name);
        match self.find(&key) {
            Some(_) => Err(NodeControlError::AlreadyStarted { name: key }),
            None => {
                let e = NodeEntry { name: key, record: NodeRecord { state: NodeState::Running { pid }, network_port } };
                proof {
                    lemma_view_push(self.entries@, e);
                }
                self.entries.push(e);
                Ok(())
            },
        }
    }

    /// The peer ports that a newly started node is to dial: none, or those
    /// of the named nodes in the given order, each of which must be running.
    pub fn resolve_peers(&self, selection: &PeerSelection) -> (r: Result<Vec<u16>, NodeControlError>)
        requires
            self.wf(),
        ensures
            selection is NoPeers ==> r is Ok && r->Ok_0@.len() == 0,
            selection is Named ==> {
                let names = selection->Named_0@;
                &&& (forall|i: int| 0 <= i < names.len() ==> pid_of(self@, #[trigger] names[i]@) is Some) ==> r is Ok
                    && r->Ok_0@.len() == names.len()
                    && forall|i: int| 0 <= i < names.len() ==> r->Ok_0@[i] == self@[#[trigger] names[i]@].network_port
                &&& r is Err ==> exists|i: int| 0 <= i < names.len() && pid_of(self@, #[trigger] names[i]@) is None
                    && r->Err_0 == NodeControlError::UnknownPeer { name: names[i] }
                    && forall|j: int| 0 <= j < i ==> pid_of(self@, #[trigger] names[j]@) is Some
            },
    {
        let mut ports: Vec<u16> = Vec::new();
        match selection {
            PeerSelection::NoPeers => Ok(ports),
            PeerSelection::Named(names) => {
                let mut i: usize = 0;
                while i < names.len()
                    invariant
                        self.wf(),
                        selection is Named && selection->Named_0@ == names@,
                        0 <= i <= names@.len(),
                        ports@.len() == i,
                        forall|j: int| 0 <= j < i ==> pid_of(self@, #[trigger] names@[j]@) is Some,
                        forall|j: int| 0 <= j < i ==> ports@[j] == self@[#[trigger] names@[j]@].network_port,
                    decreases names@.len() - i,
                {
                    match self.find(&names[i]) {
                        Some(k) => {
                            let record = self.entries[k].record;
                            if let NodeState::Stopped = record.state {
                                assert(pid_of(self@, names@[i as int]@) is None);
                                return Err(NodeControlError::UnknownPeer { name: names[i].clone() });
                            }
                            ports.push(record.network_port);
                        },
                        None => {
                            assert(pid_of(self@, names@[i as int]@) is None);
                            return Err(NodeControlError::UnknownPeer { name: names[i].clone() });
                        },
                    }
                    i = i + 1;
                }
                Ok(ports)
            },
        }
    }

    /// The identifier to replace when restarting the named node, which
    /// must be running.
    pub fn restart_target(&self, name: &str) -> (r: Result<u32, NodeControlError>)
        requires
            self.wf(),
        ensures
            pid_of(self@, name@) is Some ==> r == Ok::<u32, NodeControlError>(pid_of(self@, name@)->Some_0),
            pid_of(self@, name@) is None ==> (r matches Err(NodeControlError::NodeNotRunning { name: n }) && n@ == name@),
    {
        match self.node_pid(name) {
            Some(pid) => Ok(pid),
            None => Err(NodeControlError::NodeNotRunning { name: String::from_str(name) }),
        }
    }

    /// Records that the named running node now runs under `new_pid`, and
    /// returns the identifier it had. A node that is not running, or whose
    /// reported identifier did not change, is refused and left as it was.
    pub fn restart_node(&mut self, name: &str, new_pid: u32) -> (r: Result<u32, NodeControlError>)
        requires
            old(self).wf(),
        ensures
            final(self).wf(),
            restarted(old(self)@, final(self)@, name@, new_pid, r),
    {
        let key = String::from_str(name);
        match self.find(&key) {
            None => Err(NodeControlError::NodeNotRunning { name: key }),
            Some(i) => {
                let record = self.entries[i].record;
                match record.state {
                    NodeState::Stopped => Err(NodeControlError::NodeNotRunning { name: key }),
                    NodeState::Running { pid } => {
                        if pid == new_pid {
                            return Err(NodeControlError::SameIdentifier { name: key, pid });
                        }
                        let e = NodeEntry {
                            name: key,
                            record: NodeRecord { state: NodeState::Running { pid: new_pid }, network_port: record.network_port },
                        };
                        proof {
                            lemma_view_set(self.entries@, i as int, e);
                        }
                        self.entries.set(i, e);
                        Ok(pid)
                    },
                }
            },
        }
    }

    /// Records that the named running node was stopped, and returns the
    /// identifier it had.
    pub fn stop_node(&mut self, name: &str) -> (r: Result<u32, NodeControlError>)
        requires
            old(self).wf(),
        ensures
            final(self).wf(),
            stopped(old(self)@, final(self)@, name@, r),
    {
        let key = String::from_str(name);
        match self.find(&key) {
            None => Err(NodeControlError::NodeNotRunning { name: key }),
            Some(i) => {
                let record = self.entries[i].record;
                match record.state {
                    NodeState::Stopped => Err(NodeControlError::NodeNotRunning { name: key }),
                    NodeState::Running { pid } => {
                        let e = NodeEntry {
                            name: key,
                            record: NodeRecord { state: NodeState::Stopped, network_port: record.network_port },
                        };
                        proof {
                            lemma_view_set(self.entries@, i as int, e);
                        }
                        self.entries.set(i, e);
                        Ok(pid)
                    },
                }
            },
        }
    }
}

} // verus!
