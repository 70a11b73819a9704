//! The generic poll-until-ready decision behind every readiness and
//! convergence wait, and the network-readiness check of a manual cluster.
//! The embedding program collects a snapshot, asks for a decision, and
//! sleeps or stops as told.

use vstd::prelude::*;
use vstd::string::*;
use crate::text::{comma_sep, decimal, join, lemma_join_contains, push_decimal};

verus! {

#[derive(Clone, Copy, Debug, PartialEq, Eq, Structural)]
pub enum PollDecision {
    /// The snapshot satisfies the predicate.
    Ready,
    /// Collect again after this many milliseconds.
    Retry { sleep_ms: u64 },
    /// The overall timeout has elapsed.
    TimedOut,
}

/// The decision after a collection at `elapsed_ms` since the wait began:
/// done when ready, failed once the timeout has elapsed, else wait one
/// poll interval, cut short so that no sleep reaches past the timeout.
pub open spec fn poll_decision(ready: bool, elapsed_ms: u64, timeout_ms: u64, poll_interval_ms: u64) -> PollDecision {
    if ready {
        PollDecision::Ready
    } else if elapsed_ms >= timeout_ms {
        PollDecision::TimedOut
    } else if poll_interval_ms <= timeout_ms - elapsed_ms {
        PollDecision::Retry { sleep_ms: poll_interval_ms }
    } else {
        PollDecision::Retry { sleep_ms: (timeout_ms - elapsed_ms) as u64 }
    }
}

/// The timing of one readiness wait.
#[derive(Clone, Copy, Debug, PartialEq, Eq, Structural)]
pub struct ReadinessPoll {
    pub timeout_ms: u64,
    pub poll_interval_ms: u64,
}

impl ReadinessPoll {
    pub fn new(timeout_ms: u64, poll_interval_ms: u64) -> (r: Self)
        ensures
            r.timeout_ms == timeout_ms && r.poll_interval_ms == poll_interval_ms,
    {
        ReadinessPoll { timeout_ms, poll_interval_ms }
    }

    /// What to do after a collection whose snapshot was judged `ready`,
    /// made `elapsed_ms` after the wait began.
    pub fn decide(&self, ready: bool, elapsed_ms: u64) -> (r: PollDecision)
        ensures
            r == poll_decision(ready, elapsed_ms, self.timeout_ms, self.poll_interval_ms),
    {
        if ready {
            PollDecision::Ready
        } else if elapsed_ms >= self.timeout_ms {
            PollDecision::TimedOut
        } else if self.poll_interval_ms <= self.timeout_ms - elapsed_ms {
            PollDecision::Retry { sleep_ms: self.poll_interval_ms }
        } else {
            PollDecision::Retry { sleep_ms: self.timeout_ms - elapsed_ms }
        }
    }
}

/// The elapsed time at which a wait whose snapshots are never ready ends,
/// starting from `elapsed_ms` and taking no time to collect.
pub open spec fn unready_wait_end(timeout_ms: u64, poll_interval_ms: u64, elapsed_ms: u64) -> u64
    decreases timeout_ms - elapsed_ms,
{
    match poll_decision(false, elapsed_ms, timeout_ms, poll_interval_ms) {
        PollDecision::Retry { sleep_ms } => if sleep_ms > 0 && elapsed_ms + sleep_ms <= timeout_ms {
            unready_wait_end(timeout_ms, poll_interval_ms, (elapsed_ms + sleep_ms) as u64)
        } else {
            elapsed_ms
        },
        _ => elapsed_ms,
    }
}

/// A wait whose first snapshot is ready ends at once, with no sleep; a
/// wait whose snapshots are never ready times out exactly when the
/// timeout has elapsed, neither earlier nor later (collections taking no
/// time), and no sleep it asks for reaches past the timeout.
pub proof fn readiness_wait_timing(timeout_ms: u64, poll_interval_ms: u64, elapsed_ms: u64)
    requires
        poll_interval_ms > 0,
        elapsed_ms <= timeout_ms,
    ensures
        poll_decision(true, elapsed_ms, timeout_ms, poll_interval_ms) == PollDecision::Ready,
        unready_wait_end(timeout_ms, poll_interval_ms, elapsed_ms) == timeout_ms,
        poll_decision(false, unready_wait_end(timeout_ms, poll_interval_ms, elapsed_ms), timeout_ms, poll_interval_ms)
            == PollDecision::TimedOut,
        poll_decision(false, elapsed_ms, timeout_ms, poll_interval_ms) matches PollDecision::Retry { sleep_ms }
            ==> elapsed_ms + sleep_ms <= timeout_ms,
    decreases timeout_ms - elapsed_ms,
{
    if elapsed_ms < timeout_ms {
        let sleep_ms = poll_decision(false, elapsed_ms, timeout_ms, poll_interval_ms)->Retry_sleep_ms;
        readiness_wait_timing(timeout_ms, poll_interval_ms, (elapsed_ms + sleep_ms) as u64);
    }
}

/// A node whose peer count is awaited.
#[derive(Clone, Debug)]
pub struct ReadinessNode {
    pub label: String,
    /// The peer count at which the node counts as connected.
    pub expected_peers: Option<usize>,
}

/// The network status a node reported.
#[derive(Clone, Copy, Debug, PartialEq, Eq, Structural)]
pub struct NetworkInfo {
    pub n_peers: usize,
}

/// One node's part of a network-readiness snapshot: its status, or why
/// the status request failed.
#[derive(Debug)]
pub struct ManualNetworkStatus {
    pub label: String,
    pub expected_peers: Option<usize>,
    pub result: Result<NetworkInfo, String>,
}

/// Waits until every node of a manual cluster sees its expected peers.
#[derive(Clone, Debug)]
pub struct ManualNetworkReadiness {
    pub nodes: Vec<ReadinessNode>,
}

/// The node reported at least its expected number of peers.
pub open spec fn status_ready(s: ManualNetworkStatus) -> bool {
    &&& s.expected_peers is Some
    &&& s.result is Ok
    &&& s.result->Ok_0.n_peers >= s.expected_peers->Some_0
}

pub open spec fn expected_or_zero(e: Option<usize>) -> usize {
    match e {
        Some(n) => n,
        None => 0,
    }
}

/// `<label> (peers <n>/<expected>)`, or `<label> (error: <reason>)`.
pub open spec fn status_summary(s: ManualNetworkStatus) -> Seq<char> {
    match s.result {
        Ok(info) => s.label@ + " (peers "@ + decimal(info.n_peers as nat) + "/"@
            + decimal(expected_or_zero(s.expected_peers) as nat) + ")"@,
        Err(e) => s.label@ + " (error: "@ + e@ + ")"@,
    }
}

pub open spec fn network_timeout_message(data: Seq<ManualNetworkStatus>) -> Seq<char> {
    "timed out waiting for network readiness: "@ + join(data.map_values(|s: ManualNetworkStatus| status_summary(s)), comma_sep())
}

/// The timeout message names every node with its last status.
pub proof fn network_timeout_message_covers_every_node(data: Seq<ManualNetworkStatus>, i: int)
    requires
        0 <= i < data.len(),
    ensures
        exists|off: int| 0 <= off && off + status_summary(data[i]).len() <= network_timeout_message(data).len()
            && #[trigger] network_timeout_message(data).subrange(off, off + status_summary(data[i]).len())
                == status_summary(data[i]),
{
    let parts = data.map_values(|s: ManualNetworkStatus| status_summary(s));
    let prefix = "timed out waiting for network readiness: "@;
    let j = join(parts, comma_sep());
    lemma_join_contains(parts, comma_sep(), i);
    let off = choose|off: int| 0 <= off && off + parts[i].len() <= j.len()
        && #[trigger] j.subrange(off, off + parts[i].len()) == parts[i];
    let m = network_timeout_message(data);
    let o = prefix.len() + off;
    assert(m.subrange(o, o + parts[i].len()) =~= j.subrange(off, off + parts[i].len()));
    assert(0 <= o && o + status_summary(data[i]).len() <= m.len()
        && m.subrange(o, o + status_summary(data[i]).len()) == status_summary(data[i]));
}

fn push_status_summary(out: &mut String, s: &ManualNetworkStatus)
    ensures
        final(out)@ == old(out)@ + status_summary(*s),
{
    let ghost start = out@;
    out.append(s.label.as_str());
    match &s.result {
        Ok(info) => {
            out.append(" (peers ");
            push_decimal(out, info.n_peers as u64);
            out.append("/");
            let expected: usize = match s.expected_peers {
                Some(n) => n,
                None => 0,
            };
            push_decimal(out, expected as u64);
            out.append(")");
        },
        Err(e) => {
            out.append(" (error: ");
            out.append(e.as_str());
            out.append(")");
        },
    }
    assert(out@ =~= start + status_summary(*s));
}

impl ManualNetworkReadiness {
    pub fn new(nodes: Vec<ReadinessNode>) -> (r: Self)
        ensures
            r.nodes == nodes,
    {
        ManualNetworkReadiness { nodes }
    }

    /// Every node reported at least its expected number of peers; a node
    /// without an expectation, or whose request failed, is not ready.
    pub fn is_ready(&self, data: &Vec<ManualNetworkStatus>) -> (r: bool)
        ensures
            r == forall|i: int| 0 <= i < data@.len() ==> status_ready(#[trigger] data@[i]),
    {
        let mut i: usize = 0;
        while i < data.len()
            invariant
                0 <= i <= data@.len(),
                forall|j: int| 0 <= j < i ==> status_ready(#[trigger] data@[j]),
            decreases data@.len() - i,
        {
            let ready = match (&data[i].expected_peers, &data[i].result) {
                (Some(expected), Ok(info)) => info.n_peers >= *expected,
                _ => false,
            };
            if !ready {
                return false;
            }
            i = i + 1;
        }
        true
    }

    /// The summary of a failed wait, built from its last snapshot.
    pub fn timeout_message(&self, data: Vec<ManualNetworkStatus>) -> (r: String)
        ensures
            r@ == network_timeout_message(data@),
    {
        let ghost parts = data@.map_values(|s: ManualNetworkStatus| status_summary(s));
        let mut out = String::from_str("timed out waiting for network readiness: ");
        let ghost start = out@;
        let mut i: usize = 0;
        while i < data.len()
            invariant
                0 <= i <= data@.len(),
                parts == data@.map_values(|s: ManualNetworkStatus| status_summary(s)),
                start == "timed out waiting for network readiness: "@,
                out@ == start + join(parts.subrange(0, i as int), comma_sep()),
            decreases data@.len() - i,
        {
            if i > 0 {
                out.append(", ");
            }
            push_status_summary(&mut out, &data[i]);
            proof {
                let sub = parts.subrange(0, i + 1);
                assert(sub.drop_last() =~= parts.subrange(0, i as int));
                assert(sub.last() == status_summary(data@[i as int]));
                if i == 0 {
                    assert(out@ =~= start + join(sub, comma_sep()));
                } else {
                    reveal_strlit(", ");
                    assert(", "@ =~= comma_sep());
                    assert(join(sub, comma_sep()) == join(sub.drop_last(), comma_sep()) + comma_sep() + sub.last());
                    assert(out@ =~= start + join(sub, comma_sep()));
                }
            }
            i = i + 1;
        }
        assert(parts.subrange(0, data@.len() as int) =~= parts);
        out
    }
}

} // verus!
