//! Step-by-step test workflows: the decision behind waiting for several
//! nodes to reach a block height, and the errors such tests report.

use vstd::prelude::*;
use vstd::string::*;
use crate::text::{comma_sep, decimal, join, push_decimal};

verus! {

#[derive(Clone, Debug, PartialEq, Eq)]
pub enum ManualTestError {
    /// A wait ran out; the message gives the last status of everything
    /// waited on.
    Timeout { message: String },
    StartNode { message: String },
}

#[derive(Clone, Debug, PartialEq, Eq)]
pub enum HeightPollDecision {
    /// Every node reported at least the minimum height.
    Reached,
    /// Ask the nodes again after this many milliseconds.
    Retry { sleep_ms: u64 },
    Failed(ManualTestError),
}

/// Every request succeeded with a height of at least `min_height`.
pub open spec fn all_reached(results: Seq<Result<u64, String>>, min_height: u64) -> bool {
    forall|i: int| 0 <= i < results.len() ==> (#[trigger] results[i] is Ok && results[i]->Ok_0 >= min_height)
}

/// One node's last status: its height, or `error: <reason>`.
pub open spec fn height_status(r: Result<u64, String>) -> Seq<char> {
    match r {
        Ok(h) => decimal(h as nat),
        Err(e) => "error: "@ + e@,
    }
}

/// Every node's last status in node order, bracketed: `[3, error: refused]`.
pub open spec fn height_summary(results: Seq<Result<u64, String>>) -> Seq<char> {
    seq!['['] + join(results.map_values(|r: Result<u64, String>| height_status(r)), comma_sep()) + seq![']']
}

pub open spec fn min_height_timeout_message(min_height: u64, results: Seq<Result<u64, String>>) -> Seq<char> {
    "min height "@ + decimal(min_height as nat) + " not reached before timeout; heights="@ + height_summary(results)
}

/// What to do after asking every node for its height at `elapsed_ms`:
/// all nodes at `min_height` end the wait successfully; otherwise the
/// timeout ends it with every node's last status, and before the timeout
/// it goes on.
pub open spec fn min_height_outcome(
    results: Seq<Result<u64, String>>,
    min_height: u64,
    elapsed_ms: u64,
    timeout_ms: u64,
    poll_interval_ms: u64,
    r: HeightPollDecision,
) -> bool {
    if all_reached(results, min_height) {
        r == HeightPollDecision::Reached
    } else if elapsed_ms >= timeout_ms {
        r is Failed && r->Failed_0 is Timeout
            && r->Failed_0->Timeout_message@ == min_height_timeout_message(min_height, results)
    } else {
        r == HeightPollDecision::Retry { sleep_ms: poll_interval_ms }
    }
}

fn push_height_status(out: &mut String, r: &Result<u64, String>)
    ensures
        final(out)@ == old(out)@ + height_status(*r),
{
    let ghost start = out@;
    match r {
        Ok(h) => push_decimal(out, *h),
        Err(e) => {
            out.append("error: ");
            out.append(e.as_str());
        },
    }
    assert(out@ =~= start + height_status(*r));
}

fn push_height_summary(out: &mut String, results: &Vec<Result<u64, String>>)
    ensures
        final(out)@ == old(out)@ + height_summary(results@),
{
    proof {
        reveal_strlit("[");
        reveal_strlit("]");
    }
    let ghost start = out@;
    let ghost parts = results@.map_values(|r: Result<u64, String>| height_status(r));
    out.append("[");
    let mut i: usize = 0;
    while i < results.len()
        invariant
            0 <= i <= results@.len(),
            parts == results@.map_values(|r: Result<u64, String>| height_status(r)),
            out@ == start + seq!['['] + join(parts.subrange(0, i as int), comma_sep()),
        decreases results@.len() - i,
    {
        if i > 0 {
            out.append(", ");
        }
        push_height_status(out, &results[i]);
        proof {
            let sub = parts.subrange(0, i + 1);
            assert(sub.drop_last() =~= parts.subrange(0, i as int));
            assert(sub.last() == height_status(results@[i as int]));
            if i == 0 {
                assert(join(sub, comma_sep()) == sub[0]);
                assert(out@ =~= start + seq!['['] + join(sub, comma_sep()));
            } else {
                reveal_strlit(", ");
                assert(", "@ =~= comma_sep());
                assert(join(sub, comma_sep()) == join(sub.drop_last(), comma_sep()) + comma_sep() + sub.last());
                assert(out@ =~= start + seq!['['] + join(sub, comma_sep()));
            }
        }
        i = i + 1;
    }
    assert(parts.subrange(0, results@.len() as int) =~= parts);
    out.append("]");
    assert(out@ =~= start + height_summary(results@));
}

/// Decides one round of waiting for every node to reach `min_height`,
/// given each node's height request outcome in node order.
pub fn min_height_decision(
    results: &Vec<Result<u64, String>>,
    min_height: u64,
    elapsed_ms: u64,
    timeout_ms: u64,
    poll_interval_ms: u64,
) -> (r: HeightPollDecision)
    ensures
        min_height_outcome(results@, min_height, elapsed_ms, timeout_ms, poll_interval_ms, r),
{
    let mut i: usize = 0;
    while i < results.len()
        invariant
            0 <= i <= results@.len(),
            forall|j: int| 0 <= j < i ==> (#[trigger] results@[j] is Ok && results@[j]->Ok_0 >= min_height),
        decreases results@.len() - i,
    {
        let reached = match &results[i] {
            Ok(h) => *h >= min_height,
            Err(_) => false,
        };
        if !reached {
            assert(!all_reached(results@, min_height));
            if elapsed_ms >= timeout_ms {
                let mut message = String::from_str("min height ");
                push_decimal(&mut message, min_height);
                message.append(" not reached before timeout; heights=");
                push_height_summary(&mut message, results);
                return HeightPollDecision::Failed(ManualTestError::Timeout { message });
            }
            return HeightPollDecision::Retry { sleep_ms: poll_interval_ms };
        }
        i = i + 1;
    }
    HeightPollDecision::Reached
}

pub open spec fn start_timeout_message(name: Seq<char>) -> Seq<char> {
    "starting node '"@ + name + "' exceeded timeout"@
}

/// The error reported when starting the named node outlasts its timeout.
pub fn start_node_timeout_error(name: &str) -> (r: ManualTestError)
    ensures
        r is Timeout && r->Timeout_message@ == start_timeout_message(name@),
{
    let mut message = String::from_str("starting node '");
    message.append(name);
    message.append("' exceeded timeout");
    ManualTestError::Timeout { message }
}

} // verus!
