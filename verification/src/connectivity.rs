//! The bounded post-launch connectivity check.
//!
//! Polling a live node is outside work; what this module decides is the
//! protocol rule: a node has converged when some poll within the attempt
//! budget reports the expected peer count, and the whole check succeeds only
//! when every node has. Exhausting the budget is reported as a failure, not
//! an exception.

use vstd::prelude::*;
use crate::BootstrapError;

verus! {

/// Maximum poll attempts per node before the check reports a timeout.
pub const MAX_POLL_ATTEMPTS: u64 = 60;

/// The peer counts one node reported at successive polls.
#[derive(Debug)]
pub struct NodePolls {
    pub reports: Vec<u64>,
}

/// The node reached the expected peer count within the attempt budget.
pub open spec fn spec_node_converges(reports: Seq<u64>, expected_peers: u64) -> bool {
    exists|i: int|
        0 <= i < reports.len() && i < MAX_POLL_ATTEMPTS && reports[i] == expected_peers
}

/// Scans one node's polls, giving up after the attempt budget.
fn node_converges(reports: &Vec<u64>, expected_peers: u64) -> (b: bool)
    ensures
        b == spec_node_converges(reports@, expected_peers),
{
    let mut i: usize = 0;
    while i < reports.len() && (i as u64) < MAX_POLL_ATTEMPTS
        invariant
            i <= reports@.len(),
            i <= MAX_POLL_ATTEMPTS,
            forall|k: int| 0 <= k < i ==> reports@[k] != expected_peers,
        decreases reports@.len() - i,
    {
        if reports[i] == expected_peers {
            assert(spec_node_converges(reports@, expected_peers));
            return true;
        }
        i = i + 1;
    }
    false
}

/// Checks every node's polls: success exactly when each node reported the
/// expected peer count within the attempt budget.
pub fn check_connectivity(polls: &Vec<NodePolls>, expected_peers: u64) -> (ok: bool)
    ensures
        ok == (forall|n: int|
            0 <= n < polls@.len() ==> spec_node_converges(polls@[n].reports@, expected_peers)),
{
    let mut n: usize = 0;
    while n < polls.len()
        invariant
            n <= polls@.len(),
            forall|m: int| 0 <= m < n ==> spec_node_converges(polls@[m].reports@, expected_peers),
        decreases polls@.len() - n,
    {
        if !node_converges(&polls[n].reports, expected_peers) {
            return false;
        }
        n = n + 1;
    }
    true
}

/// The same check with the timeout reported as an error value.
pub fn connectivity_status(polls: &Vec<NodePolls>, expected_peers: u64) -> (r: Result<
    (),
    BootstrapError,
>)
    ensures
        (r matches Ok(_)) <==> (forall|n: int|
            0 <= n < polls@.len() ==> spec_node_converges(polls@[n].reports@, expected_peers)),
        r matches Err(e) ==> e == BootstrapError::ConnectivityTimeout,
{
    if check_connectivity(polls, expected_peers) {
        Ok(())
    } else {
        Err(BootstrapError::ConnectivityTimeout)
    }
}

/// Connectivity bound: once the network has converged by some attempt within
/// the budget, the check succeeds for that node.
pub proof fn lemma_converged_within_budget(reports: Seq<u64>, expected_peers: u64, c: int)
    requires
        0 <= c < reports.len(),
        c < MAX_POLL_ATTEMPTS,
        reports[c] == expected_peers,
    ensures
        spec_node_converges(reports, expected_peers),
{
}

/// If no poll ever reports the expected count, the node never converges:
/// the check comes back false, it does not hang or throw.
pub proof fn lemma_no_convergence(reports: Seq<u64>, expected_peers: u64)
    requires
        forall|i: int| 0 <= i < reports.len() ==> reports[i] != expected_peers,
    ensures
        !spec_node_converges(reports, expected_peers),
{
}

} // verus!
