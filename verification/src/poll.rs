//! Readiness polling for freshly spawned processes.
//!
//! After spawning the hypervisor or a shared-fs daemon, the agent probes for
//! its socket on a fixed cadence with a fixed attempt budget. The decisions
//! are here; the probing itself — connecting or testing for the file, and
//! sleeping between rounds — happens outside.

use vstd::prelude::*;

verus! {

/// The attempt budget: fifty probes, one every hundred milliseconds.
pub const MAX_SOCKET_ATTEMPTS: u32 = 50;

/// The pause between probes, in milliseconds.
pub const SOCKET_POLL_INTERVAL_MS: u64 = 100;

/// What to do after one probe.
#[derive(Clone, Copy, Debug, PartialEq, Eq, Structural)]
pub enum PollDecision {
    /// The probe succeeded: proceed at once.
    Ready,
    /// The probe failed with budget left: sleep one interval and probe again.
    Retry,
    /// The probe failed and exhausted the budget: give up.
    Fail,
}

/// Decides after one probe, given how many probes had already failed.
/// A single success proceeds immediately; only a full budget of consecutive
/// failures gives up.
pub fn poll_step(probe_ok: bool, failures_before: u32) -> (r: PollDecision)
    ensures
        probe_ok ==> r == PollDecision::Ready,
        !probe_ok && failures_before + 1 < MAX_SOCKET_ATTEMPTS ==> r == PollDecision::Retry,
        !probe_ok && failures_before + 1 >= MAX_SOCKET_ATTEMPTS ==> r == PollDecision::Fail,
{
    if probe_ok {
        PollDecision::Ready
    } else if failures_before < MAX_SOCKET_ATTEMPTS - 1 {
        PollDecision::Retry
    } else {
        PollDecision::Fail
    }
}

/// The outcome of a whole polling run, over the outcomes the first fifty
/// probes would have: polling fails exactly when all fifty fail, and a
/// single success proceeds at the first probe that would succeed.
pub fn poll_outcome(probes: &Vec<bool>) -> (r: Option<usize>)
    requires
        probes@.len() >= MAX_SOCKET_ATTEMPTS,
    ensures
        match r {
            Some(i) => i < MAX_SOCKET_ATTEMPTS && probes@[i as int] && forall|j: int|
                0 <= j < i ==> !probes@[j],
            None => forall|j: int| 0 <= j < MAX_SOCKET_ATTEMPTS ==> !probes@[j],
        },
{
    let mut i: usize = 0;
    while i < 50
        invariant
            0 <= i <= 50,
            probes@.len() >= 50,
            forall|j: int| 0 <= j < i ==> !probes@[j],
        decreases 50 - i,
    {
        if probes[i] {
            return Some(i);
        }
        i += 1;
    }
    None
}

} // verus!
