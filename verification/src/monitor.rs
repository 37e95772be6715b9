//! The status reconciler: on every tick the controller lists the VMs it
//! believes are live, asks each VM's node for its real state, and brings
//! the persisted status into agreement. The timer, the store and the RPC
//! live outside; the decisions are here.

use vstd::prelude::*;

use crate::model::Vm;
use crate::status::{status_of_code, VmStatus};
use crate::text::str_eq;

verus! {

/// What one per-VM probe of a node produced.
#[derive(Debug)]
pub enum NodeReport {
    /// The node answered with the VM's live status code.
    Status(i32),
    /// The node answered that it has no such VM.
    NotFound,
    /// The node could not be reached: a transient failure, not a state.
    Unreachable,
}

/// Whether a persisted status keeps a VM in the reconciler's working set:
/// everything but shutdown and unknown.
pub fn active_for_reconcile(status: VmStatus) -> (r: bool)
    ensures
        r == (status != VmStatus::Shutdown && status != VmStatus::Unknown),
{
    !(matches!(status, VmStatus::Shutdown) || matches!(status, VmStatus::Unknown))
}

/// Decides one reconciliation: a reported live status replaces a differing
/// persisted one; a VM the node no longer knows — deleted between the list
/// and the probe — is marked unknown, never reinserted; an unreachable node
/// changes nothing, so transient network failure cannot flap status.
pub fn reconcile_decision(persisted: VmStatus, report: &NodeReport) -> (r: Option<VmStatus>)
    ensures
        report matches NodeReport::Status(code) ==> r == (if status_of_code(*code) != persisted {
            Some(status_of_code(*code))
        } else {
            None::<VmStatus>
        }),
        report is NotFound ==> r == Some(VmStatus::Unknown),
        report is Unreachable ==> r is None,
{
    match report {
        NodeReport::Status(code) => {
            let live = crate::status::proto_status_to_db(*code);
            if live != persisted {
                Some(live)
            } else {
                None
            }
        },
        NodeReport::NotFound => Some(VmStatus::Unknown),
        NodeReport::Unreachable => None,
    }
}

/// Whether a VM row belongs to this tick's working set for some host.
pub open spec fn polled(vm: Vm) -> bool {
    vm.status != VmStatus::Shutdown && vm.status != VmStatus::Unknown && vm.host_id is Some
}

/// Whether some live VM is assigned to this host.
pub open spec fn is_polled_host(vms: Seq<Vm>, h: Seq<char>) -> bool {
    exists|i: int| 0 <= i < vms.len() && polled(#[trigger] vms[i]) && vms[i].host_id->0@ == h
}

/// Whether a host list carries this host.
pub open spec fn listed(out: Seq<String>, h: Seq<char>) -> bool {
    exists|k: int| 0 <= k < out.len() && (#[trigger] out[k])@ == h
}

/// The distinct hosts the reconciler must dial this tick: every host that
/// some live VM is assigned to, each once.
pub fn hosts_to_poll(vms: &Vec<Vm>) -> (r: Vec<String>)
    ensures
        forall|a: int, b: int| 0 <= a < b < r@.len() ==> r@[a]@ != r@[b]@,
        forall|k: int| 0 <= k < r@.len() ==> is_polled_host(vms@, #[trigger] r@[k]@),
        forall|i: int|
            0 <= i < vms@.len() && polled(#[trigger] vms@[i]) ==> listed(r@, vms@[i].host_id->0@),
{
    let mut out: Vec<String> = Vec::new();
    let mut i: usize = 0;
    while i < vms.len()
        invariant
            0 <= i <= vms@.len(),
            forall|a: int, b: int| 0 <= a < b < out@.len() ==> out@[a]@ != out@[b]@,
            forall|k: int| 0 <= k < out@.len() ==> is_polled_host(vms@, #[trigger] out@[k]@),
            forall|x: int|
                0 <= x < i && polled(#[trigger] vms@[x]) ==> listed(out@, vms@[x].host_id->0@),
        decreases vms@.len() - i,
    {
        if active_for_reconcile(vms[i].status) {
            match &vms[i].host_id {
                Some(h) => {
                    let mut seen = false;
                    let mut k: usize = 0;
                    while k < out.len()
                        invariant
                            0 <= k <= out@.len(),
                            seen ==> listed(out@, h@),
                            !seen ==> forall|m: int| 0 <= m < k ==> (#[trigger] out@[m])@ != h@,
                        decreases out@.len() - k,
                    {
                        if str_eq(out[k].as_str(), h.as_str()) {
                            seen = true;
                            proof {
                                assert((out@[k as int])@ == h@);
                            }
                        }
                        k += 1;
                    }
                    if !seen {
                        let ghost pre = out@;
                        out.push(h.clone());
                        proof {
                            assert(out@ == pre.push(out@[pre.len() as int]));
                            assert((out@[pre.len() as int])@ == h@);
                            assert(polled(vms@[i as int]));
                            assert(vms@[i as int].host_id->0@ == h@);
                            assert forall|a: int, b: int|
                                0 <= a < b < out@.len() implies out@[a]@ != out@[b]@ by {
                                if b < pre.len() {
                                    assert(out@[a] == pre[a]);
                                    assert(out@[b] == pre[b]);
                                } else {
                                    assert(out@[a] == pre[a]);
                                    assert(out@[b]@ == h@);
                                }
                            }
                            assert forall|k2: int|
                                0 <= k2 < out@.len() implies is_polled_host(
                                vms@,
                                #[trigger] out@[k2]@,
                            ) by {
                                if k2 < pre.len() {
                                    assert(out@[k2] == pre[k2]);
                                    assert(is_polled_host(vms@, pre[k2]@));
                                } else {
                                    assert(out@[k2]@ == h@);
                                    assert(0 <= i < vms@.len() && polled(vms@[i as int])
                                        && vms@[i as int].host_id->0@ == h@);
                                    assert(is_polled_host(vms@, h@));
                                }
                            }
                            assert forall|x: int|
                                0 <= x < i + 1 && polled(#[trigger] vms@[x]) implies listed(
                                out@,
                                vms@[x].host_id->0@,
                            ) by {
                                if x < i {
                                    assert(listed(pre, vms@[x].host_id->0@));
                                    let m = choose|m: int|
                                        0 <= m < pre.len() && (#[trigger] pre[m])@
                                            == vms@[x].host_id->0@;
                                    assert(out@[m] == pre[m]);
                                    assert((out@[m])@ == vms@[x].host_id->0@);
                                    assert(listed(out@, vms@[x].host_id->0@));
                                } else {
                                    assert((out@[pre.len() as int])@ == vms@[x].host_id->0@);
                                    assert(listed(out@, vms@[x].host_id->0@));
                                }
                            }
                        }
                    } else {
                        proof {
                            assert(polled(vms@[i as int]));
                            assert(vms@[i as int].host_id->0@ == h@);
                            assert(listed(out@, h@));
                        }
                    }
                },
                None => {},
            }
        }
        i += 1;
    }
    out
}

/// The positions of this host's VMs in the working set.
pub fn vms_for_host(vms: &Vec<Vm>, host_id: &str) -> (r: Vec<usize>)
    ensures
        forall|k: int|
            0 <= k < r@.len() ==> (#[trigger] r@[k]) < vms@.len() && polled(vms@[r@[k] as int])
                && vms@[r@[k] as int].host_id->0@ == host_id@,
        forall|i: int|
            0 <= i < vms@.len() && polled(#[trigger] vms@[i]) && vms@[i].host_id->0@ == host_id@
                ==> r@.contains(i as usize),
{
    let mut out: Vec<usize> = Vec::new();
    let mut i: usize = 0;
    while i < vms.len()
        invariant
            0 <= i <= vms@.len(),
            forall|k: int|
                0 <= k < out@.len() ==> (#[trigger] out@[k]) < i && polled(vms@[out@[k] as int])
                    && vms@[out@[k] as int].host_id->0@ == host_id@,
            forall|x: int|
                0 <= x < i && polled(#[trigger] vms@[x]) && vms@[x].host_id->0@ == host_id@
                    ==> out@.contains(x as usize),
        decreases vms@.len() - i,
    {
        if active_for_reconcile(vms[i].status) {
            match &vms[i].host_id {
                Some(h) => {
                    if str_eq(h.as_str(), host_id) {
                        let ghost pre = out@;
                        out.push(i);
                        proof {
                            assert(out@[pre.len() as int] == i);
                            assert(out@.contains(i));
                            assert forall|x: int|
                                0 <= x < i + 1 && polled(#[trigger] vms@[x]) && vms@[x].host_id->0@
                                    == host_id@ implies out@.contains(x as usize) by {
                                if x < i {
                                    assert(pre.contains(x as usize));
                                    let m = choose|m: int|
                                        0 <= m < pre.len() && pre[m] == x as usize;
                                    assert(out@[m] == x as usize);
                                }
                            }
                        }
                    }
                },
                None => {},
            }
        }
        i += 1;
    }
    out
}

} // verus!
