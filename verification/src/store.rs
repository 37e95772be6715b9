//! A model of the controller's persisted state — the VM and host tables as
//! value sequences — and the invariant its transitions keep: a VM observed
//! live always points at a registered host.
//!
//! The store itself is an outside collaborator reached through transactions;
//! these spec functions say what each write does to the tables, and the
//! lemmas show the invariant survives every write the handlers make.

use vstd::prelude::*;

use crate::hosts::Host;
use crate::model::Vm;
use crate::status::VmStatus;

verus! {

/// Whether a host with this identifier is registered.
pub open spec fn host_exists(hosts: Seq<Host>, id: Seq<char>) -> bool {
    exists|i: int| 0 <= i < hosts.len() && (#[trigger] hosts[i]).id@ == id
}

/// A status that asserts the VM is live on some host.
pub open spec fn is_live_status(s: VmStatus) -> bool {
    s == VmStatus::Running || s == VmStatus::Paused
}

/// The binding invariant: every persisted VM row whose status claims it is
/// running or paused has a host assigned, and that host is registered.
pub open spec fn host_binding_ok(vms: Seq<Vm>, hosts: Seq<Host>) -> bool {
    forall|i: int|
        0 <= i < vms.len() && is_live_status((#[trigger] vms[i]).status) ==> (vms[i].host_id
            matches Some(h) && host_exists(hosts, h@))
}

/// Decides whether a host with this identifier is registered.
pub fn host_exists_check(hosts: &Vec<Host>, id: &str) -> (r: bool)
    ensures
        r == host_exists(hosts@, id@),
{
    let mut i: usize = 0;
    while i < hosts.len()
        invariant
            0 <= i <= hosts@.len(),
            forall|j: int| 0 <= j < i ==> (#[trigger] hosts@[j]).id@ != id@,
        decreases hosts@.len() - i,
    {
        if crate::text::str_eq(hosts[i].id.as_str(), id) {
            return true;
        }
        i += 1;
    }
    false
}

/// Decides the binding invariant over concrete tables, for callers that
/// audit a store snapshot.
pub fn host_binding_check(vms: &Vec<Vm>, hosts: &Vec<Host>) -> (r: bool)
    ensures
        r == host_binding_ok(vms@, hosts@),
{
    let mut i: usize = 0;
    while i < vms.len()
        invariant
            0 <= i <= vms@.len(),
            forall|j: int|
                0 <= j < i && is_live_status((#[trigger] vms@[j]).status) ==> (vms@[j].host_id
                    matches Some(h) && host_exists(hosts@, h@)),
        decreases vms@.len() - i,
    {
        let live = matches!(vms[i].status, VmStatus::Running | VmStatus::Paused);
        if live {
            match &vms[i].host_id {
                None => {
                    return false;
                },
                Some(h) => {
                    if !host_exists_check(hosts, h.as_str()) {
                        return false;
                    }
                },
            }
        }
        i += 1;
    }
    true
}

/// The table after a status update of row `i`.
pub open spec fn set_vm_status(vms: Seq<Vm>, i: int, status: VmStatus) -> Seq<Vm> {
    vms.update(i, Vm { status, ..vms[i] })
}

/// The table after assigning row `i` to a host.
pub open spec fn set_vm_host(vms: Seq<Vm>, i: int, host_id: String) -> Seq<Vm> {
    vms.update(i, Vm { host_id: Some(host_id), ..vms[i] })
}

/// Inserting a row that is not yet claimed live — or that already points at
/// a registered host — keeps the binding invariant. Creates insert rows as
/// created or pending, never live.
pub proof fn lemma_insert_vm_keeps_binding(vms: Seq<Vm>, hosts: Seq<Host>, vm: Vm)
    requires
        host_binding_ok(vms, hosts),
        is_live_status(vm.status) ==> (vm.host_id matches Some(h) && host_exists(hosts, h@)),
    ensures
        host_binding_ok(vms.push(vm), hosts),
{
    let post = vms.push(vm);
    assert forall|i: int|
        0 <= i < post.len() && is_live_status((#[trigger] post[i]).status) implies (post[i].host_id
        matches Some(h) && host_exists(hosts, h@)) by {
        if i < vms.len() {
            assert(post[i] == vms[i]);
        } else {
            assert(post[i] == vm);
        }
    }
}

/// A status update keeps the binding invariant whenever the operation first
/// resolved the row's host — as start, stop, pause and resume do through
/// their host lookup — or moves the row out of the live statuses.
pub proof fn lemma_set_status_keeps_binding(
    vms: Seq<Vm>,
    hosts: Seq<Host>,
    i: int,
    status: VmStatus,
)
    requires
        host_binding_ok(vms, hosts),
        0 <= i < vms.len(),
        is_live_status(status) ==> (vms[i].host_id matches Some(h) && host_exists(hosts, h@)),
    ensures
        host_binding_ok(set_vm_status(vms, i, status), hosts),
{
    let post = set_vm_status(vms, i, status);
    assert forall|j: int|
        0 <= j < post.len() && is_live_status((#[trigger] post[j]).status) implies (post[j].host_id
        matches Some(h) && host_exists(hosts, h@)) by {
        if j != i {
            assert(post[j] == vms[j]);
        } else {
            assert(post[j].host_id == vms[i].host_id);
        }
    }
}

/// Assigning a registered host keeps the binding invariant.
pub proof fn lemma_set_host_keeps_binding(vms: Seq<Vm>, hosts: Seq<Host>, i: int, host_id: String)
    requires
        host_binding_ok(vms, hosts),
        0 <= i < vms.len(),
        host_exists(hosts, host_id@),
    ensures
        host_binding_ok(set_vm_host(vms, i, host_id), hosts),
{
    let post = set_vm_host(vms, i, host_id);
    assert forall|j: int|
        0 <= j < post.len() && is_live_status((#[trigger] post[j]).status) implies (post[j].host_id
        matches Some(h) && host_exists(hosts, h@)) by {
        if j != i {
            assert(post[j] == vms[j]);
        }
    }
}

/// Deleting a row keeps the binding invariant.
pub proof fn lemma_remove_vm_keeps_binding(vms: Seq<Vm>, hosts: Seq<Host>, i: int)
    requires
        host_binding_ok(vms, hosts),
        0 <= i < vms.len(),
    ensures
        host_binding_ok(vms.remove(i), hosts),
{
    let post = vms.remove(i);
    assert forall|j: int|
        0 <= j < post.len() && is_live_status((#[trigger] post[j]).status) implies (post[j].host_id
        matches Some(h) && host_exists(hosts, h@)) by {
        let j0 = if j < i {
            j
        } else {
            j + 1
        };
        assert(post[j] == vms[j0]);
    }
}

/// Registering another host keeps the binding invariant: existing bindings
/// still resolve.
pub proof fn lemma_insert_host_keeps_binding(vms: Seq<Vm>, hosts: Seq<Host>, host: Host)
    requires
        host_binding_ok(vms, hosts),
    ensures
        host_binding_ok(vms, hosts.push(host)),
{
    assert forall|i: int|
        0 <= i < vms.len() && is_live_status((#[trigger] vms[i]).status) implies (vms[i].host_id
        matches Some(h) && host_exists(hosts.push(host), h@)) by {
        assert(vms[i].host_id matches Some(h) && host_exists(hosts, h@));
        match vms[i].host_id {
            Some(h) => {
                let k = choose|k: int|
                    0 <= k < hosts.len() && (#[trigger] hosts[k]).id@ == h@;
                assert(hosts.push(host)[k] == hosts[k]);
            },
            None => {},
        }
    }
}

} // verus!
