//! VM status values, their wire encoding, and the controller's routing
//! decisions over them.

use vstd::prelude::*;

verus! {

/// Status of a VM, as persisted by the controller and as reported by the
/// node agent. `Pending` marks an in-flight asynchronous create and is only
/// ever set by the controller.
#[derive(Clone, Copy, Debug, PartialEq, Eq, Structural)]
pub enum VmStatus {
    Unknown,
    Pending,
    Created,
    Running,
    Paused,
    Shutdown,
}

pub const VM_STATUS_UNKNOWN: i32 = 0;

pub const VM_STATUS_CREATED: i32 = 1;

pub const VM_STATUS_RUNNING: i32 = 2;

pub const VM_STATUS_PAUSED: i32 = 3;

pub const VM_STATUS_SHUTDOWN: i32 = 4;

/// The status a wire code denotes; every unassigned code reads as unknown.
pub open spec fn status_of_code(code: i32) -> VmStatus {
    if code == VM_STATUS_CREATED {
        VmStatus::Created
    } else if code == VM_STATUS_RUNNING {
        VmStatus::Running
    } else if code == VM_STATUS_PAUSED {
        VmStatus::Paused
    } else if code == VM_STATUS_SHUTDOWN {
        VmStatus::Shutdown
    } else {
        VmStatus::Unknown
    }
}

/// Decodes a wire status code. A code outside the assigned range — and the
/// pending marker, which never travels on the wire — reads as unknown.
pub fn proto_status_to_db(status: i32) -> (r: VmStatus)
    ensures
        r == status_of_code(status),
        r != VmStatus::Pending,
{
    if status == VM_STATUS_CREATED {
        VmStatus::Created
    } else if status == VM_STATUS_RUNNING {
        VmStatus::Running
    } else if status == VM_STATUS_PAUSED {
        VmStatus::Paused
    } else if status == VM_STATUS_SHUTDOWN {
        VmStatus::Shutdown
    } else {
        VmStatus::Unknown
    }
}

/// The wire code of a status; the pending marker is reported as unknown.
pub open spec fn code_of_status(status: VmStatus) -> i32 {
    match status {
        VmStatus::Created => VM_STATUS_CREATED,
        VmStatus::Running => VM_STATUS_RUNNING,
        VmStatus::Paused => VM_STATUS_PAUSED,
        VmStatus::Shutdown => VM_STATUS_SHUTDOWN,
        _ => VM_STATUS_UNKNOWN,
    }
}

/// Encodes a status for the wire.
pub fn status_to_proto(status: VmStatus) -> (r: i32)
    ensures
        r == code_of_status(status),
{
    match status {
        VmStatus::Created => VM_STATUS_CREATED,
        VmStatus::Running => VM_STATUS_RUNNING,
        VmStatus::Paused => VM_STATUS_PAUSED,
        VmStatus::Shutdown => VM_STATUS_SHUTDOWN,
        _ => VM_STATUS_UNKNOWN,
    }
}

/// Round trip: every status the node can hold survives the wire; the pending
/// marker degrades to unknown, as it never leaves the controller.
pub proof fn lemma_status_code_round_trip(status: VmStatus)
    ensures
        status != VmStatus::Pending ==> status_of_code(code_of_status(status)) == status,
        status_of_code(code_of_status(VmStatus::Pending)) == VmStatus::Unknown,
{
}

/// What the controller does with a start request, by persisted status.
#[derive(Clone, Copy, Debug, PartialEq, Eq, Structural)]
pub enum StartDecision {
    /// Already running: report acceptance without touching the node.
    AlreadyRunning,
    /// Paused VMs must be resumed, not started.
    RejectPaused,
    /// The asynchronous create job has not finished.
    RejectPending,
    /// Issue the boot call to the node.
    Proceed,
}

/// Routes a start request: paused and pending VMs are rejected with guidance,
/// a running VM is acknowledged as-is, anything else proceeds to the node.
pub fn start_decision(status: VmStatus) -> (r: StartDecision)
    ensures
        r == StartDecision::AlreadyRunning <==> status == VmStatus::Running,
        r == StartDecision::RejectPaused <==> status == VmStatus::Paused,
        r == StartDecision::RejectPending <==> status == VmStatus::Pending,
        r == StartDecision::Proceed <==> (status == VmStatus::Created || status == VmStatus::Shutdown
            || status == VmStatus::Unknown),
{
    match status {
        VmStatus::Running => StartDecision::AlreadyRunning,
        VmStatus::Paused => StartDecision::RejectPaused,
        VmStatus::Pending => StartDecision::RejectPending,
        VmStatus::Created | VmStatus::Shutdown | VmStatus::Unknown => StartDecision::Proceed,
    }
}

} // verus!
