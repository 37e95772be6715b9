//! The controller's VM orchestration decisions: routing operations to the
//! assigned host, and the steps of the asynchronous image-backed create.
//! The store transactions and the node calls they direct happen outside.

use vstd::prelude::*;

use crate::api::Error;
use crate::jobs::{Job, JobResult, JobStatus, JobType, NewJob};
use crate::model::{NewVmFilesystem, Vm};
use crate::hosts::Host;
use crate::status::{status_of_code, VmStatus};
use crate::text::str_eq;
use crate::wire::FsConfig;

verus! {

/// Resolves the host a VM's operations route to: the assigned host must be
/// set and registered; the errors distinguish an unassigned VM from a
/// dangling assignment.
pub fn host_for_vm(vm: &Vm, hosts: &Vec<Host>) -> (r: Result<usize, Error>)
    ensures
        match vm.host_id {
            None => r matches Err(e) && (e matches Error::UnprocessableEntity(m) && m@
                == "VM has no assigned host"@),
            Some(h) => if exists|i: int| 0 <= i < hosts@.len() && (#[trigger] hosts@[i]).id@ == h@ {
                r matches Ok(i) && i < hosts@.len() && hosts@[i as int].id@ == h@
            } else {
                r matches Err(e) && (e matches Error::UnprocessableEntity(m) && m@
                    == "assigned host not found"@)
            },
        },
{
    match &vm.host_id {
        None => Err(Error::UnprocessableEntity(String::from_str("VM has no assigned host"))),
        Some(h) => {
            let mut i: usize = 0;
            while i < hosts.len()
                invariant
                    0 <= i <= hosts@.len(),
                    vm.host_id == Some(*h),
                    forall|j: int| 0 <= j < i ==> (#[trigger] hosts@[j]).id@ != h@,
                decreases hosts@.len() - i,
            {
                if str_eq(hosts[i].id.as_str(), h.as_str()) {
                    return Ok(i);
                }
                i += 1;
            }
            Err(Error::UnprocessableEntity(String::from_str("assigned host not found")))
        },
    }
}

/// The fixed kernel command line of an OCI-booted VM: console on the first
/// serial port, the shared-fs export as the root, and the injected init.
pub fn oci_boot_cmdline() -> (r: String)
    ensures
        r@ == "console=ttyS0 root=rootfs rootfstype=virtiofs rw init=/.qarax-init"@,
{
    String::from_str("console=ttyS0 root=rootfs rootfstype=virtiofs rw init=/.qarax-init")
}

/// The job an asynchronous create records before its background task runs.
pub fn async_create_job(vm_id: &str, image_ref: &str, job_id: String) -> (r: Job)
    ensures
        r.id == job_id,
        r.job_type == JobType::ImagePull,
        r.status == JobStatus::Pending,
        r.description matches Some(d) && d@ == "Pulling image "@ + image_ref@,
        r.resource_id matches Some(v) && v@ == vm_id@,
        r.resource_type matches Some(t) && t@ == "vm"@,
        r.progress is None,
        r.result is None,
        r.error is None,
{
    let mut description = String::from_str("Pulling image ");
    description.append(image_ref);
    let new_job = NewJob {
        job_type: JobType::ImagePull,
        description: Some(description),
        resource_id: Some(String::from_str(vm_id)),
        resource_type: Some(String::from_str("vm")),
    };
    new_job.into_job(job_id)
}

/// The shared-filesystem entry the background task sends to the node: the
/// root export under the fixed tag, the deterministic socket path the node
/// will overwrite, and the pulled root as the bootstrap hint.
pub fn rootfs_fs_config(vm_id: &str, bootstrap_path: &str) -> (r: FsConfig)
    ensures
        r.tag@ == "rootfs"@,
        r.socket@ == "/var/lib/qarax/vms/"@ + vm_id@ + "-fs0.sock"@,
        r.num_queues == 1,
        r.queue_size == 1024,
        r.pci_segment is None,
        r.id matches Some(d) && d@ == "fs0"@,
        r.bootstrap_path matches Some(p) && p@ == bootstrap_path@,
{
    let mut socket = String::from_str("/var/lib/qarax/vms/");
    socket.append(vm_id);
    socket.append("-fs0.sock");
    FsConfig {
        tag: String::from_str("rootfs"),
        socket,
        num_queues: 1,
        queue_size: 1024,
        pci_segment: None,
        id: Some(String::from_str("fs0")),
        bootstrap_path: Some(String::from_str(bootstrap_path)),
    }
}

/// How the background task records a failed image pull: the job fails with
/// the node's message attached, and the VM drops to unknown.
pub fn async_pull_failed(job: Job, message: &str) -> (r: (Job, VmStatus))
    ensures
        r.0.status == JobStatus::Failed,
        r.0.error matches Some(e) && e@ == "Failed to pull OCI image: "@ + message@,
        r.0.id == job.id && r.0.job_type == job.job_type && r.0.progress == job.progress
            && r.0.result == job.result,
        r.1 == VmStatus::Unknown,
{
    let mut e = String::from_str("Failed to pull OCI image: ");
    e.append(message);
    (job.mark_failed(e), VmStatus::Unknown)
}

/// How the background task records a failed node create: the job fails with
/// the node's message attached, and the VM drops to unknown.
pub fn async_create_failed(job: Job, message: &str) -> (r: (Job, VmStatus))
    ensures
        r.0.status == JobStatus::Failed,
        r.0.error matches Some(e) && e@ == "Failed to create VM on qarax-node: "@ + message@,
        r.0.id == job.id && r.0.job_type == job.job_type && r.0.progress == job.progress
            && r.0.result == job.result,
        r.1 == VmStatus::Unknown,
{
    let mut e = String::from_str("Failed to create VM on qarax-node: ");
    e.append(message);
    (job.mark_failed(e), VmStatus::Unknown)
}

/// The filesystem record persisted after a successful image-backed create.
pub fn async_create_fs_record(vm_id: &str, image_ref: &str, digest: &str) -> (r: NewVmFilesystem)
    ensures
        r.vm_id@ == vm_id@,
        r.tag@ == "rootfs"@,
        r.num_queues == Some(1i32),
        r.queue_size == Some(1024i32),
        r.pci_segment is None,
        r.image_ref matches Some(x) && x@ == image_ref@,
        r.image_digest matches Some(d) && d@ == digest@,
{
    NewVmFilesystem {
        vm_id: String::from_str(vm_id),
        tag: String::from_str("rootfs"),
        num_queues: Some(1),
        queue_size: Some(1024),
        pci_segment: None,
        image_ref: Some(String::from_str(image_ref)),
        image_digest: Some(String::from_str(digest)),
    }
}

/// How the background task finishes: the job completes with full progress
/// and the pulled digest as its result, and the VM becomes created.
pub fn finish_async_create(job: Job, digest: &str) -> (r: (Job, VmStatus))
    ensures
        r.0.status == JobStatus::Completed,
        r.0.progress == Some(100i32),
        r.0.result matches Some(jr) && jr.digest@ == digest@,
        r.0.id == job.id && r.0.job_type == job.job_type && r.0.error == job.error,
        r.1 == VmStatus::Created,
{
    let result = JobResult { digest: String::from_str(digest) };
    (job.mark_completed(Some(result)), VmStatus::Created)
}

/// The status a metrics reply reports: the node's live status when the call
/// succeeded, else the persisted one — a node outage must not invent state.
pub fn metrics_status(db_status: VmStatus, live: Option<i32>) -> (r: VmStatus)
    ensures
        match live {
            Some(code) => r == status_of_code(code),
            None => r == db_status,
        },
{
    match live {
        Some(code) => crate::status::proto_status_to_db(code),
        None => db_status,
    }
}

} // verus!
