//! The controller's persistent entities, as plain values: VM rows, their
//! network interfaces, boot sources, and the shared-filesystem records.

use vstd::prelude::*;

use crate::status::VmStatus;
use crate::wire::RateLimiterConfig;

verus! {

/// The hypervisor kind a VM runs under.
#[derive(Clone, Copy, Debug, PartialEq, Eq, Structural)]
pub enum Hypervisor {
    CloudHv,
}

/// Vhost connection role of a vhost-user interface.
#[derive(Clone, Copy, Debug, PartialEq, Eq, Structural)]
pub enum VhostMode {
    Client,
    Server,
}

/// Kind of a VM network interface.
#[derive(Clone, Copy, Debug, PartialEq, Eq, Structural)]
pub enum InterfaceType {
    Macvtap,
    Tap,
    VhostUser,
}

/// CPU topology requested for a VM.
pub use crate::wire::CpuTopology;

/// A persisted VM row.
#[derive(Debug)]
pub struct Vm {
    pub id: String,
    pub name: String,
    pub host_id: Option<String>,
    pub status: VmStatus,
    pub hypervisor: Hypervisor,
    pub boot_source_id: Option<String>,
    pub description: Option<String>,
    pub boot_vcpus: i32,
    pub max_vcpus: i32,
    pub cpu_topology: Option<CpuTopology>,
    pub kvm_hyperv: bool,
    pub memory_size: i64,
    pub memory_hotplug_size: Option<i64>,
    pub memory_mergeable: bool,
    pub memory_shared: bool,
    pub memory_hugepages: bool,
    pub memory_hugepage_size: Option<i64>,
    pub memory_prefault: bool,
    pub memory_thp: bool,
}

/// A network interface in a VM-create request.
#[derive(Debug)]
pub struct NewVmNetwork {
    /// Unique device id within the VM.
    pub id: String,
    pub mac: Option<String>,
    pub tap: Option<String>,
    pub ip: Option<String>,
    pub mask: Option<String>,
    pub host_mac: Option<String>,
    pub mtu: Option<i32>,
    pub vhost_user: Option<bool>,
    pub vhost_socket: Option<String>,
    pub vhost_mode: Option<VhostMode>,
    pub num_queues: Option<i32>,
    pub queue_size: Option<i32>,
    pub rate_limiter: Option<RateLimiterConfig>,
    pub offload_tso: Option<bool>,
    pub offload_ufo: Option<bool>,
    pub offload_csum: Option<bool>,
    pub pci_segment: Option<i32>,
    pub iommu: Option<bool>,
}

/// A VM-create request.
#[derive(Debug)]
pub struct NewVm {
    pub name: String,
    pub hypervisor: Hypervisor,
    pub boot_vcpus: i32,
    pub max_vcpus: i32,
    pub cpu_topology: Option<CpuTopology>,
    pub kvm_hyperv: Option<bool>,
    pub memory_size: i64,
    pub memory_hotplug_size: Option<i64>,
    pub memory_mergeable: Option<bool>,
    pub memory_shared: Option<bool>,
    pub memory_hugepages: Option<bool>,
    pub memory_hugepage_size: Option<i64>,
    pub memory_prefault: Option<bool>,
    pub memory_thp: Option<bool>,
    pub boot_source_id: Option<String>,
    pub description: Option<String>,
    /// Network interfaces to attach at create time.
    pub networks: Option<Vec<NewVmNetwork>>,
    /// When set, the VM boots from this OCI image via the asynchronous path.
    pub image_ref: Option<String>,
}

/// The row a create request inserts, with the given id and status and every
/// defaulted flag resolved to false.
pub open spec fn vm_row_of(req: NewVm, id: Seq<char>, status: VmStatus, row: Vm) -> bool {
    &&& row.id@ == id
    &&& row.name == req.name
    &&& row.host_id is None
    &&& row.status == status
    &&& row.hypervisor == req.hypervisor
    &&& row.boot_source_id == req.boot_source_id
    &&& row.description == req.description
    &&& row.boot_vcpus == req.boot_vcpus
    &&& row.max_vcpus == req.max_vcpus
    &&& row.cpu_topology == req.cpu_topology
    &&& row.kvm_hyperv == unwrap_or_false(req.kvm_hyperv)
    &&& row.memory_size == req.memory_size
    &&& row.memory_hotplug_size == req.memory_hotplug_size
    &&& row.memory_mergeable == unwrap_or_false(req.memory_mergeable)
    &&& row.memory_shared == unwrap_or_false(req.memory_shared)
    &&& row.memory_hugepages == unwrap_or_false(req.memory_hugepages)
    &&& row.memory_hugepage_size == req.memory_hugepage_size
    &&& row.memory_prefault == unwrap_or_false(req.memory_prefault)
    &&& row.memory_thp == unwrap_or_false(req.memory_thp)
}

pub open spec fn unwrap_or_false(b: Option<bool>) -> bool {
    match b {
        Some(x) => x,
        None => false,
    }
}

impl NewVm {
    /// Builds the row a create inserts for this request, under the given id
    /// and initial status.
    pub fn to_row(&self, id: String, status: VmStatus) -> (row: Vm)
        ensures
            vm_row_of(*self, id@, status, row),
    {
        Vm {
            id,
            name: self.name.clone(),
            host_id: None,
            status,
            hypervisor: self.hypervisor,
            boot_source_id: crate::wire::clone_opt_string(&self.boot_source_id),
            description: crate::wire::clone_opt_string(&self.description),
            boot_vcpus: self.boot_vcpus,
            max_vcpus: self.max_vcpus,
            cpu_topology: match &self.cpu_topology {
                None => None,
                Some(t) => Some(
                    CpuTopology {
                        threads_per_core: t.threads_per_core,
                        cores_per_die: t.cores_per_die,
                        dies_per_package: t.dies_per_package,
                        packages: t.packages,
                    },
                ),
            },
            kvm_hyperv: self.kvm_hyperv.unwrap_or(false),
            memory_size: self.memory_size,
            memory_hotplug_size: self.memory_hotplug_size,
            memory_mergeable: self.memory_mergeable.unwrap_or(false),
            memory_shared: self.memory_shared.unwrap_or(false),
            memory_hugepages: self.memory_hugepages.unwrap_or(false),
            memory_hugepage_size: self.memory_hugepage_size,
            memory_prefault: self.memory_prefault.unwrap_or(false),
            memory_thp: self.memory_thp.unwrap_or(false),
        }
    }
}

/// A boot source resolved to concrete file paths.
#[derive(Debug)]
pub struct ResolvedBootSource {
    pub kernel_path: String,
    pub kernel_params: String,
    pub initramfs_path: Option<String>,
}

/// The boot triple for a create call: the resolved boot source when the
/// request named one, else the configured defaults.
pub fn boot_source_or_defaults(
    resolved: Option<ResolvedBootSource>,
    default_kernel: &String,
    default_initramfs: &Option<String>,
    default_cmdline: &String,
) -> (r: (String, Option<String>, String))
    ensures
        match resolved {
            Some(b) => r.0 == b.kernel_path && r.1 == b.initramfs_path && r.2 == b.kernel_params,
            None => r.0 == *default_kernel && r.1 == *default_initramfs && r.2 == *default_cmdline,
        },
{
    match resolved {
        Some(b) => (b.kernel_path, b.initramfs_path, b.kernel_params),
        None => (
            default_kernel.clone(),
            crate::wire::clone_opt_string(default_initramfs),
            default_cmdline.clone(),
        ),
    }
}

/// A persisted shared-filesystem record for a VM.
#[derive(Debug)]
pub struct VmFilesystem {
    pub id: String,
    pub vm_id: String,
    pub tag: String,
    pub num_queues: Option<i32>,
    pub queue_size: Option<i32>,
    pub pci_segment: Option<i32>,
    pub image_ref: Option<String>,
    pub image_digest: Option<String>,
}

/// A shared-filesystem record to insert.
#[derive(Debug)]
pub struct NewVmFilesystem {
    pub vm_id: String,
    pub tag: String,
    pub num_queues: Option<i32>,
    pub queue_size: Option<i32>,
    pub pci_segment: Option<i32>,
    pub image_ref: Option<String>,
    pub image_digest: Option<String>,
}

/// Console device mode of a persisted console row.
pub use crate::convert::ConsoleMode;

} // verus!
