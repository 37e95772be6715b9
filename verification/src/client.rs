//! The controller's view of a node agent: its address, and the exact wire
//! configuration a create call sends. The transport that carries the
//! messages lives outside.

use vstd::prelude::*;

use crate::model::{NewVmNetwork, VhostMode};
use crate::paths::console_log_path_spec;
use crate::text::{decimal_rep, push_decimal};
use crate::wire::{
    clone_opt_rate_limiter, clone_opt_string, ConsoleConfig, CpusConfig, DiskConfig, FsConfig,
    MemoryConfig, NetConfig, PayloadConfig, RateLimiterConfig, TokenBucket, VmConfig,
    CONSOLE_MODE_FILE, VHOST_MODE_CLIENT, VHOST_MODE_SERVER,
};

verus! {

/// The runtime directory on every node, where the controller expects the
/// per-VM console log and shared-fs sockets to live.
pub fn node_runtime_dir() -> (r: &'static str)
    ensures
        r@ == "/var/lib/qarax/vms"@,
{
    "/var/lib/qarax/vms"
}

/// A handle on one node agent: the address its RPC endpoint answers at.
pub struct NodeClient {
    address: String,
}

impl NodeClient {
    /// The endpoint address.
    pub closed spec fn addr(&self) -> Seq<char> {
        self.address@
    }

    /// A client for the node at `host:port`.
    pub fn new(host: &str, port: u16) -> (r: Self)
        ensures
            r.addr() == "http://"@ + host@ + ":"@ + decimal_rep(port as nat),
    {
        let mut address = String::from_str("http://");
        address.append(host);
        address.append(":");
        push_decimal(&mut address, port as usize);
        NodeClient { address }
    }

    /// A client from a full `host:port` string.
    pub fn from_address(address: &str) -> (r: Self)
        ensures
            r.addr() == "http://"@ + address@,
    {
        let mut s = String::from_str("http://");
        s.append(address);
        NodeClient { address: s }
    }

    /// The address to dial.
    pub fn address(&self) -> (r: &str)
        ensures
            r@ == self.addr(),
    {
        self.address.as_str()
    }
}

/// Parameters for creating a VM on a node.
#[derive(Debug)]
pub struct CreateVmRequest {
    pub vm_id: String,
    pub boot_vcpus: i32,
    pub max_vcpus: i32,
    pub memory_size: i64,
    pub networks: Vec<NetConfig>,
    pub kernel: String,
    pub initramfs: Option<String>,
    pub cmdline: String,
    pub fs_configs: Vec<FsConfig>,
    pub memory_shared: bool,
}

/// Builds the wire configuration a create call carries: the requested CPU
/// and memory sections, the boot payload with an empty initramfs dropped,
/// an optional rootfs disk, the networks and shared-fs entries as given,
/// and a file-mode serial console at the node's per-VM console log.
pub fn build_create_config(req: CreateVmRequest, rootfs_disk: Option<String>) -> (r: VmConfig)
    ensures
        r.vm_id == req.vm_id,
        r.cpus matches Some(c) && c == (CpusConfig {
            boot_vcpus: req.boot_vcpus,
            max_vcpus: req.max_vcpus,
            topology: None,
            kvm_hyperv: None,
            max_phys_bits: None,
        }),
        r.memory matches Some(m) && m == (MemoryConfig {
            size: req.memory_size,
            hotplug_size: None,
            mergeable: None,
            shared: Some(req.memory_shared),
            hugepages: None,
            hugepage_size: None,
            prefault: None,
            thp: None,
        }),
        r.payload matches Some(p) && p.kernel == Some(req.kernel) && p.cmdline == Some(req.cmdline)
            && p.firmware is None && p.initramfs == (match req.initramfs {
            Some(s) => if s@.len() > 0 {
                Some(s)
            } else {
                None
            },
            None => None,
        }),
        match rootfs_disk {
            Some(path) => r.disks@.len() == 1 && r.disks@[0].id@ == "rootfs"@ && (r.disks@[0].path
                == Some(path)) && r.disks@[0].readonly == Some(false) && (r.disks@[0].direct
                is None) && (r.disks@[0].rate_limiter is None),
            None => r.disks@.len() == 0,
        },
        r.networks == req.networks,
        r.fs == req.fs_configs,
        r.rng is None,
        r.console is None,
        r.serial matches Some(sc) && sc.mode == CONSOLE_MODE_FILE && (sc.socket is None) && (
        sc.iommu is None) && (sc.file matches Some(f) && f@ == console_log_path_spec(
            "/var/lib/qarax/vms"@,
            req.vm_id@,
        )),
{
    let mut disks: Vec<DiskConfig> = Vec::new();
    if let Some(path) = rootfs_disk {
        disks.push(
            DiskConfig {
                id: String::from_str("rootfs"),
                path: Some(path),
                readonly: Some(false),
                direct: None,
                num_queues: None,
                queue_size: None,
                vhost_user: None,
                vhost_socket: None,
                rate_limiter: None,
                rate_limit_group: None,
                pci_segment: None,
                serial: None,
            },
        );
    }
    let initramfs = match req.initramfs {
        Some(s) => {
            if s.as_str().unicode_len() > 0 {
                Some(s)
            } else {
                None
            }
        },
        None => None,
    };
    let console_file = crate::paths::console_log_path(node_runtime_dir(), req.vm_id.as_str());
    VmConfig {
        vm_id: req.vm_id,
        cpus: Some(
            CpusConfig {
                boot_vcpus: req.boot_vcpus,
                max_vcpus: req.max_vcpus,
                topology: None,
                kvm_hyperv: None,
                max_phys_bits: None,
            },
        ),
        memory: Some(
            MemoryConfig {
                size: req.memory_size,
                hotplug_size: None,
                mergeable: None,
                shared: Some(req.memory_shared),
                hugepages: None,
                hugepage_size: None,
                prefault: None,
                thp: None,
            },
        ),
        payload: Some(
            PayloadConfig {
                firmware: None,
                kernel: Some(req.kernel),
                cmdline: Some(req.cmdline),
                initramfs,
            },
        ),
        disks,
        networks: req.networks,
        rng: None,
        serial: Some(
            ConsoleConfig {
                mode: CONSOLE_MODE_FILE,
                file: Some(console_file),
                socket: None,
                iommu: None,
            },
        ),
        console: None,
        fs: req.fs_configs,
    }
}

/// How one API network entry reads on the wire: fields copied, the vhost
/// mode encoded as its code.
pub open spec fn net_from_api(n: NewVmNetwork, r: NetConfig) -> bool {
    &&& r.id == n.id
    &&& r.tap == n.tap
    &&& r.ip == n.ip
    &&& r.mask == n.mask
    &&& r.mac == n.mac
    &&& r.host_mac == n.host_mac
    &&& r.mtu == n.mtu
    &&& r.iommu == n.iommu
    &&& r.num_queues == n.num_queues
    &&& r.queue_size == n.queue_size
    &&& r.vhost_user == n.vhost_user
    &&& r.vhost_socket == n.vhost_socket
    &&& r.vhost_mode == (match n.vhost_mode {
        None => None::<i32>,
        Some(VhostMode::Server) => Some(VHOST_MODE_SERVER),
        Some(VhostMode::Client) => Some(VHOST_MODE_CLIENT),
    })
    &&& r.pci_segment == n.pci_segment
    &&& r.rate_limiter == n.rate_limiter
    &&& r.offload_tso == n.offload_tso
    &&& r.offload_ufo == n.offload_ufo
    &&& r.offload_csum == n.offload_csum
}

/// Copies a rate limiter onto the wire.
pub fn rate_limiter_to_proto(r0: &RateLimiterConfig) -> (r: RateLimiterConfig)
    ensures
        r == *r0,
{
    RateLimiterConfig {
        bandwidth: match &r0.bandwidth {
            None => None,
            Some(b) => Some(token_bucket_to_proto(b)),
        },
        ops: match &r0.ops {
            None => None,
            Some(o) => Some(token_bucket_to_proto(o)),
        },
    }
}

/// Copies a token bucket onto the wire.
pub fn token_bucket_to_proto(b: &TokenBucket) -> (r: TokenBucket)
    ensures
        r == *b,
{
    TokenBucket { size: b.size, refill_time: b.refill_time, one_time_burst: b.one_time_burst }
}

/// Converts the API network list to the wire form the node takes.
pub fn net_configs_from_api(networks: &[NewVmNetwork]) -> (r: Vec<NetConfig>)
    ensures
        r@.len() == networks@.len(),
        forall|i: int| 0 <= i < networks@.len() ==> net_from_api(networks@[i], #[trigger] r@[i]),
{
    let mut out: Vec<NetConfig> = Vec::new();
    let mut i: usize = 0;
    while i < networks.len()
        invariant
            0 <= i <= networks@.len(),
            out@.len() == i,
            forall|j: int| 0 <= j < i ==> net_from_api(networks@[j], #[trigger] out@[j]),
        decreases networks@.len() - i,
    {
        let n = &networks[i];
        out.push(
            NetConfig {
                id: n.id.clone(),
                tap: clone_opt_string(&n.tap),
                ip: clone_opt_string(&n.ip),
                mask: clone_opt_string(&n.mask),
                mac: clone_opt_string(&n.mac),
                host_mac: clone_opt_string(&n.host_mac),
                mtu: n.mtu,
                iommu: n.iommu,
                num_queues: n.num_queues,
                queue_size: n.queue_size,
                vhost_user: n.vhost_user,
                vhost_socket: clone_opt_string(&n.vhost_socket),
                vhost_mode: match n.vhost_mode {
                    None => None,
                    Some(VhostMode::Server) => Some(VHOST_MODE_SERVER),
                    Some(VhostMode::Client) => Some(VHOST_MODE_CLIENT),
                },
                pci_segment: n.pci_segment,
                rate_limiter: clone_opt_rate_limiter(&n.rate_limiter),
                offload_tso: n.offload_tso,
                offload_ufo: n.offload_ufo,
                offload_csum: n.offload_csum,
            },
        );
        i += 1;
    }
    out
}

} // verus!
