//! Conversion of the wire configuration into the hypervisor's JSON form.
//!
//! The structures here mirror the body the hypervisor accepts on its control
//! socket. Most fields map one to one; the special cases are the vhost mode,
//! encoded as the capitalized strings `Server` and `Client`, the console mode,
//! encoded as an enum, and the shared-filesystem bootstrap hint, which is
//! consumed by the agent and never forwarded.

use vstd::prelude::*;

use crate::wire::{
    clone_opt_rate_limiter, clone_opt_string, ConsoleConfig, CpuTopology, CpusConfig, DiskConfig,
    FsConfig, MemoryConfig, NetConfig, PayloadConfig, RateLimiterConfig, RngConfig, TokenBucket,
    VmConfig, CONSOLE_MODE_FILE, CONSOLE_MODE_OFF, CONSOLE_MODE_PTY, CONSOLE_MODE_SOCKET,
    CONSOLE_MODE_TTY, VHOST_MODE_SERVER,
};

verus! {

/// Mode of a hypervisor console device.
#[derive(Clone, Copy, Debug, PartialEq, Eq, Structural)]
pub enum ConsoleMode {
    Off,
    Pty,
    Tty,
    File,
    Socket,
    Null,
}

/// The console mode a wire code denotes; unassigned codes read as null.
pub open spec fn console_mode_of_code(code: i32) -> ConsoleMode {
    if code == CONSOLE_MODE_OFF {
        ConsoleMode::Off
    } else if code == CONSOLE_MODE_PTY {
        ConsoleMode::Pty
    } else if code == CONSOLE_MODE_TTY {
        ConsoleMode::Tty
    } else if code == CONSOLE_MODE_FILE {
        ConsoleMode::File
    } else if code == CONSOLE_MODE_SOCKET {
        ConsoleMode::Socket
    } else {
        ConsoleMode::Null
    }
}

fn console_mode_from_code(code: i32) -> (r: ConsoleMode)
    ensures
        r == console_mode_of_code(code),
{
    if code == CONSOLE_MODE_OFF {
        ConsoleMode::Off
    } else if code == CONSOLE_MODE_PTY {
        ConsoleMode::Pty
    } else if code == CONSOLE_MODE_TTY {
        ConsoleMode::Tty
    } else if code == CONSOLE_MODE_FILE {
        ConsoleMode::File
    } else if code == CONSOLE_MODE_SOCKET {
        ConsoleMode::Socket
    } else {
        ConsoleMode::Null
    }
}

#[derive(Debug, PartialEq)]
pub struct SdkCpusConfig {
    pub boot_vcpus: i32,
    pub max_vcpus: i32,
    pub topology: Option<CpuTopology>,
    pub kvm_hyperv: Option<bool>,
    pub max_phys_bits: Option<i32>,
}

#[derive(Debug, PartialEq)]
pub struct SdkMemoryConfig {
    pub size: i64,
    pub hotplug_size: Option<i64>,
    pub mergeable: Option<bool>,
    pub shared: Option<bool>,
    pub hugepages: Option<bool>,
    pub hugepage_size: Option<i64>,
    pub prefault: Option<bool>,
    pub thp: Option<bool>,
}

#[derive(Debug, PartialEq)]
pub struct SdkPayloadConfig {
    pub firmware: Option<String>,
    pub kernel: Option<String>,
    pub cmdline: Option<String>,
    pub initramfs: Option<String>,
}

#[derive(Debug, PartialEq)]
pub struct SdkDiskConfig {
    pub path: Option<String>,
    pub readonly: Option<bool>,
    pub direct: Option<bool>,
    pub num_queues: Option<i32>,
    pub queue_size: Option<i32>,
    pub vhost_user: Option<bool>,
    pub vhost_socket: Option<String>,
    pub rate_limiter_config: Option<RateLimiterConfig>,
    pub rate_limit_group: Option<String>,
    pub pci_segment: Option<i32>,
    pub id: Option<String>,
    pub serial: Option<String>,
}

#[derive(Debug, PartialEq)]
pub struct SdkNetConfig {
    pub tap: Option<String>,
    pub ip: Option<String>,
    pub mask: Option<String>,
    pub mac: Option<String>,
    pub host_mac: Option<String>,
    pub mtu: Option<i32>,
    pub iommu: Option<bool>,
    pub num_queues: Option<i32>,
    pub queue_size: Option<i32>,
    pub vhost_user: Option<bool>,
    pub vhost_socket: Option<String>,
    pub vhost_mode: Option<String>,
    pub id: Option<String>,
    pub pci_segment: Option<i32>,
    pub rate_limiter_config: Option<RateLimiterConfig>,
    pub offload_tso: Option<bool>,
    pub offload_ufo: Option<bool>,
    pub offload_csum: Option<bool>,
}

#[derive(Debug, PartialEq)]
pub struct SdkRngConfig {
    pub src: String,
    pub iommu: Option<bool>,
}

#[derive(Debug, PartialEq)]
pub struct SdkConsoleConfig {
    pub mode: ConsoleMode,
    pub file: Option<String>,
    pub socket: Option<String>,
    pub iommu: Option<bool>,
}

#[derive(Debug, PartialEq)]
pub struct SdkFsConfig {
    pub tag: String,
    pub socket: String,
    pub num_queues: i32,
    pub queue_size: i32,
    pub pci_segment: Option<i32>,
    pub id: Option<String>,
}

#[derive(Debug, PartialEq)]
pub struct SdkVmConfig {
    pub payload: SdkPayloadConfig,
    pub cpus: Option<SdkCpusConfig>,
    pub memory: Option<SdkMemoryConfig>,
    pub disks: Option<Vec<SdkDiskConfig>>,
    pub net: Option<Vec<SdkNetConfig>>,
    pub rng: Option<SdkRngConfig>,
    pub serial: Option<SdkConsoleConfig>,
    pub console: Option<SdkConsoleConfig>,
    pub fs: Option<Vec<SdkFsConfig>>,
}

/// How a wire vhost mode reads once encoded for the hypervisor: the server
/// code becomes `Server`, every other set value becomes `Client`.
pub open spec fn vhost_mode_encoded(m: Option<i32>, s: Option<String>) -> bool {
    match m {
        None => s is None,
        Some(v) => s is Some && (if v == VHOST_MODE_SERVER {
            s->0@ == "Server"@
        } else {
            s->0@ == "Client"@
        }),
    }
}

fn encode_vhost_mode(m: Option<i32>) -> (r: Option<String>)
    ensures
        vhost_mode_encoded(m, r),
{
    match m {
        None => None,
        Some(v) => {
            if v == VHOST_MODE_SERVER {
                Some(String::from_str("Server"))
            } else {
                Some(String::from_str("Client"))
            }
        },
    }
}

/// The hypervisor form of one CPU section.
pub open spec fn cpus_converted(c: CpusConfig, r: SdkCpusConfig) -> bool {
    r == (SdkCpusConfig {
        boot_vcpus: c.boot_vcpus,
        max_vcpus: c.max_vcpus,
        topology: c.topology,
        kvm_hyperv: c.kvm_hyperv,
        max_phys_bits: c.max_phys_bits,
    })
}

pub fn proto_cpus_to_sdk(c: &CpusConfig) -> (r: SdkCpusConfig)
    ensures
        cpus_converted(*c, r),
{
    SdkCpusConfig {
        boot_vcpus: c.boot_vcpus,
        max_vcpus: c.max_vcpus,
        topology: match &c.topology {
            None => None,
            Some(t) => Some(
                CpuTopology {
                    threads_per_core: t.threads_per_core,
                    cores_per_die: t.cores_per_die,
                    dies_per_package: t.dies_per_package,
                    packages: t.packages,
                },
            ),
        },
        kvm_hyperv: c.kvm_hyperv,
        max_phys_bits: c.max_phys_bits,
    }
}

/// The hypervisor form of the memory section.
pub open spec fn memory_converted(m: MemoryConfig, r: SdkMemoryConfig) -> bool {
    r == (SdkMemoryConfig {
        size: m.size,
        hotplug_size: m.hotplug_size,
        mergeable: m.mergeable,
        shared: m.shared,
        hugepages: m.hugepages,
        hugepage_size: m.hugepage_size,
        prefault: m.prefault,
        thp: m.thp,
    })
}

pub fn proto_memory_to_sdk(m: &MemoryConfig) -> (r: SdkMemoryConfig)
    ensures
        memory_converted(*m, r),
{
    SdkMemoryConfig {
        size: m.size,
        hotplug_size: m.hotplug_size,
        mergeable: m.mergeable,
        shared: m.shared,
        hugepages: m.hugepages,
        hugepage_size: m.hugepage_size,
        prefault: m.prefault,
        thp: m.thp,
    }
}

/// The hypervisor form of the boot payload.
pub open spec fn payload_converted(p: PayloadConfig, r: SdkPayloadConfig) -> bool {
    r == (SdkPayloadConfig {
        firmware: p.firmware,
        kernel: p.kernel,
        cmdline: p.cmdline,
        initramfs: p.initramfs,
    })
}

pub fn proto_payload_to_sdk(p: &PayloadConfig) -> (r: SdkPayloadConfig)
    ensures
        payload_converted(*p, r),
{
    SdkPayloadConfig {
        firmware: clone_opt_string(&p.firmware),
        kernel: clone_opt_string(&p.kernel),
        cmdline: clone_opt_string(&p.cmdline),
        initramfs: clone_opt_string(&p.initramfs),
    }
}

/// An empty payload, used when the wire configuration carries none.
pub open spec fn empty_payload(r: SdkPayloadConfig) -> bool {
    r == (SdkPayloadConfig { firmware: None, kernel: None, cmdline: None, initramfs: None })
}

/// The hypervisor form of one disk device; the device id moves into the
/// optional `id` field.
pub open spec fn disk_converted(d: DiskConfig, r: SdkDiskConfig) -> bool {
    r == (SdkDiskConfig {
        path: d.path,
        readonly: d.readonly,
        direct: d.direct,
        num_queues: d.num_queues,
        queue_size: d.queue_size,
        vhost_user: d.vhost_user,
        vhost_socket: d.vhost_socket,
        rate_limiter_config: d.rate_limiter,
        rate_limit_group: d.rate_limit_group,
        pci_segment: d.pci_segment,
        id: Some(d.id),
        serial: d.serial,
    })
}

pub fn proto_disk_to_sdk(d: &DiskConfig) -> (r: SdkDiskConfig)
    ensures
        disk_converted(*d, r),
{
    SdkDiskConfig {
        path: clone_opt_string(&d.path),
        readonly: d.readonly,
        direct: d.direct,
        num_queues: d.num_queues,
        queue_size: d.queue_size,
        vhost_user: d.vhost_user,
        vhost_socket: clone_opt_string(&d.vhost_socket),
        rate_limiter_config: clone_opt_rate_limiter(&d.rate_limiter),
        rate_limit_group: clone_opt_string(&d.rate_limit_group),
        pci_segment: d.pci_segment,
        id: Some(d.id.clone()),
        serial: clone_opt_string(&d.serial),
    }
}

/// The hypervisor form of one network device: fields copied, the vhost mode
/// encoded as a string, the device id moved into the optional `id` field.
pub open spec fn net_converted(n: NetConfig, r: SdkNetConfig) -> bool {
    &&& r.tap == n.tap
    &&& r.ip == n.ip
    &&& r.mask == n.mask
    &&& r.mac == n.mac
    &&& r.host_mac == n.host_mac
    &&& r.mtu == n.mtu
    &&& r.iommu == n.iommu
    &&& r.num_queues == n.num_queues
    &&& r.queue_size == n.queue_size
    &&& r.vhost_user == n.vhost_user
    &&& r.vhost_socket == n.vhost_socket
    &&& vhost_mode_encoded(n.vhost_mode, r.vhost_mode)
    &&& r.id == Some(n.id)
    &&& r.pci_segment == n.pci_segment
    &&& r.rate_limiter_config == n.rate_limiter
    &&& r.offload_tso == n.offload_tso
    &&& r.offload_ufo == n.offload_ufo
    &&& r.offload_csum == n.offload_csum
}

pub fn proto_net_to_sdk(n: &NetConfig) -> (r: SdkNetConfig)
    ensures
        net_converted(*n, r),
{
    SdkNetConfig {
        tap: clone_opt_string(&n.tap),
        ip: clone_opt_string(&n.ip),
        mask: clone_opt_string(&n.mask),
        mac: clone_opt_string(&n.mac),
        host_mac: clone_opt_string(&n.host_mac),
        mtu: n.mtu,
        iommu: n.iommu,
        num_queues: n.num_queues,
        queue_size: n.queue_size,
        vhost_user: n.vhost_user,
        vhost_socket: clone_opt_string(&n.vhost_socket),
        vhost_mode: encode_vhost_mode(n.vhost_mode),
        id: Some(n.id.clone()),
        pci_segment: n.pci_segment,
        rate_limiter_config: clone_opt_rate_limiter(&n.rate_limiter),
        offload_tso: n.offload_tso,
        offload_ufo: n.offload_ufo,
        offload_csum: n.offload_csum,
    }
}

/// The hypervisor form of the random-number device.
pub open spec fn rng_converted(g: RngConfig, r: SdkRngConfig) -> bool {
    r == (SdkRngConfig { src: g.src, iommu: g.iommu })
}

pub fn proto_rng_to_sdk(g: &RngConfig) -> (r: SdkRngConfig)
    ensures
        rng_converted(*g, r),
{
    SdkRngConfig { src: g.src.clone(), iommu: g.iommu }
}

/// The hypervisor form of a console device: the wire code becomes the mode
/// enum, paths are copied.
pub open spec fn console_converted(c: ConsoleConfig, r: SdkConsoleConfig) -> bool {
    r == (SdkConsoleConfig {
        mode: console_mode_of_code(c.mode),
        file: c.file,
        socket: c.socket,
        iommu: c.iommu,
    })
}

pub fn proto_console_to_sdk(c: &ConsoleConfig) -> (r: SdkConsoleConfig)
    ensures
        console_converted(*c, r),
{
    SdkConsoleConfig {
        mode: console_mode_from_code(c.mode),
        file: clone_opt_string(&c.file),
        socket: clone_opt_string(&c.socket),
        iommu: c.iommu,
    }
}

/// The hypervisor form of one shared-filesystem device. The bootstrap hint
/// does not appear: it is the agent's own and is consumed before this point.
pub open spec fn fs_converted(f: FsConfig, r: SdkFsConfig) -> bool {
    r == (SdkFsConfig {
        tag: f.tag,
        socket: f.socket,
        num_queues: f.num_queues,
        queue_size: f.queue_size,
        pci_segment: f.pci_segment,
        id: f.id,
    })
}

pub fn proto_fs_to_sdk(f: &FsConfig) -> (r: SdkFsConfig)
    ensures
        fs_converted(*f, r),
{
    SdkFsConfig {
        tag: f.tag.clone(),
        socket: f.socket.clone(),
        num_queues: f.num_queues,
        queue_size: f.queue_size,
        pci_segment: f.pci_segment,
        id: clone_opt_string(&f.id),
    }
}

/// The hypervisor form of the whole configuration: every present section is
/// converted, absent sections stay absent, empty device lists are omitted,
/// and a missing payload becomes an empty one.
pub open spec fn sdk_config_converted(c: VmConfig, r: SdkVmConfig) -> bool {
    &&& match c.payload {
        Some(p) => payload_converted(p, r.payload),
        None => empty_payload(r.payload),
    }
    &&& match c.cpus {
        Some(x) => r.cpus is Some && cpus_converted(x, r.cpus->0),
        None => r.cpus is None,
    }
    &&& match c.memory {
        Some(x) => r.memory is Some && memory_converted(x, r.memory->0),
        None => r.memory is None,
    }
    &&& if c.disks.len() == 0 {
        r.disks is None
    } else {
        r.disks is Some && r.disks->0.len() == c.disks.len() && forall|i: int|
            0 <= i < c.disks.len() ==> disk_converted(c.disks[i], #[trigger] r.disks->0[i])
    }
    &&& if c.networks.len() == 0 {
        r.net is None
    } else {
        r.net is Some && r.net->0.len() == c.networks.len() && forall|i: int|
            0 <= i < c.networks.len() ==> net_converted(c.networks[i], #[trigger] r.net->0[i])
    }
    &&& match c.rng {
        Some(x) => r.rng is Some && rng_converted(x, r.rng->0),
        None => r.rng is None,
    }
    &&& match c.serial {
        Some(x) => r.serial is Some && console_converted(x, r.serial->0),
        None => r.serial is None,
    }
    &&& match c.console {
        Some(x) => r.console is Some && console_converted(x, r.console->0),
        None => r.console is None,
    }
    &&& if c.fs.len() == 0 {
        r.fs is None
    } else {
        r.fs is Some && r.fs->0.len() == c.fs.len() && forall|i: int|
            0 <= i < c.fs.len() ==> fs_converted(c.fs[i], #[trigger] r.fs->0[i])
    }
}

/// Converts the wire configuration into the body for the hypervisor's
/// create call.
pub fn proto_to_sdk_config(c: &VmConfig) -> (r: SdkVmConfig)
    ensures
        sdk_config_converted(*c, r),
{
    let payload = match &c.payload {
        Some(p) => proto_payload_to_sdk(p),
        None => SdkPayloadConfig { firmware: None, kernel: None, cmdline: None, initramfs: None },
    };
    let cpus = match &c.cpus {
        Some(x) => Some(proto_cpus_to_sdk(x)),
        None => None,
    };
    let memory = match &c.memory {
        Some(x) => Some(proto_memory_to_sdk(x)),
        None => None,
    };
    let disks = if c.disks.len() == 0 {
        None
    } else {
        let mut v: Vec<SdkDiskConfig> = Vec::new();
        let mut i: usize = 0;
        while i < c.disks.len()
            invariant
                0 <= i <= c.disks.len(),
                v.len() == i,
                forall|j: int| 0 <= j < i ==> disk_converted(c.disks[j], #[trigger] v[j]),
            decreases c.disks.len() - i,
        {
            v.push(proto_disk_to_sdk(&c.disks[i]));
            i += 1;
        }
        Some(v)
    };
    let net = if c.networks.len() == 0 {
        None
    } else {
        let mut v: Vec<SdkNetConfig> = Vec::new();
        let mut i: usize = 0;
        while i < c.networks.len()
            invariant
                0 <= i <= c.networks.len(),
                v.len() == i,
                forall|j: int| 0 <= j < i ==> net_converted(c.networks[j], #[trigger] v[j]),
            decreases c.networks.len() - i,
        {
            v.push(proto_net_to_sdk(&c.networks[i]));
            i += 1;
        }
        Some(v)
    };
    let rng = match &c.rng {
        Some(x) => Some(proto_rng_to_sdk(x)),
        None => None,
    };
    let serial = match &c.serial {
        Some(x) => Some(proto_console_to_sdk(x)),
        None => None,
    };
    let console = match &c.console {
        Some(x) => Some(proto_console_to_sdk(x)),
        None => None,
    };
    let fs = if c.fs.len() == 0 {
        None
    } else {
        let mut v: Vec<SdkFsConfig> = Vec::new();
        let mut i: usize = 0;
        while i < c.fs.len()
            invariant
                0 <= i <= c.fs.len(),
                v.len() == i,
                forall|j: int| 0 <= j < i ==> fs_converted(c.fs[j], #[trigger] v[j]),
            decreases c.fs.len() - i,
        {
            v.push(proto_fs_to_sdk(&c.fs[i]));
            i += 1;
        }
        Some(v)
    };
    SdkVmConfig { payload, cpus, memory, disks, net, rng, serial, console, fs }
}

} // verus!
