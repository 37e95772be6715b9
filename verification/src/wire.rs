//! The node agent's wire messages: the VM configuration as it travels from
//! the controller to the agent, and the state projection that comes back.

use vstd::prelude::*;

verus! {

/// HTTP method of a hypervisor control-socket request.
pub enum Method {
    GET,
    PUT,
    PATCH,
}

impl Method {
    pub fn as_str(&self) -> (r: &str)
        ensures
            self is GET ==> r@ == "GET"@,
            self is PUT ==> r@ == "PUT"@,
            self is PATCH ==> r@ == "PATCH"@,
    {
        match self {
            Method::GET => "GET",
            Method::PUT => "PUT",
            Method::PATCH => "PATCH",
        }
    }
}

/// Token-bucket rate limit, in bytes or operations per refill interval.
#[derive(Clone, Debug, PartialEq)]
pub struct TokenBucket {
    pub size: i64,
    pub refill_time: i64,
    pub one_time_burst: Option<i64>,
}

/// Rate limiter attached to a disk or network device.
#[derive(Clone, Debug, PartialEq)]
pub struct RateLimiterConfig {
    pub bandwidth: Option<TokenBucket>,
    pub ops: Option<TokenBucket>,
}

pub const VHOST_MODE_CLIENT: i32 = 0;

pub const VHOST_MODE_SERVER: i32 = 1;

pub const CONSOLE_MODE_OFF: i32 = 0;

pub const CONSOLE_MODE_PTY: i32 = 1;

pub const CONSOLE_MODE_TTY: i32 = 2;

pub const CONSOLE_MODE_FILE: i32 = 3;

pub const CONSOLE_MODE_SOCKET: i32 = 4;

pub const CONSOLE_MODE_NULL: i32 = 5;

#[derive(Debug, PartialEq)]
pub struct CpuTopology {
    pub threads_per_core: Option<i32>,
    pub cores_per_die: Option<i32>,
    pub dies_per_package: Option<i32>,
    pub packages: Option<i32>,
}

#[derive(Debug, PartialEq)]
pub struct CpusConfig {
    pub boot_vcpus: i32,
    pub max_vcpus: i32,
    pub topology: Option<CpuTopology>,
    pub kvm_hyperv: Option<bool>,
    pub max_phys_bits: Option<i32>,
}

#[derive(Debug, PartialEq)]
pub struct MemoryConfig {
    pub size: i64,
    pub hotplug_size: Option<i64>,
    pub mergeable: Option<bool>,
    pub shared: Option<bool>,
    pub hugepages: Option<bool>,
    pub hugepage_size: Option<i64>,
    pub prefault: Option<bool>,
    pub thp: Option<bool>,
}

#[derive(Debug, PartialEq)]
pub struct PayloadConfig {
    pub firmware: Option<String>,
    pub kernel: Option<String>,
    pub cmdline: Option<String>,
    pub initramfs: Option<String>,
}

#[derive(Debug, PartialEq)]
pub struct DiskConfig {
    pub id: String,
    pub path: Option<String>,
    pub readonly: Option<bool>,
    pub direct: Option<bool>,
    pub num_queues: Option<i32>,
    pub queue_size: Option<i32>,
    pub vhost_user: Option<bool>,
    pub vhost_socket: Option<String>,
    pub rate_limiter: Option<RateLimiterConfig>,
    pub rate_limit_group: Option<String>,
    pub pci_segment: Option<i32>,
    pub serial: Option<String>,
}

#[derive(Debug, PartialEq)]
pub struct NetConfig {
    pub id: String,
    pub tap: Option<String>,
    pub ip: Option<String>,
    pub mask: Option<String>,
    pub mac: Option<String>,
    pub host_mac: Option<String>,
    pub mtu: Option<i32>,
    pub iommu: Option<bool>,
    pub num_queues: Option<i32>,
    pub queue_size: Option<i32>,
    pub vhost_user: Option<bool>,
    pub vhost_socket: Option<String>,
    pub vhost_mode: Option<i32>,
    pub pci_segment: Option<i32>,
    pub rate_limiter: Option<RateLimiterConfig>,
    pub offload_tso: Option<bool>,
    pub offload_ufo: Option<bool>,
    pub offload_csum: Option<bool>,
}

#[derive(Debug, PartialEq)]
pub struct RngConfig {
    pub src: String,
    pub iommu: Option<bool>,
}

#[derive(Debug, PartialEq)]
pub struct ConsoleConfig {
    pub mode: i32,
    pub file: Option<String>,
    pub socket: Option<String>,
    pub iommu: Option<bool>,
}

/// A shared-filesystem device. `bootstrap_path` is the agent-private hint:
/// when set, the agent starts a shared-fs daemon exporting that directory and
/// rewrites `socket` before the configuration reaches the hypervisor.
#[derive(Debug, PartialEq)]
pub struct FsConfig {
    pub tag: String,
    pub socket: String,
    pub num_queues: i32,
    pub queue_size: i32,
    pub pci_segment: Option<i32>,
    pub id: Option<String>,
    pub bootstrap_path: Option<String>,
}

/// The full VM configuration handed to the node agent.
#[derive(Debug, PartialEq)]
pub struct VmConfig {
    pub vm_id: String,
    pub cpus: Option<CpusConfig>,
    pub memory: Option<MemoryConfig>,
    pub payload: Option<PayloadConfig>,
    pub disks: Vec<DiskConfig>,
    pub networks: Vec<NetConfig>,
    pub rng: Option<RngConfig>,
    pub serial: Option<ConsoleConfig>,
    pub console: Option<ConsoleConfig>,
    pub fs: Vec<FsConfig>,
}

/// The state projection the agent reports for one VM.
#[derive(Debug)]
pub struct VmState {
    pub config: Option<VmConfig>,
    pub status: i32,
    pub memory_actual_size: Option<i64>,
}

pub(crate) fn clone_opt_string(o: &Option<String>) -> (r: Option<String>)
    ensures
        r == *o,
{
    match o {
        None => None,
        Some(s) => Some(s.clone()),
    }
}

pub(crate) fn clone_string_vec(v: &Vec<String>) -> (r: Vec<String>)
    ensures
        r@ == v@,
{
    let mut out: Vec<String> = Vec::new();
    let mut i: usize = 0;
    while i < v.len()
        invariant
            0 <= i <= v.len(),
            out.len() == i,
            forall|j: int| 0 <= j < i ==> out[j] == v[j],
        decreases v.len() - i,
    {
        out.push(v[i].clone());
        i += 1;
    }
    assert(out@ =~= v@);
    out
}

fn clone_token_bucket(b: &TokenBucket) -> (r: TokenBucket)
    ensures
        r == *b,
{
    TokenBucket { size: b.size, refill_time: b.refill_time, one_time_burst: b.one_time_burst }
}

fn clone_rate_limiter(r0: &RateLimiterConfig) -> (r: RateLimiterConfig)
    ensures
        r == *r0,
{
    RateLimiterConfig {
        bandwidth: match &r0.bandwidth {
            None => None,
            Some(b) => Some(clone_token_bucket(b)),
        },
        ops: match &r0.ops {
            None => None,
            Some(o) => Some(clone_token_bucket(o)),
        },
    }
}

pub(crate) fn clone_opt_rate_limiter(o: &Option<RateLimiterConfig>) -> (r: Option<RateLimiterConfig>)
    ensures
        r == *o,
{
    match o {
        None => None,
        Some(r0) => Some(clone_rate_limiter(r0)),
    }
}

fn clone_cpus(c: &CpusConfig) -> (r: CpusConfig)
    ensures
        r == *c,
{
    CpusConfig {
        boot_vcpus: c.boot_vcpus,
        max_vcpus: c.max_vcpus,
        topology: match &c.topology {
            None => None,
            Some(t) => Some(
                CpuTopology {
                    threads_per_core: t.threads_per_core,
                    cores_per_die: t.cores_per_die,
                    dies_per_package: t.dies_per_package,
                    packages: t.packages,
                },
            ),
        },
        kvm_hyperv: c.kvm_hyperv,
        max_phys_bits: c.max_phys_bits,
    }
}

fn clone_memory(m: &MemoryConfig) -> (r: MemoryConfig)
    ensures
        r == *m,
{
    MemoryConfig {
        size: m.size,
        hotplug_size: m.hotplug_size,
        mergeable: m.mergeable,
        shared: m.shared,
        hugepages: m.hugepages,
        hugepage_size: m.hugepage_size,
        prefault: m.prefault,
        thp: m.thp,
    }
}

fn clone_payload(p: &PayloadConfig) -> (r: PayloadConfig)
    ensures
        r == *p,
{
    PayloadConfig {
        firmware: clone_opt_string(&p.firmware),
        kernel: clone_opt_string(&p.kernel),
        cmdline: clone_opt_string(&p.cmdline),
        initramfs: clone_opt_string(&p.initramfs),
    }
}

fn clone_disk(d: &DiskConfig) -> (r: DiskConfig)
    ensures
        r == *d,
{
    DiskConfig {
        id: d.id.clone(),
        path: clone_opt_string(&d.path),
        readonly: d.readonly,
        direct: d.direct,
        num_queues: d.num_queues,
        queue_size: d.queue_size,
        vhost_user: d.vhost_user,
        vhost_socket: clone_opt_string(&d.vhost_socket),
        rate_limiter: clone_opt_rate_limiter(&d.rate_limiter),
        rate_limit_group: clone_opt_string(&d.rate_limit_group),
        pci_segment: d.pci_segment,
        serial: clone_opt_string(&d.serial),
    }
}

pub(crate) fn clone_net(n: &NetConfig) -> (r: NetConfig)
    ensures
        r == *n,
{
    NetConfig {
        id: n.id.clone(),
        tap: clone_opt_string(&n.tap),
        ip: clone_opt_string(&n.ip),
        mask: clone_opt_string(&n.mask),
        mac: clone_opt_string(&n.mac),
        host_mac: clone_opt_string(&n.host_mac),
        mtu: n.mtu,
        iommu: n.iommu,
        num_queues: n.num_queues,
        queue_size: n.queue_size,
        vhost_user: n.vhost_user,
        vhost_socket: clone_opt_string(&n.vhost_socket),
        vhost_mode: n.vhost_mode,
        pci_segment: n.pci_segment,
        rate_limiter: clone_opt_rate_limiter(&n.rate_limiter),
        offload_tso: n.offload_tso,
        offload_ufo: n.offload_ufo,
        offload_csum: n.offload_csum,
    }
}

fn clone_console(c: &ConsoleConfig) -> (r: ConsoleConfig)
    ensures
        r == *c,
{
    ConsoleConfig {
        mode: c.mode,
        file: clone_opt_string(&c.file),
        socket: clone_opt_string(&c.socket),
        iommu: c.iommu,
    }
}

pub(crate) fn clone_fs(f: &FsConfig) -> (r: FsConfig)
    ensures
        r == *f,
{
    FsConfig {
        tag: f.tag.clone(),
        socket: f.socket.clone(),
        num_queues: f.num_queues,
        queue_size: f.queue_size,
        pci_segment: f.pci_segment,
        id: clone_opt_string(&f.id),
        bootstrap_path: clone_opt_string(&f.bootstrap_path),
    }
}

/// Structural equality of two VM configurations: equal fields, with the
/// device lists compared element by element.
pub open spec fn vm_config_eq(a: VmConfig, b: VmConfig) -> bool {
    &&& a.vm_id == b.vm_id
    &&& a.cpus == b.cpus
    &&& a.memory == b.memory
    &&& a.payload == b.payload
    &&& a.disks@ == b.disks@
    &&& a.networks@ == b.networks@
    &&& a.rng == b.rng
    &&& a.serial == b.serial
    &&& a.console == b.console
    &&& a.fs@ == b.fs@
}

/// A structural copy of a VM configuration, used when one value must both be
/// stored and handed back to the caller.
pub fn clone_vm_config(c: &VmConfig) -> (r: VmConfig)
    ensures
        vm_config_eq(r, *c),
{
    let mut disks: Vec<DiskConfig> = Vec::new();
    let mut i: usize = 0;
    while i < c.disks.len()
        invariant
            0 <= i <= c.disks.len(),
            disks.len() == i,
            forall|j: int| 0 <= j < i ==> disks[j] == c.disks[j],
        decreases c.disks.len() - i,
    {
        disks.push(clone_disk(&c.disks[i]));
        i += 1;
    }
    assert(disks@ =~= c.disks@);
    let mut networks: Vec<NetConfig> = Vec::new();
    let mut i: usize = 0;
    while i < c.networks.len()
        invariant
            0 <= i <= c.networks.len(),
            networks.len() == i,
            forall|j: int| 0 <= j < i ==> networks[j] == c.networks[j],
        decreases c.networks.len() - i,
    {
        networks.push(clone_net(&c.networks[i]));
        i += 1;
    }
    assert(networks@ =~= c.networks@);
    let mut fs: Vec<FsConfig> = Vec::new();
    let mut i: usize = 0;
    while i < c.fs.len()
        invariant
            0 <= i <= c.fs.len(),
            fs.len() == i,
            forall|j: int| 0 <= j < i ==> fs[j] == c.fs[j],
        decreases c.fs.len() - i,
    {
        fs.push(clone_fs(&c.fs[i]));
        i += 1;
    }
    assert(fs@ =~= c.fs@);
    VmConfig {
        vm_id: c.vm_id.clone(),
        cpus: match &c.cpus {
            None => None,
            Some(x) => Some(clone_cpus(x)),
        },
        memory: match &c.memory {
            None => None,
            Some(x) => Some(clone_memory(x)),
        },
        payload: match &c.payload {
            None => None,
            Some(x) => Some(clone_payload(x)),
        },
        disks,
        networks,
        rng: match &c.rng {
            None => None,
            Some(x) => Some(RngConfig { src: x.src.clone(), iommu: x.iommu }),
        },
        serial: match &c.serial {
            None => None,
            Some(x) => Some(clone_console(x)),
        },
        console: match &c.console {
            None => None,
            Some(x) => Some(clone_console(x)),
        },
        fs,
    }
}

} // verus!
