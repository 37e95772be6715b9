//! The node agent's VM manager: the in-memory registry of VM instances and
//! every decision the lifecycle operations make over it.
//!
//! The manager holds plain values. The work around it — spawning the
//! hypervisor child, creating tap devices, driving the control socket,
//! reading and writing the runtime directory — happens outside the library,
//! which hands each outcome back in as an argument.

use vstd::prelude::*;

use crate::errors::VmManagerError;
use crate::ids::{uuid_parse_ok, vm_id_parses};
use crate::paths::{config_path, config_path_spec, fs_daemon_id, fs_daemon_id_spec, sock_path, sock_path_spec};
use crate::status::{code_of_status, proto_status_to_db, status_of_code, status_to_proto, VmStatus};
use crate::tap::{has_tap_prefix, tap_name_for_net, tap_name_spec};
use crate::text::str_eq;
use crate::wire::{clone_fs, clone_net, clone_vm_config, vm_config_eq, FsConfig, NetConfig, VmConfig, VmState};

verus! {

/// One managed VM.
pub struct VmInstance {
    /// The wire configuration, kept for restart recovery.
    pub proto_config: VmConfig,
    /// Whether the agent owns the hypervisor child process. Recovered VMs
    /// have no handle: they can only be shut down through the API.
    pub has_process: bool,
    /// The hypervisor control socket.
    pub socket_path: String,
    /// The last status the agent observed.
    pub status: VmStatus,
    /// Tap devices this agent created for the VM, deleted with it.
    pub tap_devices: Vec<String>,
}

struct VmEntry {
    id: String,
    inst: VmInstance,
}

/// The manager: a registry of VM instances keyed by identifier, plus the
/// runtime directory and the hypervisor binary path.
pub struct VmManager {
    runtime_dir: String,
    ch_binary: String,
    vms: Vec<VmEntry>,
    has_image_store: bool,
}

/// Whether `st` is the state projection of instance `inst`: the stored
/// configuration, the status code, and no live memory figure.
pub open spec fn state_matches(inst: VmInstance, st: VmState) -> bool {
    &&& st.config matches Some(c) && vm_config_eq(c, inst.proto_config)
    &&& st.status == code_of_status(inst.status)
    &&& st.memory_actual_size is None
}

impl VmInstance {
    /// The state projection the RPC surface reports.
    pub fn to_vm_state(&self) -> (st: VmState)
        ensures
            state_matches(*self, st),
    {
        VmState {
            config: Some(clone_vm_config(&self.proto_config)),
            status: status_to_proto(self.status),
            memory_actual_size: None,
        }
    }
}

impl VmManager {
    /// The identifiers are pairwise distinct; every operation keeps this.
    pub closed spec fn wf(&self) -> bool {
        forall|i: int, j: int|
            0 <= i < j < self.vms@.len() ==> self.vms@[i].id@ != self.vms@[j].id@
    }

    /// Whether a VM with this identifier is registered.
    pub closed spec fn has_vm(&self, id: Seq<char>) -> bool {
        exists|i: int| 0 <= i < self.vms@.len() && self.vms@[i].id@ == id
    }

    spec fn idx(&self, id: Seq<char>) -> int {
        choose|i: int| 0 <= i < self.vms@.len() && self.vms@[i].id@ == id
    }

    /// The registered instance for an identifier.
    pub closed spec fn inst(&self, id: Seq<char>) -> VmInstance {
        self.vms@[self.idx(id)].inst
    }

    /// How many VMs are registered.
    pub closed spec fn vm_count(&self) -> nat {
        self.vms@.len()
    }

    /// The runtime directory.
    pub closed spec fn dir(&self) -> Seq<char> {
        self.runtime_dir@
    }

    /// The hypervisor binary path.
    pub closed spec fn binary(&self) -> Seq<char> {
        self.ch_binary@
    }

    /// Whether an image store is configured.
    pub closed spec fn image_store_enabled(&self) -> bool {
        self.has_image_store
    }

    proof fn lemma_idx_at(&self, i: int)
        requires
            self.wf(),
            0 <= i < self.vms@.len(),
        ensures
            self.has_vm(self.vms@[i].id@),
            self.idx(self.vms@[i].id@) == i,
            self.inst(self.vms@[i].id@) == self.vms@[i].inst,
    {
        let id = self.vms@[i].id@;
        assert(0 <= i < self.vms@.len() && self.vms@[i].id@ == id);
        let j = self.idx(id);
        assert(0 <= j < self.vms@.len() && self.vms@[j].id@ == id);
        if i != j {
            if i < j {
                assert(self.vms@[i].id@ != self.vms@[j].id@);
            } else {
                assert(self.vms@[j].id@ != self.vms@[i].id@);
            }
        }
    }

    proof fn lemma_push_frame(pre: Self, post: Self, e: VmEntry)
        requires
            pre.wf(),
            !pre.has_vm(e.id@),
            post.vms@ == pre.vms@.push(e),
        ensures
            post.wf(),
            post.has_vm(e.id@),
            post.inst(e.id@) == e.inst,
            post.vm_count() == pre.vm_count() + 1,
            forall|x: Seq<char>| x != e.id@ ==> post.has_vm(x) == pre.has_vm(x),
            forall|x: Seq<char>|
                x != e.id@ && pre.has_vm(x) ==> post.inst(x) == pre.inst(x),
    {
        let n = pre.vms@.len() as int;
        assert forall|i: int, j: int| 0 <= i < j < post.vms@.len() implies post.vms@[i].id@
            != post.vms@[j].id@ by {
            if j < n {
                assert(post.vms@[i] == pre.vms@[i]);
                assert(post.vms@[j] == pre.vms@[j]);
            } else {
                assert(post.vms@[j] == e);
                assert(post.vms@[i] == pre.vms@[i]);
                if pre.vms@[i].id@ == e.id@ {
                    assert(pre.has_vm(e.id@));
                }
            }
        }
        assert(post.vms@[n].id@ == e.id@);
        post.lemma_idx_at(n);
        assert forall|x: Seq<char>| x != e.id@ implies post.has_vm(x) == pre.has_vm(x) by {
            if pre.has_vm(x) {
                let i = pre.idx(x);
                assert(post.vms@[i].id@ == x);
            }
            if post.has_vm(x) {
                let i = post.idx(x);
                assert(post.vms@[i].id@ == x);
                assert(i < n);
                assert(pre.vms@[i].id@ == x);
            }
        }
        assert forall|x: Seq<char>| x != e.id@ && pre.has_vm(x) implies post.inst(x)
            == pre.inst(x) by {
            let i = pre.idx(x);
            assert(pre.vms@[i].id@ == x);
            pre.lemma_idx_at(i);
            assert(post.vms@[i].id@ == x);
            post.lemma_idx_at(i);
        }
    }

    proof fn lemma_remove_frame(pre: Self, post: Self, i: int)
        requires
            pre.wf(),
            0 <= i < pre.vms@.len(),
            post.vms@ == pre.vms@.remove(i),
        ensures
            post.wf(),
            !post.has_vm(pre.vms@[i].id@),
            post.vm_count() + 1 == pre.vm_count(),
            forall|x: Seq<char>| x != pre.vms@[i].id@ ==> post.has_vm(x) == pre.has_vm(x),
            forall|x: Seq<char>|
                x != pre.vms@[i].id@ && pre.has_vm(x) ==> post.inst(x) == pre.inst(x),
    {
        let id = pre.vms@[i].id@;
        let n = pre.vms@.len() as int;
        assert forall|a: int, b: int| 0 <= a < b < post.vms@.len() implies post.vms@[a].id@
            != post.vms@[b].id@ by {
            let a0 = if a < i { a } else { a + 1 };
            let b0 = if b < i { b } else { b + 1 };
            assert(post.vms@[a] == pre.vms@[a0]);
            assert(post.vms@[b] == pre.vms@[b0]);
        }
        if post.has_vm(id) {
            let k = post.idx(id);
            let k0 = if k < i { k } else { k + 1 };
            assert(post.vms@[k] == pre.vms@[k0]);
            assert(pre.vms@[k0].id@ == id);
            pre.lemma_idx_at(k0);
            pre.lemma_idx_at(i);
            assert(false);
        }
        assert forall|x: Seq<char>| x != id implies post.has_vm(x) == pre.has_vm(x) by {
            if pre.has_vm(x) {
                let k = pre.idx(x);
                assert(pre.vms@[k].id@ == x);
                if k < i {
                    assert(post.vms@[k] == pre.vms@[k]);
                } else {
                    assert(k > i);
                    assert(post.vms@[k - 1] == pre.vms@[k]);
                }
            }
            if post.has_vm(x) {
                let k = post.idx(x);
                let k0 = if k < i { k } else { k + 1 };
                assert(post.vms@[k] == pre.vms@[k0]);
            }
        }
        assert forall|x: Seq<char>| x != id && pre.has_vm(x) implies post.inst(x) == pre.inst(
            x,
        ) by {
            let k = pre.idx(x);
            assert(pre.vms@[k].id@ == x);
            pre.lemma_idx_at(k);
            if k < i {
                assert(post.vms@[k] == pre.vms@[k]);
                post.lemma_idx_at(k);
            } else {
                assert(k > i);
                assert(post.vms@[k - 1] == pre.vms@[k]);
                post.lemma_idx_at(k - 1);
            }
        }
    }

    /// A fresh manager: no VMs registered.
    pub fn new(runtime_dir: String, ch_binary: String, has_image_store: bool) -> (r: Self)
        ensures
            r.wf(),
            r.vm_count() == 0,
            forall|id: Seq<char>| !r.has_vm(id),
            r.dir() == runtime_dir@,
            r.binary() == ch_binary@,
            r.image_store_enabled() == has_image_store,
    {
        VmManager { runtime_dir, ch_binary, vms: Vec::new(), has_image_store }
    }

    /// The runtime directory for VM sockets, logs and configs.
    pub fn runtime_dir(&self) -> (r: &str)
        ensures
            r@ == self.dir(),
    {
        self.runtime_dir.as_str()
    }

    /// The hypervisor binary path.
    pub fn ch_binary(&self) -> (r: &str)
        ensures
            r@ == self.binary(),
    {
        self.ch_binary.as_str()
    }

    /// Whether the image store is configured on this node.
    pub fn image_store_configured(&self) -> (r: bool)
        ensures
            r == self.image_store_enabled(),
    {
        self.has_image_store
    }

    fn find(&self, vm_id: &str) -> (r: Option<usize>)
        requires
            self.wf(),
        ensures
            match r {
                Some(i) => i < self.vms@.len() && self.vms@[i as int].id@ == vm_id@,
                None => !self.has_vm(vm_id@),
            },
    {
        let mut i: usize = 0;
        while i < self.vms.len()
            invariant
                0 <= i <= self.vms@.len(),
                forall|j: int| 0 <= j < i ==> self.vms@[j].id@ != vm_id@,
            decreases self.vms@.len() - i,
        {
            if str_eq(self.vms[i].id.as_str(), vm_id) {
                return Some(i);
            }
            i += 1;
        }
        None
    }

    /// The preconditions of a create, checked without touching anything: the
    /// id must parse and must not be registered. Callers check here before
    /// spending host-side work, and registration checks again.
    pub fn check_create(&self, config: &VmConfig) -> (r: Result<(), VmManagerError>)
        requires
            self.wf(),
        ensures
            if !uuid_parse_ok(config.vm_id@) {
                r matches Err(e) && e is InvalidConfig
            } else if self.has_vm(config.vm_id@) {
                r matches Err(e) && (e matches VmManagerError::VmAlreadyExists(s) && s@
                    == config.vm_id@)
            } else {
                r is Ok
            },
    {
        if !vm_id_parses(config.vm_id.as_str()) {
            return Err(VmManagerError::InvalidConfig(config.vm_id.clone()));
        }
        match self.find(config.vm_id.as_str()) {
            Some(_) => Err(VmManagerError::VmAlreadyExists(config.vm_id.clone())),
            None => Ok(()),
        }
    }

    /// Registers a new VM. The caller has already created the tap devices in
    /// `taps`, started any shared-fs daemons, spawned the hypervisor child
    /// and driven the create call; registration is the last step and the
    /// in-memory map is only touched here, on full success.
    pub fn create_vm(&mut self, config: VmConfig, taps: Vec<String>) -> (r: Result<
        VmState,
        VmManagerError,
    >)
        requires
            old(self).wf(),
        ensures
            final(self).wf(),
            create_post(*old(self), *final(self), config, taps, r),
    {
        if !vm_id_parses(config.vm_id.as_str()) {
            return Err(VmManagerError::InvalidConfig(config.vm_id));
        }
        match self.find(config.vm_id.as_str()) {
            Some(_) => Err(VmManagerError::VmAlreadyExists(config.vm_id)),
            None => {
                let socket_path = sock_path(self.runtime_dir.as_str(), config.vm_id.as_str());
                let id = config.vm_id.clone();
                let inst = VmInstance {
                    proto_config: config,
                    has_process: true,
                    socket_path,
                    status: VmStatus::Created,
                    tap_devices: taps,
                };
                let st = inst.to_vm_state();
                let e = VmEntry { id, inst };
                let ghost pre = *self;
                self.vms.push(e);
                proof {
                    Self::lemma_push_frame(pre, *self, e);
                }
                Ok(st)
            },
        }
    }

    fn set_status(&mut self, vm_id: &str, status: VmStatus) -> (r: Result<(), VmManagerError>)
        requires
            old(self).wf(),
        ensures
            final(self).wf(),
            set_status_post(*old(self), *final(self), vm_id@, status, r),
    {
        match self.find(vm_id) {
            None => Err(VmManagerError::VmNotFound(String::from_str(vm_id))),
            Some(i) => {
                proof {
                    old(self).lemma_idx_at(i as int);
                }
                let ghost pre = *self;
                let mut e = self.vms.remove(i);
                let ghost mid = *self;
                e.inst.status = status;
                self.vms.push(e);
                proof {
                    Self::lemma_remove_frame(pre, mid, i as int);
                    Self::lemma_push_frame(mid, *self, e);
                }
                Ok(())
            },
        }
    }

    /// Records that the hypervisor booted the VM.
    pub fn start_vm(&mut self, vm_id: &str) -> (r: Result<(), VmManagerError>)
        requires
            old(self).wf(),
        ensures
            final(self).wf(),
            set_status_post(*old(self), *final(self), vm_id@, VmStatus::Running, r),
    {
        self.set_status(vm_id, VmStatus::Running)
    }

    /// Records that the hypervisor shut the VM down.
    pub fn stop_vm(&mut self, vm_id: &str) -> (r: Result<(), VmManagerError>)
        requires
            old(self).wf(),
        ensures
            final(self).wf(),
            set_status_post(*old(self), *final(self), vm_id@, VmStatus::Shutdown, r),
    {
        self.set_status(vm_id, VmStatus::Shutdown)
    }

    /// Records that the hypervisor paused the VM.
    pub fn pause_vm(&mut self, vm_id: &str) -> (r: Result<(), VmManagerError>)
        requires
            old(self).wf(),
        ensures
            final(self).wf(),
            set_status_post(*old(self), *final(self), vm_id@, VmStatus::Paused, r),
    {
        self.set_status(vm_id, VmStatus::Paused)
    }

    /// Records that the hypervisor resumed the VM.
    pub fn resume_vm(&mut self, vm_id: &str) -> (r: Result<(), VmManagerError>)
        requires
            old(self).wf(),
        ensures
            final(self).wf(),
            set_status_post(*old(self), *final(self), vm_id@, VmStatus::Running, r),
    {
        self.set_status(vm_id, VmStatus::Running)
    }

    /// Unregisters a VM and returns everything the caller must clean up:
    /// the control socket and the persisted config on disk, the tap devices
    /// the agent created, and the names of any shared-fs daemons.
    pub fn delete_vm(&mut self, vm_id: &str) -> (r: Result<CleanupPlan, VmManagerError>)
        requires
            old(self).wf(),
        ensures
            final(self).wf(),
            delete_post(*old(self), *final(self), vm_id@, r),
    {
        match self.find(vm_id) {
            None => Err(VmManagerError::VmNotFound(String::from_str(vm_id))),
            Some(i) => {
                proof {
                    old(self).lemma_idx_at(i as int);
                }
                let ghost pre = *self;
                let e = self.vms.remove(i);
                proof {
                    Self::lemma_remove_frame(pre, *self, i as int);
                }
                let mut fs_daemon_ids: Vec<String> = Vec::new();
                let mut k: usize = 0;
                while k < 8
                    invariant
                        0 <= k <= 8,
                        fs_daemon_ids@.len() == k,
                        forall|j: int|
                            0 <= j < k ==> #[trigger] fs_daemon_ids@[j]@ == fs_daemon_id_spec(
                                vm_id@,
                                j as nat,
                            ),
                    decreases 8 - k,
                {
                    fs_daemon_ids.push(fs_daemon_id(vm_id, k));
                    k += 1;
                }
                Ok(
                    CleanupPlan {
                        had_process: e.inst.has_process,
                        socket_path: e.inst.socket_path,
                        config_path: config_path(self.runtime_dir.as_str(), vm_id),
                        taps: e.inst.tap_devices,
                        fs_daemon_ids,
                    },
                )
            },
        }
    }

    /// The state projection for one VM, from the cached status.
    pub fn get_vm_info(&self, vm_id: &str) -> (r: Result<VmState, VmManagerError>)
        requires
            self.wf(),
        ensures
            if self.has_vm(vm_id@) {
                r matches Ok(st) && state_matches(self.inst(vm_id@), st)
            } else {
                r matches Err(e) && e matches VmManagerError::VmNotFound(s) && s@ == vm_id@
            },
    {
        match self.find(vm_id) {
            None => Err(VmManagerError::VmNotFound(String::from_str(vm_id))),
            Some(i) => {
                proof {
                    self.lemma_idx_at(i as int);
                }
                Ok(self.vms[i].inst.to_vm_state())
            },
        }
    }

    /// Folds a live report from the hypervisor into the registry: the cached
    /// status becomes the reported one, and the returned projection carries
    /// the reported memory figure.
    pub fn absorb_live_state(&mut self, vm_id: &str, status_code: i32, memory: Option<i64>) -> (r:
        Result<VmState, VmManagerError>)
        requires
            old(self).wf(),
        ensures
            final(self).wf(),
            absorb_post(*old(self), *final(self), vm_id@, status_code, memory, r),
    {
        match self.find(vm_id) {
            None => Err(VmManagerError::VmNotFound(String::from_str(vm_id))),
            Some(i) => {
                proof {
                    old(self).lemma_idx_at(i as int);
                }
                let ghost pre = *self;
                let mut e = self.vms.remove(i);
                let ghost mid = *self;
                e.inst.status = proto_status_to_db(status_code);
                let st = VmState {
                    config: Some(clone_vm_config(&e.inst.proto_config)),
                    status: status_to_proto(e.inst.status),
                    memory_actual_size: memory,
                };
                self.vms.push(e);
                proof {
                    Self::lemma_remove_frame(pre, mid, i as int);
                    Self::lemma_push_frame(mid, *self, e);
                }
                Ok(st)
            },
        }
    }

    /// The control socket of a registered VM, for callers that must speak to
    /// the hypervisor.
    pub fn socket_path_of(&self, vm_id: &str) -> (r: Result<String, VmManagerError>)
        requires
            self.wf(),
        ensures
            if self.has_vm(vm_id@) {
                r matches Ok(s) && s@ == self.inst(vm_id@).socket_path@
            } else {
                r matches Err(e) && e matches VmManagerError::VmNotFound(s) && s@ == vm_id@
            },
    {
        match self.find(vm_id) {
            None => Err(VmManagerError::VmNotFound(String::from_str(vm_id))),
            Some(i) => {
                proof {
                    self.lemma_idx_at(i as int);
                }
                Ok(self.vms[i].inst.socket_path.clone())
            },
        }
    }

    /// The instance registered at a position, for stating what a listing holds.
    pub closed spec fn inst_at(&self, i: int) -> VmInstance {
        self.vms@[i].inst
    }

    /// The identifier registered at a position.
    pub closed spec fn id_at(&self, i: int) -> Seq<char> {
        self.vms@[i].id@
    }

    /// Positions and identifiers name the same registry: the instance at a
    /// position is the instance of its identifier.
    pub proof fn lemma_registry_at(&self, i: int)
        requires
            self.wf(),
            0 <= i < self.vm_count(),
        ensures
            self.has_vm(self.id_at(i)),
            self.inst(self.id_at(i)) == self.inst_at(i),
    {
        self.lemma_idx_at(i);
    }

    /// A snapshot of every VM's state projection, in registry order.
    pub fn list_vms(&self) -> (r: Vec<VmState>)
        ensures
            r@.len() == self.vm_count(),
            forall|i: int| 0 <= i < r@.len() ==> state_matches(self.inst_at(i), #[trigger] r@[i]),
    {
        let mut out: Vec<VmState> = Vec::new();
        let mut i: usize = 0;
        while i < self.vms.len()
            invariant
                0 <= i <= self.vms@.len(),
                out@.len() == i,
                forall|j: int| 0 <= j < i ==> state_matches(self.inst_at(j), #[trigger] out@[j]),
            decreases self.vms@.len() - i,
        {
            out.push(self.vms[i].inst.to_vm_state());
            i += 1;
        }
        out
    }

    /// Registers one VM found on disk after an agent restart. Recovery asks
    /// for the decoded persisted config, a parseable identifier, and a
    /// control socket that still accepts connections; the hypervisor child
    /// is not owned. Returns whether the VM was adopted.
    pub fn recover_vm(&mut self, d: Discovery) -> (r: bool)
        requires
            old(self).wf(),
        ensures
            final(self).wf(),
            recover_post(*old(self), *final(self), d, r),
    {
        if !vm_id_parses(d.vm_id.as_str()) {
            return false;
        }
        if !d.connected {
            return false;
        }
        let config = match d.config {
            None => {
                return false;
            },
            Some(c) => c,
        };
        match self.find(d.vm_id.as_str()) {
            Some(_) => false,
            None => {
                let status = match d.live_status {
                    Some(code) => proto_status_to_db(code),
                    None => VmStatus::Unknown,
                };
                let socket_path = sock_path(self.runtime_dir.as_str(), d.vm_id.as_str());
                let tap_devices = managed_taps(&config.networks);
                let inst = VmInstance {
                    proto_config: config,
                    has_process: false,
                    socket_path,
                    status,
                    tap_devices,
                };
                let e = VmEntry { id: d.vm_id, inst };
                let ghost pre = *self;
                self.vms.push(e);
                proof {
                    Self::lemma_push_frame(pre, *self, e);
                }
                true
            },
        }
    }

    /// Replays every discovery made by the startup scan of the runtime
    /// directory. The scan yields each identifier once, so the discoveries
    /// carry pairwise distinct ids.
    pub fn recover_vms(&mut self, discoveries: Vec<Discovery>)
        requires
            old(self).wf(),
            forall|a: int, b: int|
                0 <= a < b < discoveries@.len() ==> discoveries@[a].vm_id@ != discoveries@[b].vm_id@,
        ensures
            final(self).wf(),
            final(self).dir() == old(self).dir(),
            final(self).binary() == old(self).binary(),
            final(self).image_store_enabled() == old(self).image_store_enabled(),
            forall|x: Seq<char>|
                #[trigger] final(self).has_vm(x) <==> old(self).has_vm(x) || exists|k: int|
                    0 <= k < discoveries@.len() && (#[trigger] discoveries@[k]).vm_id@ == x
                        && qualifies(*old(self), discoveries@[k]),
            forall|x: Seq<char>|
                old(self).has_vm(x) ==> final(self).inst(x) == old(self).inst(x),
            forall|k: int|
                0 <= k < discoveries@.len() && qualifies(*old(self), #[trigger] discoveries@[k])
                    ==> recovered_instance(
                    *final(self),
                    old(self).dir(),
                    discoveries@[k],
                ),
    {
        let ghost pre = *self;
        let ghost orig = discoveries@;
        let mut ds = discoveries;
        while ds.len() > 0
            invariant
                self.wf(),
                self.dir() == pre.dir(),
                self.binary() == pre.binary(),
                self.image_store_enabled() == pre.image_store_enabled(),
                ds@.len() <= orig.len(),
                ds@ =~= orig.skip(orig.len() - ds@.len()),
                forall|a: int, b: int|
                    0 <= a < b < orig.len() ==> orig[a].vm_id@ != orig[b].vm_id@,
                forall|x: Seq<char>|
                    #[trigger] self.has_vm(x) <==> pre.has_vm(x) || exists|k: int|
                        0 <= k < orig.len() - ds@.len() && (#[trigger] orig[k]).vm_id@ == x
                            && qualifies(pre, orig[k]),
                forall|x: Seq<char>| pre.has_vm(x) ==> self.inst(x) == pre.inst(x),
                forall|k: int|
                    0 <= k < orig.len() - ds@.len() && qualifies(pre, #[trigger] orig[k])
                        ==> recovered_instance(*self, pre.dir(), orig[k]),
            decreases ds@.len(),
        {
            let ghost i = orig.len() - ds@.len();
            let ghost mid = *self;
            let d = ds.remove(0);
            proof {
                assert(d == orig[i]);
                assert(ds@ =~= orig.skip(orig.len() - ds@.len()));
                assert forall|k: int| 0 <= k < i implies orig[k].vm_id@ != d.vm_id@ by {}
                assert(mid.has_vm(d.vm_id@) == pre.has_vm(d.vm_id@));
            }
            self.recover_vm(d);
            proof {
                assert forall|x: Seq<char>| #[trigger] self.has_vm(x) implies pre.has_vm(x)
                    || exists|k: int|
                    0 <= k <= i && (#[trigger] orig[k]).vm_id@ == x && qualifies(pre, orig[k]) by {
                    if x == d.vm_id@ {
                        if !pre.has_vm(x) {
                            assert(orig[i].vm_id@ == x);
                        }
                    }
                }
                assert forall|k: int|
                    0 <= k <= i && qualifies(pre, #[trigger] orig[k]) implies recovered_instance(
                    *self,
                    pre.dir(),
                    orig[k],
                ) by {
                    if k < i {
                        assert(recovered_instance(mid, pre.dir(), orig[k]));
                        assert(orig[k].vm_id@ != d.vm_id@);
                    }
                }
            }
        }
        proof {
            assert(orig.len() - 0 == orig.len());
        }
    }

} // impl VmManager

/// One candidate found by the startup scan: a control socket in the runtime
/// directory, the sibling persisted config when it decoded, and what
/// happened when the agent tried the socket and the info call.
pub struct Discovery {
    pub vm_id: String,
    /// The decoded persisted config; absent when the sibling file is missing
    /// or does not decode.
    pub config: Option<VmConfig>,
    /// Whether the control socket accepted a connection; a dead hypervisor
    /// disqualifies the VM.
    pub connected: bool,
    /// The status code the info call reported, when it succeeded.
    pub live_status: Option<i32>,
}

/// Whether a discovery is adopted, against the registry before recovery.
pub open spec fn qualifies(pre: VmManager, d: Discovery) -> bool {
    &&& d.config is Some
    &&& uuid_parse_ok(d.vm_id@)
    &&& d.connected
    &&& !pre.has_vm(d.vm_id@)
}

/// The status a recovered VM starts with: what the info call reported, or
/// unknown when it failed.
pub open spec fn recovered_status(d: Discovery) -> VmStatus {
    match d.live_status {
        Some(code) => status_of_code(code),
        None => VmStatus::Unknown,
    }
}

/// What recovery registers for a qualifying discovery: the persisted config,
/// no process handle, the reported status, the canonical socket path, and
/// exactly the prefix-named tap devices re-derived from the config.
pub open spec fn recovered_instance(m: VmManager, dir: Seq<char>, d: Discovery) -> bool {
    &&& m.has_vm(d.vm_id@)
    &&& m.inst(d.vm_id@).proto_config == d.config->0
    &&& m.inst(d.vm_id@).has_process == false
    &&& m.inst(d.vm_id@).status == recovered_status(d)
    &&& m.inst(d.vm_id@).socket_path@ == sock_path_spec(dir, d.vm_id@)
    &&& m.inst(d.vm_id@).tap_devices@ == managed_tap_names(d.config->0.networks@)
}

/// How one recovery attempt leaves the registry.
pub open spec fn recover_post(pre: VmManager, post: VmManager, d: Discovery, r: bool) -> bool {
    &&& post.dir() == pre.dir()
    &&& post.binary() == pre.binary()
    &&& post.image_store_enabled() == pre.image_store_enabled()
    &&& r == qualifies(pre, d)
    &&& if r {
        &&& post.vm_count() == pre.vm_count() + 1
        &&& recovered_instance(post, pre.dir(), d)
        &&& forall|x: Seq<char>| x != d.vm_id@ ==> post.has_vm(x) == pre.has_vm(x)
        &&& forall|x: Seq<char>| x != d.vm_id@ && pre.has_vm(x) ==> post.inst(x) == pre.inst(x)
    } else {
        post == pre
    }
}

/// The tap names a config carries that bear the manager's prefix: the
/// devices recovery adopts and delete tears down.
pub open spec fn managed_tap_names(nets: Seq<NetConfig>) -> Seq<String>
    decreases nets.len(),
{
    if nets.len() == 0 {
        Seq::empty()
    } else {
        managed_tap_names(nets.drop_last()) + (if nets.last().tap matches Some(t)
            && has_tap_prefix(t@) {
            seq![nets.last().tap->0]
        } else {
            Seq::empty()
        })
    }
}

fn tap_prefix_check(t: &str) -> (r: bool)
    ensures
        r == has_tap_prefix(t@),
{
    proof {
        reveal_strlit("q");
        reveal_strlit("t");
    }
    t.unicode_len() >= 2 && t.get_char(0) == 'q' && t.get_char(1) == 't'
}

/// Re-derives the managed tap devices from a config's network list.
pub fn managed_taps(nets: &Vec<NetConfig>) -> (r: Vec<String>)
    ensures
        r@ == managed_tap_names(nets@),
{
    let mut out: Vec<String> = Vec::new();
    let mut i: usize = 0;
    while i < nets.len()
        invariant
            0 <= i <= nets@.len(),
            out@ == managed_tap_names(nets@.take(i as int)),
        decreases nets@.len() - i,
    {
        proof {
            let pre = nets@.take(i as int);
            let ext = nets@.take(i + 1 as int);
            assert(ext.drop_last() =~= pre);
            assert(ext.last() == nets@[i as int]);
        }
        match &nets[i].tap {
            Some(t) => {
                if tap_prefix_check(t.as_str()) {
                    out.push(t.clone());
                    proof {
                        assert(out@ =~= managed_tap_names(nets@.take(i + 1 as int)));
                    }
                } else {
                    proof {
                        assert(out@ =~= managed_tap_names(nets@.take(i + 1 as int)));
                    }
                }
            },
            None => {
                proof {
                    assert(out@ =~= managed_tap_names(nets@.take(i + 1 as int)));
                }
            },
        }
        i += 1;
    }
    proof {
        assert(nets@.take(nets@.len() as int) =~= nets@);
    }
    out
}

/// Whether the agent must allocate a tap device for this interface: it is
/// not a vhost-user interface and carries no tap name of its own.
pub open spec fn needs_tap(n: NetConfig) -> bool {
    !(n.vhost_user == Some(true)) && n.tap is None
}

/// `n` is `o` with the tap name `name` filled in and every other field kept.
pub open spec fn tap_filled(o: NetConfig, n: NetConfig, name: Seq<char>) -> bool {
    &&& n.tap matches Some(t) && t@ == name
    &&& n.id == o.id
    &&& n.ip == o.ip
    &&& n.mask == o.mask
    &&& n.mac == o.mac
    &&& n.host_mac == o.host_mac
    &&& n.mtu == o.mtu
    &&& n.iommu == o.iommu
    &&& n.num_queues == o.num_queues
    &&& n.queue_size == o.queue_size
    &&& n.vhost_user == o.vhost_user
    &&& n.vhost_socket == o.vhost_socket
    &&& n.vhost_mode == o.vhost_mode
    &&& n.pci_segment == o.pci_segment
    &&& n.rate_limiter == o.rate_limiter
    &&& n.offload_tso == o.offload_tso
    &&& n.offload_ufo == o.offload_ufo
    &&& n.offload_csum == o.offload_csum
}

/// How interface `i` leaves planning: the deterministic tap name is filled
/// in exactly where one is needed.
pub open spec fn net_planned(o: NetConfig, n: NetConfig, id: Seq<char>, i: int) -> bool {
    if needs_tap(o) {
        tap_filled(o, n, tap_name_spec(id, i as nat))
    } else {
        n == o
    }
}

/// The tap names planning allocates, in interface order.
pub open spec fn planned_tap_names(nets: Seq<NetConfig>, id: Seq<char>) -> Seq<Seq<char>>
    decreases nets.len(),
{
    if nets.len() == 0 {
        Seq::empty()
    } else {
        planned_tap_names(nets.drop_last(), id) + (if needs_tap(nets.last()) {
            seq![tap_name_spec(id, (nets.len() - 1) as nat)]
        } else {
            Seq::empty()
        })
    }
}

/// Fills the deterministic tap name into every interface that needs one and
/// returns the allocated names, in order. The caller creates the devices and
/// rolls back the already-created prefix if one fails.
pub fn plan_networks(vm_id: &str, networks: Vec<NetConfig>) -> (r: (Vec<NetConfig>, Vec<String>))
    ensures
        r.0@.len() == networks@.len(),
        forall|i: int|
            0 <= i < networks@.len() ==> net_planned(networks@[i], #[trigger] r.0@[i], vm_id@, i),
        r.1.deep_view() == planned_tap_names(networks@, vm_id@),
        forall|k: int| 0 <= k < r.1@.len() ==> has_tap_prefix(#[trigger] r.1@[k]@),
{
    let ghost orig = networks@;
    let mut nets = networks;
    let mut taps: Vec<String> = Vec::new();
    let mut i: usize = 0;
    while i < nets.len()
        invariant
            0 <= i <= orig.len(),
            nets@.len() == orig.len(),
            forall|j: int| 0 <= j < i ==> net_planned(orig[j], #[trigger] nets@[j], vm_id@, j),
            forall|j: int| i <= j < orig.len() ==> nets@[j] == orig[j],
            taps.deep_view() == planned_tap_names(orig.take(i as int), vm_id@),
            forall|k: int| 0 <= k < taps@.len() ==> has_tap_prefix(#[trigger] taps@[k]@),
        decreases orig.len() - i,
    {
        proof {
            let pre = orig.take(i as int);
            let ext = orig.take(i + 1 as int);
            assert(ext.drop_last() =~= pre);
            assert(ext.last() == orig[i as int]);
        }
        let vhost = match nets[i].vhost_user {
            Some(b) => b,
            None => false,
        };
        let tapless = nets[i].tap.is_none();
        if !vhost && tapless {
            let name = tap_name_for_net(vm_id, i);
            let mut n = clone_net(&nets[i]);
            n.tap = Some(name.clone());
            nets.set(i, n);
            taps.push(name);
            proof {
                assert(taps.deep_view() =~= planned_tap_names(orig.take(i + 1 as int), vm_id@));
            }
        } else {
            proof {
                assert(taps.deep_view() =~= planned_tap_names(orig.take(i + 1 as int), vm_id@));
            }
        }
        i += 1;
    }
    proof {
        assert(orig.take(orig.len() as int) =~= orig);
    }
    (nets, taps)
}

/// One shared-fs daemon the agent must start before the hypervisor sees the
/// configuration.
pub struct FsDaemonRequest {
    /// Position of the filesystem entry in the configuration.
    pub index: usize,
    /// The per-device name the daemon runs under.
    pub daemon_id: String,
    /// The host directory to export: the entry's bootstrap hint.
    pub rootfs: String,
}

/// The positions of the filesystem entries that carry a bootstrap hint.
pub open spec fn bootstrap_indices(fs: Seq<FsConfig>) -> Seq<int>
    decreases fs.len(),
{
    if fs.len() == 0 {
        Seq::empty()
    } else {
        bootstrap_indices(fs.drop_last()) + (if fs.last().bootstrap_path is Some {
            seq![fs.len() - 1]
        } else {
            Seq::empty()
        })
    }
}

/// Names the shared-fs daemon to start for every filesystem entry that
/// carries a bootstrap hint, in order.
pub fn fs_daemon_requests(vm_id: &str, fs: &Vec<FsConfig>) -> (r: Vec<FsDaemonRequest>)
    ensures
        r@.len() == bootstrap_indices(fs@).len(),
        forall|k: int|
            0 <= k < r@.len() ==> {
                let i = bootstrap_indices(fs@)[k];
                &&& (#[trigger] r@[k]).index as int == i
                &&& r@[k].daemon_id@ == fs_daemon_id_spec(vm_id@, i as nat)
                &&& fs@[i].bootstrap_path matches Some(p) && r@[k].rootfs == p
            },
{
    let mut out: Vec<FsDaemonRequest> = Vec::new();
    let mut i: usize = 0;
    while i < fs.len()
        invariant
            0 <= i <= fs@.len(),
            out@.len() == bootstrap_indices(fs@.take(i as int)).len(),
            forall|k: int|
                0 <= k < out@.len() ==> {
                    let x = bootstrap_indices(fs@.take(i as int))[k];
                    &&& (#[trigger] out@[k]).index as int == x
                    &&& 0 <= x < i
                    &&& out@[k].daemon_id@ == fs_daemon_id_spec(vm_id@, x as nat)
                    &&& fs@[x].bootstrap_path matches Some(p) && out@[k].rootfs == p
                },
        decreases fs@.len() - i,
    {
        proof {
            let pre = fs@.take(i as int);
            let ext = fs@.take(i + 1 as int);
            assert(ext.drop_last() =~= pre);
            assert(ext.last() == fs@[i as int]);
            assert forall|k: int| 0 <= k < pre.len() implies #[trigger] pre[k] == fs@[k] by {}
        }
        match &fs[i].bootstrap_path {
            Some(p) => {
                out.push(
                    FsDaemonRequest { index: i, daemon_id: fs_daemon_id(vm_id, i), rootfs: p.clone() },
                );
            },
            None => {
            },
        }
        i += 1;
    }
    proof {
        assert(fs@.take(fs@.len() as int) =~= fs@);
    }
    out
}

/// Writes a daemon's socket path into one filesystem entry, leaving every
/// other field and entry as it was.
pub fn set_fs_socket(fs: Vec<FsConfig>, index: usize, socket: String) -> (r: Vec<FsConfig>)
    requires
        index < fs@.len(),
    ensures
        r@.len() == fs@.len(),
        r@[index as int] == (FsConfig { socket, ..fs@[index as int] }),
        forall|j: int| 0 <= j < fs@.len() && j != index ==> r@[j] == fs@[j],
{
    let mut out = fs;
    let mut e = clone_fs(&out[index]);
    e.socket = socket;
    out.set(index, e);
    out
}

/// What the caller must clean up after a VM is unregistered. Daemon names
/// cover indices up to the device cap; asking the image store to stop a
/// daemon that never ran is a no-op.
pub struct CleanupPlan {
    pub had_process: bool,
    pub socket_path: String,
    pub config_path: String,
    pub taps: Vec<String>,
    pub fs_daemon_ids: Vec<String>,
}

/// How a create call leaves the registry: an unparseable id is rejected and
/// nothing changes, a present id is rejected and nothing changes, and
/// otherwise the VM is registered with status created, its socket path under
/// the runtime directory, and exactly the handed-in tap devices.
pub open spec fn create_post(
    pre: VmManager,
    post: VmManager,
    config: VmConfig,
    taps: Vec<String>,
    r: Result<VmState, VmManagerError>,
) -> bool {
    &&& post.dir() == pre.dir()
    &&& post.binary() == pre.binary()
    &&& post.image_store_enabled() == pre.image_store_enabled()
    &&& if !uuid_parse_ok(config.vm_id@) {
        &&& r matches Err(e) && e is InvalidConfig
        &&& post == pre
    } else if pre.has_vm(config.vm_id@) {
        &&& r matches Err(e) && e matches VmManagerError::VmAlreadyExists(s) && s@ == config.vm_id@
        &&& post == pre
    } else {
        &&& r matches Ok(st) && state_matches(post.inst(config.vm_id@), st)
        &&& post.has_vm(config.vm_id@)
        &&& post.vm_count() == pre.vm_count() + 1
        &&& post.inst(config.vm_id@).proto_config == config
        &&& post.inst(config.vm_id@).has_process == true
        &&& post.inst(config.vm_id@).status == VmStatus::Created
        &&& post.inst(config.vm_id@).socket_path@ == sock_path_spec(pre.dir(), config.vm_id@)
        &&& post.inst(config.vm_id@).tap_devices == taps
        &&& forall|x: Seq<char>| x != config.vm_id@ ==> post.has_vm(x) == pre.has_vm(x)
        &&& forall|x: Seq<char>|
            x != config.vm_id@ && pre.has_vm(x) ==> post.inst(x) == pre.inst(x)
    }
}

/// How a status mutation leaves the registry: exactly the addressed VM's
/// status changes when it is registered; an absent id is reported not found
/// and nothing changes.
pub open spec fn set_status_post(
    pre: VmManager,
    post: VmManager,
    id: Seq<char>,
    status: VmStatus,
    r: Result<(), VmManagerError>,
) -> bool {
    &&& post.dir() == pre.dir()
    &&& post.binary() == pre.binary()
    &&& post.image_store_enabled() == pre.image_store_enabled()
    &&& if pre.has_vm(id) {
        &&& r is Ok
        &&& post.has_vm(id)
        &&& post.vm_count() == pre.vm_count()
        &&& post.inst(id) == (VmInstance { status, ..pre.inst(id) })
        &&& forall|x: Seq<char>| x != id ==> post.has_vm(x) == pre.has_vm(x)
        &&& forall|x: Seq<char>| x != id && pre.has_vm(x) ==> post.inst(x) == pre.inst(x)
    } else {
        &&& r matches Err(e) && e matches VmManagerError::VmNotFound(s) && s@ == id
        &&& post == pre
    }
}

/// How a delete leaves the registry: the addressed VM is gone and the plan
/// names its socket, its persisted config, its tap devices and its possible
/// shared-fs daemons; an absent id is reported not found and nothing changes.
pub open spec fn delete_post(
    pre: VmManager,
    post: VmManager,
    id: Seq<char>,
    r: Result<CleanupPlan, VmManagerError>,
) -> bool {
    &&& post.dir() == pre.dir()
    &&& post.binary() == pre.binary()
    &&& post.image_store_enabled() == pre.image_store_enabled()
    &&& if pre.has_vm(id) {
        &&& r matches Ok(plan)
        &&& !post.has_vm(id)
        &&& post.vm_count() + 1 == pre.vm_count()
        &&& plan.had_process == pre.inst(id).has_process
        &&& plan.socket_path == pre.inst(id).socket_path
        &&& plan.config_path@ == config_path_spec(pre.dir(), id)
        &&& plan.taps == pre.inst(id).tap_devices
        &&& plan.fs_daemon_ids@.len() == 8
        &&& forall|k: int|
            0 <= k < 8 ==> #[trigger] plan.fs_daemon_ids@[k]@ == fs_daemon_id_spec(id, k as nat)
        &&& forall|x: Seq<char>| x != id ==> post.has_vm(x) == pre.has_vm(x)
        &&& forall|x: Seq<char>| x != id && pre.has_vm(x) ==> post.inst(x) == pre.inst(x)
    } else {
        &&& r matches Err(e) && e matches VmManagerError::VmNotFound(s) && s@ == id
        &&& post == pre
    }
}

/// The path half of the on-disk pairing invariant: every registered VM's
/// control socket is the canonical sibling `{dir}/{id}.sock`, so the files a
/// VM owns on disk are recomputable from its identifier alone. That the
/// files exist is the caller's I/O obligation; the registry pins their names.
pub open spec fn sockets_canonical(m: VmManager) -> bool {
    forall|id: Seq<char>|
        #[trigger] m.has_vm(id) ==> m.inst(id).socket_path@ == sock_path_spec(m.dir(), id)
}

/// Registering a VM keeps every control-socket path canonical.
pub proof fn lemma_create_keeps_canonical(
    pre: VmManager,
    post: VmManager,
    config: VmConfig,
    taps: Vec<String>,
    r: Result<VmState, VmManagerError>,
)
    requires
        sockets_canonical(pre),
        create_post(pre, post, config, taps, r),
    ensures
        sockets_canonical(post),
{
}

/// A status change keeps every control-socket path canonical.
pub proof fn lemma_set_status_keeps_canonical(
    pre: VmManager,
    post: VmManager,
    id: Seq<char>,
    status: VmStatus,
    r: Result<(), VmManagerError>,
)
    requires
        sockets_canonical(pre),
        set_status_post(pre, post, id, status, r),
    ensures
        sockets_canonical(post),
{
}

/// A delete keeps every remaining control-socket path canonical.
pub proof fn lemma_delete_keeps_canonical(
    pre: VmManager,
    post: VmManager,
    id: Seq<char>,
    r: Result<CleanupPlan, VmManagerError>,
)
    requires
        sockets_canonical(pre),
        delete_post(pre, post, id, r),
    ensures
        sockets_canonical(post),
{
}

/// Recovery adopts VMs at their canonical socket paths and keeps the rest.
pub proof fn lemma_recover_keeps_canonical(pre: VmManager, post: VmManager, d: Discovery, r: bool)
    requires
        sockets_canonical(pre),
        recover_post(pre, post, d, r),
    ensures
        sockets_canonical(post),
{
}

/// Every tap name recovery re-derives bears the manager's prefix.
pub proof fn lemma_managed_taps_prefixed(nets: Seq<NetConfig>)
    ensures
        forall|k: int|
            0 <= k < managed_tap_names(nets).len() ==> has_tap_prefix(
                #[trigger] managed_tap_names(nets)[k]@,
            ),
    decreases nets.len(),
{
    if nets.len() > 0 {
        lemma_managed_taps_prefixed(nets.drop_last());
        let pre = managed_tap_names(nets.drop_last());
        assert forall|k: int| 0 <= k < managed_tap_names(nets).len() implies has_tap_prefix(
            #[trigger] managed_tap_names(nets)[k]@,
        ) by {
            if k < pre.len() {
                assert(managed_tap_names(nets)[k] == pre[k]);
            }
        }
    }
}

/// The tap half of the host-device invariant: every tap device a registered
/// VM tracks bears the manager's prefix, so delete tears down exactly
/// manager-named devices. The device's presence on the host is the caller's
/// obligation from tap creation to teardown.
pub open spec fn taps_managed(m: VmManager) -> bool {
    forall|id: Seq<char>|
        #[trigger] m.has_vm(id) ==> forall|k: int|
            0 <= k < m.inst(id).tap_devices@.len() ==> has_tap_prefix(
                #[trigger] m.inst(id).tap_devices@[k]@,
            )
}

/// Registering a VM with planned tap devices keeps every tracked tap
/// manager-named.
pub proof fn lemma_create_keeps_taps_managed(
    pre: VmManager,
    post: VmManager,
    config: VmConfig,
    taps: Vec<String>,
    r: Result<VmState, VmManagerError>,
)
    requires
        taps_managed(pre),
        forall|k: int| 0 <= k < taps@.len() ==> has_tap_prefix(#[trigger] taps@[k]@),
        create_post(pre, post, config, taps, r),
    ensures
        taps_managed(post),
{
}

/// A status change keeps every tracked tap manager-named.
pub proof fn lemma_set_status_keeps_taps_managed(
    pre: VmManager,
    post: VmManager,
    id: Seq<char>,
    status: VmStatus,
    r: Result<(), VmManagerError>,
)
    requires
        taps_managed(pre),
        set_status_post(pre, post, id, status, r),
    ensures
        taps_managed(post),
{
}

/// Recovery keeps every tracked tap manager-named: what it adopts is the
/// prefix-filtered list from the persisted config.
pub proof fn lemma_recover_keeps_taps_managed(
    pre: VmManager,
    post: VmManager,
    d: Discovery,
    r: bool,
)
    requires
        taps_managed(pre),
        recover_post(pre, post, d, r),
    ensures
        taps_managed(post),
{
    if r {
        lemma_managed_taps_prefixed(d.config->0.networks@);
    }
}

/// `stored` is `orig` as the agent rewrites it during create: equal
/// throughout, except that interfaces may have gained tap names and
/// shared-fs entries with a bootstrap hint may have had their socket paths
/// overwritten.
pub open spec fn config_equiv_mod_agent(orig: VmConfig, stored: VmConfig) -> bool {
    &&& stored.vm_id == orig.vm_id
    &&& stored.cpus == orig.cpus
    &&& stored.memory == orig.memory
    &&& stored.payload == orig.payload
    &&& stored.disks@ == orig.disks@
    &&& stored.rng == orig.rng
    &&& stored.serial == orig.serial
    &&& stored.console == orig.console
    &&& stored.networks@.len() == orig.networks@.len()
    &&& forall|i: int|
        0 <= i < orig.networks@.len() ==> (#[trigger] stored.networks@[i] == orig.networks@[i]
            || (exists|name: Seq<char>|
            tap_filled(orig.networks@[i], stored.networks@[i], name)))
    &&& stored.fs@.len() == orig.fs@.len()
    &&& forall|i: int|
        0 <= i < orig.fs@.len() ==> fs_equiv_mod_socket(orig.fs@[i], #[trigger] stored.fs@[i])
}

/// Two shared-fs entries that differ at most in the socket path, and only
/// where the entry carried a bootstrap hint for the agent to act on.
pub open spec fn fs_equiv_mod_socket(o: FsConfig, n: FsConfig) -> bool {
    &&& n.tag == o.tag
    &&& n.num_queues == o.num_queues
    &&& n.queue_size == o.queue_size
    &&& n.pci_segment == o.pci_segment
    &&& n.id == o.id
    &&& n.bootstrap_path == o.bootstrap_path
    &&& (o.bootstrap_path is Some || n.socket == o.socket)
}

/// Create preserves the caller's configuration: what the registry stores —
/// and what a later get-info call therefore reports — is the submitted
/// configuration, equal up to the tap names the agent fills in and the
/// shared-fs socket paths it overwrites.
pub proof fn lemma_create_config_round_trip(
    orig: VmConfig,
    planned: Seq<NetConfig>,
    stored: VmConfig,
    id: Seq<char>,
)
    requires
        planned.len() == orig.networks@.len(),
        forall|i: int|
            0 <= i < orig.networks@.len() ==> net_planned(
                orig.networks@[i],
                #[trigger] planned[i],
                id,
                i,
            ),
        stored.vm_id == orig.vm_id,
        stored.cpus == orig.cpus,
        stored.memory == orig.memory,
        stored.payload == orig.payload,
        stored.disks@ == orig.disks@,
        stored.rng == orig.rng,
        stored.serial == orig.serial,
        stored.console == orig.console,
        stored.networks@ == planned,
        stored.fs@.len() == orig.fs@.len(),
        forall|i: int|
            0 <= i < orig.fs@.len() ==> fs_equiv_mod_socket(orig.fs@[i], #[trigger] stored.fs@[i]),
    ensures
        config_equiv_mod_agent(orig, stored),
{
    assert forall|i: int| 0 <= i < orig.networks@.len() implies (#[trigger] stored.networks@[i]
        == orig.networks@[i] || (exists|name: Seq<char>|
        tap_filled(orig.networks@[i], stored.networks@[i], name))) by {
        if needs_tap(orig.networks@[i]) {
            assert(tap_filled(orig.networks@[i], stored.networks@[i], tap_name_spec(id, i as nat)));
        }
    }
}

/// A VM that moves through its lifecycle reports each status to a get-info
/// caller: after a status change, every state projection of the instance
/// carries that status's code.
pub proof fn lemma_transition_reported(
    pre: VmManager,
    post: VmManager,
    id: Seq<char>,
    status: VmStatus,
    st: VmState,
)
    requires
        pre.has_vm(id),
        set_status_post(pre, post, id, status, Ok(())),
        state_matches(post.inst(id), st),
    ensures
        st.status == code_of_status(status),
{
}

/// Delete after delete reports the VM as not found: a successful delete
/// removes the id, and the next delete of the same id fails with exactly
/// that error and changes nothing.
pub proof fn lemma_delete_after_delete(
    m0: VmManager,
    m1: VmManager,
    m2: VmManager,
    id: Seq<char>,
    plan: CleanupPlan,
    r2: Result<CleanupPlan, VmManagerError>,
)
    requires
        delete_post(m0, m1, id, Ok(plan)),
        delete_post(m1, m2, id, r2),
    ensures
        r2 matches Err(e) && e matches VmManagerError::VmNotFound(s) && s@ == id,
        m2 == m1,
{
    if m0.has_vm(id) {
    } else {
        assert(Ok::<CleanupPlan, VmManagerError>(plan) matches Err(e));
    }
}

/// Pause after pause is idempotent: the second pause of a registered VM is
/// permitted and leaves the instance exactly as the first left it.
pub proof fn lemma_pause_after_pause(
    m0: VmManager,
    m1: VmManager,
    m2: VmManager,
    id: Seq<char>,
    r1: Result<(), VmManagerError>,
    r2: Result<(), VmManagerError>,
)
    requires
        m0.has_vm(id),
        set_status_post(m0, m1, id, VmStatus::Paused, r1),
        set_status_post(m1, m2, id, VmStatus::Paused, r2),
    ensures
        r1 is Ok,
        r2 is Ok,
        m2.inst(id) == m1.inst(id),
        m1.inst(id).status == VmStatus::Paused,
        forall|x: Seq<char>| m2.has_vm(x) == m1.has_vm(x),
{
}

/// How a live report is folded in: the cached status becomes the decoded
/// one, the projection carries the reported memory figure, and nothing else
/// moves; an absent id is reported not found and nothing changes.
pub open spec fn absorb_post(
    pre: VmManager,
    post: VmManager,
    id: Seq<char>,
    status_code: i32,
    memory: Option<i64>,
    r: Result<VmState, VmManagerError>,
) -> bool {
    &&& post.dir() == pre.dir()
    &&& post.binary() == pre.binary()
    &&& post.image_store_enabled() == pre.image_store_enabled()
    &&& if pre.has_vm(id) {
        &&& r matches Ok(st)
        &&& post.has_vm(id)
        &&& post.vm_count() == pre.vm_count()
        &&& post.inst(id) == (VmInstance { status: status_of_code(status_code), ..pre.inst(id) })
        &&& st.config matches Some(c) && vm_config_eq(c, pre.inst(id).proto_config)
        &&& st.status == code_of_status(status_of_code(status_code))
        &&& st.memory_actual_size == memory
        &&& forall|x: Seq<char>| x != id ==> post.has_vm(x) == pre.has_vm(x)
        &&& forall|x: Seq<char>| x != id && pre.has_vm(x) ==> post.inst(x) == pre.inst(x)
    } else {
        &&& r matches Err(e) && e matches VmManagerError::VmNotFound(s) && s@ == id
        &&& post == pre
    }
}

} // verus!
