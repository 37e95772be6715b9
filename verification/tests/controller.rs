use qarax::api::{node_create_error, Error};
use qarax::client::{
    build_create_config, net_configs_from_api, rate_limiter_to_proto, token_bucket_to_proto,
    CreateVmRequest, NodeClient,
};
use qarax::hosts::{Host, HostStatus};
use qarax::init::{build_argv, reap_step, split_env, ReapAction, WaitEvent};
use qarax::jobs::JobStatus;
use qarax::model::{boot_source_or_defaults, Hypervisor, NewVm, NewVmNetwork, ResolvedBootSource, VhostMode, Vm};
use qarax::monitor::{active_for_reconcile, hosts_to_poll, reconcile_decision, vms_for_host, NodeReport};
use qarax::orchestrator::{
    async_create_fs_record, async_create_job, async_pull_failed, finish_async_create, host_for_vm,
    metrics_status, oci_boot_cmdline, rootfs_fs_config,
};
use qarax::poll::poll_outcome;
use qarax::status::{proto_status_to_db, start_decision, status_to_proto, StartDecision, VmStatus};
use qarax::store::host_binding_check;
use qarax::storage::{infer_transfer_type, FilesystemTransferExecutor, StoragePoolType, TransferType};
use qarax::wire::{Method, RateLimiterConfig, TokenBucket, VHOST_MODE_CLIENT, VHOST_MODE_SERVER};

const VM_A: &str = "24b6061e-9f32-4ef2-9d3e-1a6a23c361a1";

fn vm_row(id: &str, status: VmStatus, host: Option<&str>) -> Vm {
    Vm {
        id: id.to_string(),
        name: "v".to_string(),
        host_id: host.map(|h| h.to_string()),
        status,
        hypervisor: Hypervisor::CloudHv,
        boot_source_id: None,
        description: None,
        boot_vcpus: 1,
        max_vcpus: 1,
        cpu_topology: None,
        kvm_hyperv: false,
        memory_size: 536870912,
        memory_hotplug_size: None,
        memory_mergeable: false,
        memory_shared: false,
        memory_hugepages: false,
        memory_hugepage_size: None,
        memory_prefault: false,
        memory_thp: false,
    }
}

fn host(id: &str) -> Host {
    Host {
        id: id.to_string(),
        name: id.to_string(),
        address: "10.0.0.9".to_string(),
        port: 50051,
        status: HostStatus::Up,
        host_user: "root".to_string(),
        password: vec![],
        cloud_hypervisor_version: None,
        kernel_version: None,
    }
}

#[test]
fn socket_polling_fails_only_after_fifty_failures() {
    let all_fail = vec![false; 50];
    assert_eq!(poll_outcome(&all_fail), None);

    let mut late = vec![false; 50];
    late[49] = true;
    assert_eq!(poll_outcome(&late), Some(49));

    let mut partial = vec![false; 50];
    partial[2] = true;
    partial[10] = true;
    assert_eq!(poll_outcome(&partial), Some(2));

    let mut instant = vec![false; 50];
    instant[0] = true;
    assert_eq!(poll_outcome(&instant), Some(0));
}

#[test]
fn reconciler_converges_on_the_live_status() {
    // A VM forced to paused behind the controller's back converges.
    assert_eq!(
        reconcile_decision(VmStatus::Running, &NodeReport::Status(3)),
        Some(VmStatus::Paused)
    );
    // Agreement changes nothing.
    assert_eq!(reconcile_decision(VmStatus::Running, &NodeReport::Status(2)), None);
}

#[test]
fn reconciler_marks_deleted_vms_unknown_without_reinserting() {
    assert_eq!(
        reconcile_decision(VmStatus::Running, &NodeReport::NotFound),
        Some(VmStatus::Unknown)
    );
    // A transient network failure must not flap status.
    assert_eq!(reconcile_decision(VmStatus::Running, &NodeReport::Unreachable), None);
}

#[test]
fn reconciler_working_set_and_grouping() {
    assert!(active_for_reconcile(VmStatus::Running));
    assert!(active_for_reconcile(VmStatus::Created));
    assert!(!active_for_reconcile(VmStatus::Shutdown));
    assert!(!active_for_reconcile(VmStatus::Unknown));

    let vms = vec![
        vm_row("v1", VmStatus::Running, Some("h1")),
        vm_row("v2", VmStatus::Created, Some("h2")),
        vm_row("v3", VmStatus::Paused, Some("h1")),
        vm_row("v4", VmStatus::Shutdown, Some("h3")),
        vm_row("v5", VmStatus::Running, None),
    ];
    let mut hosts = hosts_to_poll(&vms);
    hosts.sort();
    assert_eq!(hosts, vec!["h1".to_string(), "h2".to_string()]);
    assert_eq!(vms_for_host(&vms, "h1"), vec![0, 2]);
    assert_eq!(vms_for_host(&vms, "h3"), Vec::<usize>::new());
}

#[test]
fn start_is_routed_by_persisted_status() {
    assert_eq!(start_decision(VmStatus::Running), StartDecision::AlreadyRunning);
    assert_eq!(start_decision(VmStatus::Paused), StartDecision::RejectPaused);
    assert_eq!(start_decision(VmStatus::Pending), StartDecision::RejectPending);
    assert_eq!(start_decision(VmStatus::Created), StartDecision::Proceed);
    assert_eq!(start_decision(VmStatus::Shutdown), StartDecision::Proceed);
    assert_eq!(start_decision(VmStatus::Unknown), StartDecision::Proceed);
}

#[test]
fn operations_route_to_the_assigned_host() {
    let hosts = vec![host("h1"), host("h2")];
    let assigned = vm_row(VM_A, VmStatus::Created, Some("h2"));
    assert_eq!(host_for_vm(&assigned, &hosts).unwrap(), 1);

    let unassigned = vm_row(VM_A, VmStatus::Created, None);
    match host_for_vm(&unassigned, &hosts) {
        Err(Error::UnprocessableEntity(m)) => assert_eq!(m, "VM has no assigned host"),
        _ => panic!("an unassigned VM must be rejected"),
    }

    let dangling = vm_row(VM_A, VmStatus::Created, Some("gone"));
    match host_for_vm(&dangling, &hosts) {
        Err(Error::UnprocessableEntity(m)) => assert_eq!(m, "assigned host not found"),
        _ => panic!("a dangling assignment must be rejected"),
    }
}

#[test]
fn async_create_job_flow() {
    let job = async_create_job(VM_A, "docker.io/library/busybox:latest", "job-1".to_string());
    assert_eq!(job.status, JobStatus::Pending);
    assert_eq!(
        job.description.as_deref(),
        Some("Pulling image docker.io/library/busybox:latest")
    );
    assert_eq!(job.resource_id.as_deref(), Some(VM_A));
    assert_eq!(job.resource_type.as_deref(), Some("vm"));

    let job = job.mark_running();
    assert_eq!(job.status, JobStatus::Running);
    let job = job.update_progress(50);
    assert_eq!(job.progress, Some(50));

    let fs = rootfs_fs_config(VM_A, "/var/lib/qarax/images/busybox/rootfs");
    assert_eq!(fs.tag, "rootfs");
    assert_eq!(fs.socket, format!("/var/lib/qarax/vms/{}-fs0.sock", VM_A));
    assert_eq!(fs.num_queues, 1);
    assert_eq!(fs.queue_size, 1024);
    assert_eq!(fs.id.as_deref(), Some("fs0"));
    assert_eq!(
        fs.bootstrap_path.as_deref(),
        Some("/var/lib/qarax/images/busybox/rootfs")
    );
    assert_eq!(
        oci_boot_cmdline(),
        "console=ttyS0 root=rootfs rootfstype=virtiofs rw init=/.qarax-init"
    );

    let record = async_create_fs_record(VM_A, "docker.io/library/busybox:latest", "sha256:aa");
    assert_eq!(record.image_digest.as_deref(), Some("sha256:aa"));
    assert_eq!(record.num_queues, Some(1));
    assert_eq!(record.queue_size, Some(1024));

    let (job, status) = finish_async_create(job, "sha256:aa");
    assert_eq!(job.status, JobStatus::Completed);
    assert_eq!(job.progress, Some(100));
    assert_eq!(job.result.unwrap().digest, "sha256:aa");
    assert_eq!(status, VmStatus::Created);
}

#[test]
fn async_pull_failure_marks_job_and_vm() {
    let job = async_create_job(VM_A, "ref", "job-2".to_string());
    let (job, status) = async_pull_failed(job, "registry timeout");
    assert_eq!(job.status, JobStatus::Failed);
    assert_eq!(
        job.error.as_deref(),
        Some("Failed to pull OCI image: registry timeout")
    );
    assert_eq!(status, VmStatus::Unknown);
}

#[test]
fn node_failures_surface_as_unprocessable() {
    match node_create_error("boot source missing") {
        Error::UnprocessableEntity(m) => assert_eq!(m, "qarax-node: boot source missing"),
        _ => panic!("node failures surface as 422"),
    }
    assert_eq!(Error::NotFound.status_code(), 404);
    assert_eq!(Error::Conflict(String::new()).status_code(), 409);
    assert_eq!(Error::UnprocessableEntity(String::new()).status_code(), 422);
    assert_eq!(Error::InternalServerError.status_code(), 500);
}

#[test]
fn create_config_carries_the_request() {
    let req = CreateVmRequest {
        vm_id: VM_A.to_string(),
        boot_vcpus: 1,
        max_vcpus: 2,
        memory_size: 536870912,
        networks: vec![],
        kernel: "/opt/vmlinux".to_string(),
        initramfs: Some(String::new()),
        cmdline: "console=ttyS0".to_string(),
        fs_configs: vec![],
        memory_shared: true,
    };
    let cfg = build_create_config(req, Some("/opt/rootfs.img".to_string()));
    assert_eq!(cfg.vm_id, VM_A);
    let cpus = cfg.cpus.unwrap();
    assert_eq!((cpus.boot_vcpus, cpus.max_vcpus), (1, 2));
    let memory = cfg.memory.unwrap();
    assert_eq!(memory.size, 536870912);
    assert_eq!(memory.shared, Some(true));
    let payload = cfg.payload.unwrap();
    assert_eq!(payload.kernel.as_deref(), Some("/opt/vmlinux"));
    // The empty initramfs is dropped, not forwarded.
    assert_eq!(payload.initramfs, None);
    assert_eq!(cfg.disks.len(), 1);
    assert_eq!(cfg.disks[0].id, "rootfs");
    assert_eq!(cfg.disks[0].path.as_deref(), Some("/opt/rootfs.img"));
    let serial = cfg.serial.unwrap();
    assert_eq!(serial.mode, 3);
    assert_eq!(
        serial.file.as_deref(),
        Some(format!("/var/lib/qarax/vms/{}.console.log", VM_A).as_str())
    );
    assert!(cfg.console.is_none());
}

#[test]
fn api_networks_translate_onto_the_wire() {
    let nets = vec![NewVmNetwork {
        id: "net0".to_string(),
        mac: Some("aa:bb:cc:dd:ee:ff".to_string()),
        tap: None,
        ip: Some("192.168.122.100".to_string()),
        mask: Some("255.255.255.0".to_string()),
        host_mac: None,
        mtu: Some(1500),
        vhost_user: Some(true),
        vhost_socket: Some("/run/vhost.sock".to_string()),
        vhost_mode: Some(VhostMode::Server),
        num_queues: Some(2),
        queue_size: Some(256),
        rate_limiter: Some(RateLimiterConfig {
            bandwidth: Some(TokenBucket { size: 1000, refill_time: 10, one_time_burst: None }),
            ops: None,
        }),
        offload_tso: Some(true),
        offload_ufo: None,
        offload_csum: Some(false),
        pci_segment: None,
        iommu: Some(false),
    }];
    let wire = net_configs_from_api(&nets);
    assert_eq!(wire.len(), 1);
    assert_eq!(wire[0].id, "net0");
    assert_eq!(wire[0].ip.as_deref(), Some("192.168.122.100"));
    assert_eq!(wire[0].vhost_mode, Some(VHOST_MODE_SERVER));
    assert_eq!(wire[0].rate_limiter.as_ref().unwrap().bandwidth.as_ref().unwrap().size, 1000);

    let mut client_side = nets;
    client_side[0].vhost_mode = Some(VhostMode::Client);
    let wire = net_configs_from_api(&client_side);
    assert_eq!(wire[0].vhost_mode, Some(VHOST_MODE_CLIENT));

    let bucket = TokenBucket { size: 5, refill_time: 7, one_time_burst: Some(9) };
    assert_eq!(token_bucket_to_proto(&bucket), bucket);
    let limiter = RateLimiterConfig { bandwidth: Some(bucket), ops: None };
    assert_eq!(rate_limiter_to_proto(&limiter), limiter);
}

#[test]
fn node_addresses_are_assembled() {
    assert_eq!(NodeClient::new("10.0.0.9", 50051).address(), "http://10.0.0.9:50051");
    assert_eq!(NodeClient::from_address("node:50051").address(), "http://node:50051");
    assert_eq!(Method::PUT.as_str(), "PUT");
    assert_eq!(Method::GET.as_str(), "GET");
}

#[test]
fn metrics_fall_back_to_the_persisted_status() {
    assert_eq!(metrics_status(VmStatus::Created, Some(2)), VmStatus::Running);
    assert_eq!(metrics_status(VmStatus::Created, None), VmStatus::Created);
}

#[test]
fn status_codes_round_trip() {
    for s in [
        VmStatus::Unknown,
        VmStatus::Created,
        VmStatus::Running,
        VmStatus::Paused,
        VmStatus::Shutdown,
    ] {
        assert_eq!(proto_status_to_db(status_to_proto(s)), s);
    }
    // The pending marker never travels: it reads back as unknown.
    assert_eq!(proto_status_to_db(status_to_proto(VmStatus::Pending)), VmStatus::Unknown);
    assert_eq!(proto_status_to_db(99), VmStatus::Unknown);
}

#[test]
fn transfer_types_and_destinations() {
    assert_eq!(infer_transfer_type("https://example.com/disk.img"), TransferType::Download);
    assert_eq!(infer_transfer_type("http://example.com/x"), TransferType::Download);
    assert_eq!(infer_transfer_type("/srv/images/disk.img"), TransferType::LocalCopy);
    let exec = FilesystemTransferExecutor;
    assert_eq!(exec.destination("/srv/pool", "disk.img"), "/srv/pool/disk.img");
    assert!(exec.serves(StoragePoolType::Local));
    assert!(exec.serves(StoragePoolType::Nfs));
    assert!(!exec.serves(StoragePoolType::Ceph));
}

#[test]
fn live_vms_always_point_at_a_registered_host() {
    let hosts = vec![host("h1")];
    let ok = vec![
        vm_row("v1", VmStatus::Running, Some("h1")),
        vm_row("v2", VmStatus::Created, None),
        vm_row("v3", VmStatus::Shutdown, Some("gone")),
    ];
    assert!(host_binding_check(&ok, &hosts));

    let unassigned = vec![vm_row("v1", VmStatus::Paused, None)];
    assert!(!host_binding_check(&unassigned, &hosts));

    let dangling = vec![vm_row("v1", VmStatus::Running, Some("gone"))];
    assert!(!host_binding_check(&dangling, &hosts));
}

#[test]
fn create_rows_resolve_defaults_and_start_unassigned() {
    let req = NewVm {
        name: "v".to_string(),
        hypervisor: Hypervisor::CloudHv,
        boot_vcpus: 1,
        max_vcpus: 1,
        cpu_topology: None,
        kvm_hyperv: None,
        memory_size: 536870912,
        memory_hotplug_size: None,
        memory_mergeable: None,
        memory_shared: Some(true),
        memory_hugepages: None,
        memory_hugepage_size: None,
        memory_prefault: None,
        memory_thp: None,
        boot_source_id: None,
        description: None,
        networks: None,
        image_ref: None,
    };
    let row = req.to_row(VM_A.to_string(), VmStatus::Created);
    assert_eq!(row.id, VM_A);
    assert_eq!(row.status, VmStatus::Created);
    assert!(row.host_id.is_none());
    assert!(!row.kvm_hyperv);
    assert!(row.memory_shared);

    let kernel = "/default/vmlinux".to_string();
    let cmdline = "console=ttyS0 reboot=k panic=1 pci=off".to_string();
    let (k, i, c) = boot_source_or_defaults(None, &kernel, &None, &cmdline);
    assert_eq!(k, "/default/vmlinux");
    assert!(i.is_none());
    assert_eq!(c, "console=ttyS0 reboot=k panic=1 pci=off");

    let resolved = ResolvedBootSource {
        kernel_path: "/objects/vmlinux".to_string(),
        kernel_params: "ip=1.1.1.1".to_string(),
        initramfs_path: Some("/objects/initrd".to_string()),
    };
    let (k, i, c) = boot_source_or_defaults(Some(resolved), &kernel, &None, &cmdline);
    assert_eq!(k, "/objects/vmlinux");
    assert_eq!(i.as_deref(), Some("/objects/initrd"));
    assert_eq!(c, "ip=1.1.1.1");
}

#[test]
fn guest_init_propagates_workload_exit_codes() {
    // A workload exiting 42 makes init exit 42.
    assert_eq!(
        reap_step(WaitEvent::Exited { pid: 7, code: 42 }, 7),
        ReapAction::ExitWith(42)
    );
    // A workload killed by SIGTERM makes init exit 143.
    assert_eq!(
        reap_step(WaitEvent::Signaled { pid: 7, signal: 15 }, 7),
        ReapAction::ExitWith(143)
    );
    // Orphans are reaped without ending the loop.
    assert_eq!(
        reap_step(WaitEvent::Exited { pid: 9, code: 1 }, 7),
        ReapAction::Continue
    );
    assert_eq!(reap_step(WaitEvent::NoChildren, 7), ReapAction::ExitWith(0));
    assert_eq!(reap_step(WaitEvent::WaitError, 7), ReapAction::ExitWith(1));
}

#[test]
fn guest_init_parses_env_and_builds_argv() {
    let (k, v) = split_env("PATH=/usr/bin:/bin").unwrap();
    assert_eq!(k, "PATH");
    assert_eq!(v, "/usr/bin:/bin");
    let (k, v) = split_env("X=a=b").unwrap();
    assert_eq!(k, "X");
    assert_eq!(v, "a=b");
    assert!(split_env("NOEQUALS").is_none());

    let argv = build_argv(vec!["/bin/app".to_string()], vec!["--flag".to_string()]);
    assert_eq!(argv, vec!["/bin/app".to_string(), "--flag".to_string()]);
    let argv = build_argv(vec![], vec![]);
    assert_eq!(argv, vec!["/bin/sh".to_string()]);
}
