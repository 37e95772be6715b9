use qarax::errors::{map_manager_error, RpcCode, VmManagerError};
use qarax::manager::{
    fs_daemon_requests, managed_taps, plan_networks, set_fs_socket, Discovery, VmManager,
};
use qarax::tap::tap_name_for_net;
use qarax::wire::{FsConfig, NetConfig, VmConfig};

const VM_A: &str = "24b6061e-9f32-4ef2-9d3e-1a6a23c361a1";
const VM_B: &str = "f0e9d8c7-b6a5-4433-a211-0f1e2d3c4b5a";

fn net(id: &str) -> NetConfig {
    NetConfig {
        id: id.to_string(),
        tap: None,
        ip: None,
        mask: None,
        mac: None,
        host_mac: None,
        mtu: None,
        iommu: None,
        num_queues: None,
        queue_size: None,
        vhost_user: None,
        vhost_socket: None,
        vhost_mode: None,
        pci_segment: None,
        rate_limiter: None,
        offload_tso: None,
        offload_ufo: None,
        offload_csum: None,
    }
}

fn fs_entry(tag: &str, bootstrap: Option<&str>) -> FsConfig {
    FsConfig {
        tag: tag.to_string(),
        socket: String::new(),
        num_queues: 1,
        queue_size: 1024,
        pci_segment: None,
        id: None,
        bootstrap_path: bootstrap.map(|p| p.to_string()),
    }
}

fn config(id: &str) -> VmConfig {
    VmConfig {
        vm_id: id.to_string(),
        cpus: None,
        memory: None,
        payload: None,
        disks: vec![],
        networks: vec![],
        rng: None,
        serial: None,
        console: None,
        fs: vec![],
    }
}

fn manager() -> VmManager {
    VmManager::new(
        "/var/lib/qarax/vms".to_string(),
        "/usr/local/bin/cloud-hypervisor".to_string(),
        true,
    )
}

#[test]
fn tap_names_are_deterministic_short_and_lowercase() {
    let name = tap_name_for_net(VM_A, 0);
    assert_eq!(name, "qt24b6061en0");
    assert_eq!(name.len(), 12);
    for i in 0..12usize {
        let name = tap_name_for_net(VM_A, i);
        assert!(name.len() <= 15);
        assert!(name.chars().all(|c| c.is_ascii_lowercase() || c.is_ascii_digit()));
        assert!(name.starts_with("qt"));
    }
}

#[test]
fn planning_fills_taps_only_where_needed() {
    let mut pre_set = net("net1");
    pre_set.tap = Some("tap9".to_string());
    let mut vhost = net("net2");
    vhost.vhost_user = Some(true);
    let nets = vec![net("net0"), pre_set, vhost, net("net3")];
    let (planned, taps) = plan_networks(VM_A, nets);
    assert_eq!(planned[0].tap.as_deref(), Some("qt24b6061en0"));
    assert_eq!(planned[1].tap.as_deref(), Some("tap9"));
    assert_eq!(planned[2].tap, None);
    assert_eq!(planned[3].tap.as_deref(), Some("qt24b6061en3"));
    assert_eq!(taps, vec!["qt24b6061en0".to_string(), "qt24b6061en3".to_string()]);
}

#[test]
fn tap_rollback_leaves_no_managed_device() {
    // Two interfaces need taps; the second tap creation fails on the host.
    let nets = vec![net("net0"), net("net1")];
    let (_planned, taps) = plan_networks(VM_B, nets);
    assert_eq!(taps.len(), 2);
    // The caller created taps[0], failed on taps[1]: the rollback set is
    // exactly the created prefix, and nothing was registered.
    let rollback: Vec<&String> = taps.iter().take(1).collect();
    assert_eq!(rollback, vec![&taps[0]]);
    let mut m = manager();
    assert_eq!(m.list_vms().len(), 0);
    // The expected names are recomputable without the manager's state.
    assert_eq!(taps[0], tap_name_for_net(VM_B, 0));
    assert!(m.delete_vm(VM_B).is_err());
}

#[test]
fn create_rejects_bad_ids_without_mutating_state() {
    let mut m = manager();
    let r = m.create_vm(config("not-a-uuid"), vec![]);
    assert!(matches!(r, Err(VmManagerError::InvalidConfig(_))));
    assert_eq!(m.list_vms().len(), 0);
    assert!(m.get_vm_info("not-a-uuid").is_err());
}

#[test]
fn create_rejects_duplicate_ids() {
    let mut m = manager();
    m.create_vm(config(VM_A), vec![]).unwrap();
    let r = m.create_vm(config(VM_A), vec![]);
    assert!(matches!(r, Err(VmManagerError::VmAlreadyExists(_))));
    assert_eq!(m.list_vms().len(), 1);
}

#[test]
fn create_reports_the_submitted_config() {
    let mut cfg = config(VM_A);
    cfg.networks = vec![net("net0")];
    cfg.fs = vec![fs_entry("rootfs", Some("/var/lib/qarax/images/img/rootfs"))];

    let (planned, taps) = plan_networks(VM_A, cfg.networks);
    cfg.networks = planned;
    let requests = fs_daemon_requests(VM_A, &cfg.fs);
    assert_eq!(requests.len(), 1);
    assert_eq!(requests[0].index, 0);
    assert_eq!(requests[0].daemon_id, format!("{}-fs0", VM_A));
    assert_eq!(requests[0].rootfs, "/var/lib/qarax/images/img/rootfs");
    cfg.fs = set_fs_socket(cfg.fs, 0, "/var/lib/qarax/vms/sock".to_string());

    let mut m = manager();
    let st = m.create_vm(cfg, taps).unwrap();
    let reported = st.config.unwrap();
    assert_eq!(reported.vm_id, VM_A);
    // Equal to the submitted config, modulo the tap the agent filled in and
    // the socket it overwrote.
    assert_eq!(reported.networks[0].tap.as_deref(), Some("qt24b6061en0"));
    assert_eq!(reported.networks[0].id, "net0");
    assert_eq!(reported.fs[0].socket, "/var/lib/qarax/vms/sock");
    assert_eq!(reported.fs[0].tag, "rootfs");
    assert_eq!(st.status, 1);
}

#[test]
fn lifecycle_reports_each_intermediate_status() {
    let mut m = manager();
    m.create_vm(config(VM_A), vec![]).unwrap();
    assert_eq!(m.get_vm_info(VM_A).unwrap().status, 1);
    m.start_vm(VM_A).unwrap();
    assert_eq!(m.get_vm_info(VM_A).unwrap().status, 2);
    m.pause_vm(VM_A).unwrap();
    assert_eq!(m.get_vm_info(VM_A).unwrap().status, 3);
    m.resume_vm(VM_A).unwrap();
    assert_eq!(m.get_vm_info(VM_A).unwrap().status, 2);
    m.stop_vm(VM_A).unwrap();
    assert_eq!(m.get_vm_info(VM_A).unwrap().status, 4);
}

#[test]
fn pause_after_pause_is_idempotent() {
    let mut m = manager();
    m.create_vm(config(VM_A), vec![]).unwrap();
    m.pause_vm(VM_A).unwrap();
    let first = m.get_vm_info(VM_A).unwrap().status;
    m.pause_vm(VM_A).unwrap();
    let second = m.get_vm_info(VM_A).unwrap().status;
    assert_eq!(first, 3);
    assert_eq!(second, 3);
}

#[test]
fn delete_after_delete_returns_not_found() {
    let mut m = manager();
    m.create_vm(config(VM_A), vec![]).unwrap();
    let plan = m.delete_vm(VM_A).unwrap();
    assert_eq!(plan.socket_path, format!("/var/lib/qarax/vms/{}.sock", VM_A));
    assert_eq!(plan.config_path, format!("/var/lib/qarax/vms/{}.json", VM_A));
    assert!(plan.had_process);
    let again = m.delete_vm(VM_A);
    assert!(matches!(again, Err(VmManagerError::VmNotFound(_))));
}

#[test]
fn delete_plan_names_every_possible_daemon() {
    let mut m = manager();
    m.create_vm(config(VM_A), vec!["qt24b6061en0".to_string()]).unwrap();
    let plan = m.delete_vm(VM_A).unwrap();
    assert_eq!(plan.taps, vec!["qt24b6061en0".to_string()]);
    assert_eq!(plan.fs_daemon_ids.len(), 8);
    for (i, id) in plan.fs_daemon_ids.iter().enumerate() {
        assert_eq!(*id, format!("{}-fs{}", VM_A, i));
    }
}

#[test]
fn absorb_live_state_updates_the_cached_status() {
    let mut m = manager();
    m.create_vm(config(VM_A), vec![]).unwrap();
    let st = m.absorb_live_state(VM_A, 3, Some(512 << 20)).unwrap();
    assert_eq!(st.status, 3);
    assert_eq!(st.memory_actual_size, Some(512 << 20));
    assert_eq!(m.get_vm_info(VM_A).unwrap().status, 3);
}

#[test]
fn recovery_adopts_exactly_the_live_pairs() {
    let mut m = manager();
    let mut config_with_taps = config(VM_A);
    let mut n0 = net("net0");
    n0.tap = Some("qt24b6061en0".to_string());
    let mut n1 = net("net1");
    n1.tap = Some("optap3".to_string());
    config_with_taps.networks = vec![n0, n1];

    let discoveries = vec![
        Discovery {
            vm_id: VM_A.to_string(),
            config: Some(config_with_taps),
            connected: true,
            live_status: Some(2),
        },
        // Sibling config file missing: disqualified.
        Discovery {
            vm_id: VM_B.to_string(),
            config: None,
            connected: true,
            live_status: Some(2),
        },
        // Hypervisor died: the socket no longer accepts connections.
        Discovery {
            vm_id: "0cc71e0a-91a2-4f44-8b8d-7a33a1a2b3c4".to_string(),
            config: Some(config("0cc71e0a-91a2-4f44-8b8d-7a33a1a2b3c4")),
            connected: false,
            live_status: None,
        },
    ];
    m.recover_vms(discoveries);

    let listed = m.list_vms();
    assert_eq!(listed.len(), 1);
    assert_eq!(listed[0].status, 2);
    assert_eq!(listed[0].config.as_ref().unwrap().vm_id, VM_A);

    // Only the manager-prefixed tap was adopted; the recovered VM has no
    // child handle, yet delete still works.
    let plan = m.delete_vm(VM_A).unwrap();
    assert!(!plan.had_process);
    assert_eq!(plan.taps, vec!["qt24b6061en0".to_string()]);
    assert!(m.delete_vm(VM_B).is_err());
}

#[test]
fn recovery_skips_unparseable_ids() {
    let mut m = manager();
    let adopted = m.recover_vm(Discovery {
        vm_id: "stale.sock.stem".to_string(),
        config: Some(config("stale.sock.stem")),
        connected: true,
        live_status: Some(1),
    });
    assert!(!adopted);
    assert_eq!(m.list_vms().len(), 0);
}

#[test]
fn managed_tap_rederivation_filters_by_prefix() {
    let mut a = net("net0");
    a.tap = Some("qtdeadbeefn0".to_string());
    let mut b = net("net1");
    b.tap = Some("br0".to_string());
    let c = net("net2");
    let taps = managed_taps(&vec![a, b, c]);
    assert_eq!(taps, vec!["qtdeadbeefn0".to_string()]);
}

#[test]
fn manager_errors_map_to_their_rpc_codes() {
    assert_eq!(
        map_manager_error(&VmManagerError::VmNotFound("x".to_string())),
        RpcCode::NotFound
    );
    assert_eq!(
        map_manager_error(&VmManagerError::VmAlreadyExists("x".to_string())),
        RpcCode::AlreadyExists
    );
    assert_eq!(
        map_manager_error(&VmManagerError::InvalidConfig("x".to_string())),
        RpcCode::InvalidArgument
    );
    assert_eq!(
        map_manager_error(&VmManagerError::SpawnError("x".to_string())),
        RpcCode::Internal
    );
    assert_eq!(
        map_manager_error(&VmManagerError::TapError("x".to_string())),
        RpcCode::Internal
    );
}

#[test]
fn socket_paths_are_the_canonical_siblings() {
    let mut m = manager();
    m.create_vm(config(VM_A), vec![]).unwrap();
    let sock = m.socket_path_of(VM_A).unwrap();
    assert_eq!(sock, format!("{}/{}.sock", m.runtime_dir(), VM_A));
}
