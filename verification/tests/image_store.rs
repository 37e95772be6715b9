use qarax::image_store::{
    get_image_status, layer_actions, pull_plan, safe_name, virtiofsd_plan, CacheProbe,
    ImageStoreManager, LayerAction, PullDecision,
};

const BUSYBOX: &str = "docker.io/library/busybox:latest";

fn probe(digest: &str) -> CacheProbe {
    CacheProbe {
        digest: digest.to_string(),
        env: Some(vec!["PATH=/bin".to_string()]),
        entrypoint: None,
        cmd: Some(vec!["sh".to_string()]),
    }
}

#[test]
fn cache_keys_are_path_safe() {
    assert_eq!(safe_name(BUSYBOX), "docker.io_library_busybox_latest");
    assert_eq!(
        safe_name("registry:5000/app@sha256:ab"),
        "registry_5000_app_sha256_ab"
    );
}

#[test]
fn first_pull_fetches_repeats_answer_from_cache() {
    let cache = "/var/lib/qarax/images";
    // First call: nothing cached, the reference parses, so a fetch is
    // planned into the canonical paths.
    let first = pull_plan(cache, BUSYBOX, None);
    let fetch = match first {
        PullDecision::Fetch(f) => f,
        _ => panic!("expected a fetch on a cold cache"),
    };
    assert_eq!(
        fetch.rootfs_dir,
        "/var/lib/qarax/images/docker.io_library_busybox_latest/rootfs"
    );
    assert_eq!(
        fetch.digest_file,
        "/var/lib/qarax/images/docker.io_library_busybox_latest/digest.txt"
    );
    assert_eq!(
        fetch.config_file,
        "/var/lib/qarax/images/docker.io_library_busybox_latest/config.json"
    );

    // Any number of later calls: the cache answers; no fetch, identical
    // digest and root path.
    let p = probe("sha256:abcdef0123\n");
    for _ in 0..3 {
        match pull_plan(cache, BUSYBOX, Some(&p)) {
            PullDecision::Cached(info) => {
                assert_eq!(info.digest, "sha256:abcdef0123");
                assert_eq!(info.rootfs_path, fetch.rootfs_dir);
                assert_eq!(info.image_ref, BUSYBOX);
                assert_eq!(info.env, Some(vec!["PATH=/bin".to_string()]));
            }
            _ => panic!("a populated cache must answer without network I/O"),
        }
    }
}

#[test]
fn invalid_references_fail_before_the_network() {
    let r = pull_plan("/cache", "UPPER//??bad ref", None);
    assert!(matches!(r, PullDecision::InvalidRef));
    // A populated cache still answers even for a strange reference string.
    let r = pull_plan("/cache", BUSYBOX, Some(&probe("d")));
    assert!(matches!(r, PullDecision::Cached(_)));
}

#[test]
fn image_status_is_a_pure_cache_probe() {
    let none = get_image_status("/cache", BUSYBOX, None);
    assert!(none.is_none());
    let some = get_image_status("/cache", BUSYBOX, Some(&probe(" sha256:aa "))).unwrap();
    assert_eq!(some.digest, "sha256:aa");
    assert_eq!(
        some.rootfs_path,
        "/cache/docker.io_library_busybox_latest/rootfs"
    );
}

#[test]
fn unrecognized_layers_are_skipped_not_fatal() {
    let kinds = layer_actions(&vec![
        "application/vnd.oci.image.layer.v1.tar+gzip".to_string(),
        "application/vnd.docker.image.rootfs.diff.tar.gzip".to_string(),
        "application/vnd.oci.image.layer.v1.tar".to_string(),
        "application/vnd.example.exotic+json".to_string(),
    ]);
    assert_eq!(
        kinds,
        vec![
            LayerAction::UnpackGzip,
            LayerAction::UnpackGzip,
            LayerAction::UnpackTar,
            LayerAction::Skip,
        ]
    );
}

#[test]
fn overlay_plan_names_every_path() {
    let key = "24b6061e-9f32-4ef2-9d3e-1a6a23c361a1-fs0";
    let plan = virtiofsd_plan("/var/lib/qarax/vms", key, "/var/lib/qarax/images/x/rootfs");
    assert_eq!(plan.vm_dir, format!("/var/lib/qarax/vms/{}", key));
    assert_eq!(plan.upper_dir, format!("/var/lib/qarax/vms/{}/upper", key));
    assert_eq!(plan.work_dir, format!("/var/lib/qarax/vms/{}/work", key));
    assert_eq!(plan.merged_dir, format!("/var/lib/qarax/vms/{}/merged", key));
    assert_eq!(
        plan.mount_options,
        format!(
            "lowerdir=/var/lib/qarax/images/x/rootfs,upperdir={},workdir={}",
            plan.upper_dir, plan.work_dir
        )
    );
    assert_eq!(plan.socket_path, format!("/var/lib/qarax/vms/{}-fs.sock", key));
}

#[test]
fn daemon_registry_tracks_sockets_until_stopped() {
    let mut store = ImageStoreManager::new(
        "/usr/local/bin/virtiofsd".to_string(),
        "/usr/local/bin/qarax-init".to_string(),
        "/var/lib/qarax/images".to_string(),
        "/var/lib/qarax/vms".to_string(),
    );
    assert_eq!(store.cache_dir(), "/var/lib/qarax/images");
    assert_eq!(store.runtime_dir(), "/var/lib/qarax/vms");
    store.register_daemon("vm-fs0".to_string(), "/var/lib/qarax/vms/vm-fs0-fs.sock".to_string());
    store.register_daemon("vm-fs1".to_string(), "/var/lib/qarax/vms/vm-fs1-fs.sock".to_string());
    let sock = store.stop_virtiofsd("vm-fs0");
    assert_eq!(sock.unwrap(), "/var/lib/qarax/vms/vm-fs0-fs.sock");
    // Stopping again, or stopping a daemon that never ran, is a no-op.
    assert!(store.stop_virtiofsd("vm-fs0").is_none());
    assert!(store.stop_virtiofsd("vm-fs7").is_none());
    let sock = store.stop_virtiofsd("vm-fs1");
    assert_eq!(sock.unwrap(), "/var/lib/qarax/vms/vm-fs1-fs.sock");
}

#[test]
fn stale_daemon_entries_are_replaced() {
    let mut store = ImageStoreManager::new(
        "/v".to_string(),
        "/q".to_string(),
        "/c".to_string(),
        "/r".to_string(),
    );
    store.register_daemon("k".to_string(), "/r/old.sock".to_string());
    store.register_daemon("k".to_string(), "/r/new.sock".to_string());
    assert_eq!(store.stop_virtiofsd("k").unwrap(), "/r/new.sock");
    assert!(store.stop_virtiofsd("k").is_none());
}
