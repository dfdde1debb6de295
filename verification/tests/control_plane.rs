use nydus_daemon::daemon::{BuildTimeInfo, DaemonService, NydusDaemon};
use nydus_daemon::{
    parse_json, Backend, DaemonError, DaemonResult, DaemonState, DaemonStateMachineInput,
    DaemonStateMachineOutput, DaemonStateMachineState, FsBackendCollection, FsBackendMountCmd,
    FsBackendType, FsBackendUmountCmd, UpgradeManager, VfsErrorKind,
};

struct StubService {
    start_calls: u32,
    disconnect_calls: u32,
    interrupt_calls: u32,
    restore_calls: u32,
    wait_calls: u32,
    fail_start: bool,
    fail_disconnect: bool,
    fail_restore: bool,
    fail_wait: bool,
}

impl StubService {
    fn new() -> Self {
        StubService {
            start_calls: 0,
            disconnect_calls: 0,
            interrupt_calls: 0,
            restore_calls: 0,
            wait_calls: 0,
            fail_start: false,
            fail_disconnect: false,
            fail_restore: false,
            fail_wait: false,
        }
    }
}

impl DaemonService for StubService {
    fn start(&mut self) -> DaemonResult<()> {
        self.start_calls += 1;
        if self.fail_start {
            Err(DaemonError::StartService("injected".to_string()))
        } else {
            Ok(())
        }
    }

    fn disconnect(&mut self) -> DaemonResult<()> {
        self.disconnect_calls += 1;
        if self.fail_disconnect {
            Err(DaemonError::SessionShutdown("injected".to_string()))
        } else {
            Ok(())
        }
    }

    fn interrupt(&mut self) {
        self.interrupt_calls += 1;
    }

    fn restore(&mut self) -> DaemonResult<()> {
        self.restore_calls += 1;
        if self.fail_restore {
            Err(DaemonError::Common("restore failed".to_string()))
        } else {
            Ok(())
        }
    }

    fn wait(&mut self) -> DaemonResult<()> {
        self.wait_calls += 1;
        if self.fail_wait {
            Err(DaemonError::WaitDaemon("injected".to_string()))
        } else {
            Ok(())
        }
    }
}

fn new_daemon(with_mgr: bool) -> NydusDaemon {
    let version = BuildTimeInfo {
        package_ver: "0.1.0".to_string(),
        git_commit: "deadbeef".to_string(),
    };
    let mgr = if with_mgr { Some(UpgradeManager::new()) } else { None };
    NydusDaemon::new(Some("daemon-1".to_string()), None, version, mgr)
}

fn passthrough_cmd(mountpoint: &str) -> FsBackendMountCmd {
    FsBackendMountCmd {
        fs_type: FsBackendType::PassthroughFs,
        source: "/tmp/root".to_string(),
        config: "".to_string(),
        mountpoint: mountpoint.to_string(),
        prefetch_files: None,
    }
}

fn rafs_cmd(mountpoint: &str, config: &str) -> FsBackendMountCmd {
    FsBackendMountCmd {
        fs_type: FsBackendType::Rafs,
        source: "/tmp/bootstrap".to_string(),
        config: config.to_string(),
        mountpoint: mountpoint.to_string(),
        prefetch_files: None,
    }
}

#[test]
fn state_int_round_trip() {
    let states = [
        DaemonState::Init,
        DaemonState::Running,
        DaemonState::Upgrading,
        DaemonState::Interrupted,
        DaemonState::Stopped,
        DaemonState::Unknown,
    ];
    for s in states {
        assert_eq!(DaemonState::from_int(s.to_int()), s);
    }
    assert_eq!(DaemonState::from_int(1), DaemonState::Init);
    assert_eq!(DaemonState::from_int(5), DaemonState::Stopped);
    for n in [0, 6, 7, -1, 100] {
        assert_eq!(DaemonState::from_int(n), DaemonState::Unknown);
    }
}

#[test]
fn backend_type_from_str_exact() {
    assert_eq!(
        FsBackendType::from_str("rafs").unwrap(),
        FsBackendType::Rafs
    );
    assert_eq!(
        FsBackendType::from_str("passthrough_fs").unwrap(),
        FsBackendType::PassthroughFs
    );
    for bad in ["", "RAFS", "rafs ", "passthroughfs", "other"] {
        match FsBackendType::from_str(bad) {
            Err(DaemonError::InvalidArguments(msg)) => {
                assert!(msg.contains("rafs"));
                assert!(msg.contains("passthrough_fs"));
            }
            other => panic!("expected InvalidArguments, got {:?}", other),
        }
    }
}

#[test]
fn transition_table() {
    type I = DaemonStateMachineInput;
    type O = DaemonStateMachineOutput;
    type S = DaemonStateMachineState;
    let t = nydus_daemon::fsm::transition;
    assert_eq!(t(S::Init, I::Mount), Some((S::Running, Some(O::StartService))));
    assert_eq!(t(S::Init, I::Takeover), Some((S::Upgrading, Some(O::Restore))));
    assert_eq!(t(S::Init, I::Stop), Some((S::Die, Some(O::Umount))));
    assert_eq!(
        t(S::Running, I::Exit),
        Some((S::Interrupted, Some(O::TerminateFuseService)))
    );
    assert_eq!(t(S::Running, I::Stop), Some((S::Die, Some(O::Umount))));
    assert_eq!(
        t(S::Upgrading, I::Successful),
        Some((S::Running, Some(O::StartService)))
    );
    assert_eq!(t(S::Interrupted, I::Stop), Some((S::Die, None)));
    assert_eq!(t(S::Init, I::Successful), None);
    assert_eq!(t(S::Init, I::Exit), None);
    assert_eq!(t(S::Running, I::Mount), None);
    assert_eq!(t(S::Upgrading, I::Stop), None);
    assert_eq!(t(S::Die, I::Stop), None);
}

#[test]
fn cold_mount_then_umount() {
    let mut d = new_daemon(false);
    let mut svc = StubService::new();

    d.on_event(&mut svc, DaemonStateMachineInput::Mount).unwrap();
    assert_eq!(d.get_state(), DaemonState::Running);
    assert_eq!(svc.start_calls, 1);

    d.mount(passthrough_cmd("/m")).unwrap();
    let info = d.export_info().unwrap();
    assert!(info.contains("\"/m\""));
    assert!(info.contains("\"backend_type\":\"PassthroughFs\""));
    assert!(info.contains("\"config\":null"));
    assert!(info.contains("\"state\":\"Running\""));

    d.umount(FsBackendUmountCmd { mountpoint: "/m".to_string() }).unwrap();
    let info = d.export_info().unwrap();
    assert!(info.contains("\"backend_collection\":{}"));
    assert!(d.backend_from_mountpoint("/m").is_err());
}

#[test]
fn double_mount_rejected() {
    let mut d = new_daemon(false);
    d.mount(passthrough_cmd("/m")).unwrap();
    let before = d.export_info().unwrap();
    match d.mount(passthrough_cmd("/m")) {
        Err(DaemonError::Vfs(VfsErrorKind::AlreadyMounted)) => {}
        other => panic!("expected Vfs(AlreadyMounted), got {:?}", other),
    }
    let after = d.export_info().unwrap();
    assert_eq!(before, after);
}

#[test]
fn sanitization_registry_backend() {
    let mut d = new_daemon(false);
    let config = "{\"device\":{\"backend\":{\"type\":\"registry\",\
                  \"config\":{\"auth\":\"secret\",\"registry_token\":\"tok\",\"host\":\"h\"}}}}";
    d.mount(rafs_cmd("/img", config)).unwrap();
    let info = d.export_info().unwrap();
    assert!(!info.contains("secret"));
    assert!(!info.contains("\"auth\""));
    assert!(!info.contains("registry_token"));
    assert!(info.contains("\"host\":\"h\""));
    assert!(info.contains("\"type\":\"registry\""));
}

#[test]
fn sanitization_oss_backend() {
    let mut d = new_daemon(false);
    let config = "{\"device\":{\"backend\":{\"type\":\"oss\",\
                  \"config\":{\"access_key_id\":\"AKID\",\"access_key_secret\":\"AKSECRET\",\
                  \"endpoint\":\"e\"}}}}";
    d.mount(rafs_cmd("/img", config)).unwrap();
    let info = d.export_info().unwrap();
    assert!(!info.contains("AKID"));
    assert!(!info.contains("AKSECRET"));
    assert!(!info.contains("access_key_id"));
    assert!(!info.contains("access_key_secret"));
    assert!(info.contains("\"endpoint\":\"e\""));
}

#[test]
fn sanitization_leaves_other_types_alone() {
    let mut d = new_daemon(false);
    let config = "{\"device\":{\"backend\":{\"type\":\"localfs\",\
                  \"config\":{\"auth\":\"keepme\"}}}}";
    d.mount(rafs_cmd("/img", config)).unwrap();
    let info = d.export_info().unwrap();
    assert!(info.contains("\"auth\":\"keepme\""));
}

#[test]
fn remount_wrong_type() {
    let mut d = new_daemon(false);
    d.mount(passthrough_cmd("/m")).unwrap();
    match d.remount(rafs_cmd("/m", "{}")) {
        Err(DaemonError::FsTypeMismatch(msg)) => assert_eq!(msg, "to rafs"),
        other => panic!("expected FsTypeMismatch, got {:?}", other),
    }
}

#[test]
fn remount_absent_not_found() {
    let mut d = new_daemon(false);
    match d.remount(rafs_cmd("/nowhere", "{}")) {
        Err(DaemonError::NotFound) => {}
        other => panic!("expected NotFound, got {:?}", other),
    }
}

#[test]
fn remount_updates_config() {
    let mut d = new_daemon(true);
    d.mount(rafs_cmd("/img", "{\"mode\":\"direct\"}")).unwrap();
    d.remount(rafs_cmd("/img", "{\"mode\":\"cached\"}")).unwrap();
    let mgr = d.upgrade_mgr.as_ref().unwrap();
    assert_eq!(mgr.mounts.v[0].1 .0.config, "{\"mode\":\"cached\"}");
    assert_eq!(mgr.mounts.v[0].1 .1, 0);
    let info = d.export_info().unwrap();
    assert!(info.contains("\"mode\":\"cached\""));
    assert!(!info.contains("direct"));
    assert!(info.contains("\"backend_type\":\"Rafs\""));
    match d.backend_from_mountpoint("/img").unwrap() {
        Backend::Rafs(rb) => {
            let text = nydus_daemon::json::json_to_string(&rb.config);
            assert_eq!(text, "{\"mode\":\"cached\"}");
        }
        _ => panic!("expected an image backend"),
    }
}

#[test]
fn takeover_sequence() {
    let mut d = new_daemon(false);
    let mut svc = StubService::new();

    d.on_event(&mut svc, DaemonStateMachineInput::Takeover).unwrap();
    assert_eq!(d.get_state(), DaemonState::Upgrading);
    assert_eq!(svc.restore_calls, 1);
    assert_eq!(d.sm.sm_state, DaemonStateMachineState::Upgrading);

    d.on_event(&mut svc, DaemonStateMachineInput::Successful).unwrap();
    assert_eq!(d.get_state(), DaemonState::Running);
    assert_eq!(svc.start_calls, 1);
    assert_eq!(d.sm.sm_state, DaemonStateMachineState::Running);
}

#[test]
fn trigger_takeover_two_step() {
    let mut d = new_daemon(false);
    let mut svc = StubService::new();
    d.trigger_takeover(&mut svc).unwrap();
    assert_eq!(d.get_state(), DaemonState::Running);
    assert_eq!(svc.restore_calls, 1);
    assert_eq!(svc.start_calls, 1);
}

#[test]
fn restore_failure_leaves_upgrading() {
    let mut d = new_daemon(false);
    let mut svc = StubService::new();
    svc.fail_restore = true;
    assert!(d.on_event(&mut svc, DaemonStateMachineInput::Takeover).is_err());
    assert_eq!(d.get_state(), DaemonState::Upgrading);
    assert_eq!(d.sm.sm_state, DaemonStateMachineState::Init);
}

#[test]
fn action_failure_rollback() {
    let mut d = new_daemon(false);
    let mut svc = StubService::new();
    d.on_event(&mut svc, DaemonStateMachineInput::Mount).unwrap();
    assert_eq!(d.get_state(), DaemonState::Running);

    svc.fail_disconnect = true;
    match d.on_event(&mut svc, DaemonStateMachineInput::Stop) {
        Err(DaemonError::SessionShutdown(_)) => {}
        other => panic!("expected the injected disconnect error, got {:?}", other),
    }
    assert_eq!(d.get_state(), DaemonState::Running);
    assert_eq!(d.sm.sm_state, DaemonStateMachineState::Running);
    assert_eq!(svc.disconnect_calls, 1);
    assert_eq!(svc.interrupt_calls, 1);
}

#[test]
fn stop_disconnects_and_interrupts() {
    let mut d = new_daemon(false);
    let mut svc = StubService::new();
    d.on_event(&mut svc, DaemonStateMachineInput::Mount).unwrap();
    d.stop(&mut svc).unwrap();
    assert_eq!(d.get_state(), DaemonState::Stopped);
    assert_eq!(d.sm.sm_state, DaemonStateMachineState::Die);
    assert_eq!(svc.disconnect_calls, 1);
    assert_eq!(svc.interrupt_calls, 1);
}

#[test]
fn stop_from_interrupted_has_no_action() {
    let mut d = new_daemon(false);
    let mut svc = StubService::new();
    d.on_event(&mut svc, DaemonStateMachineInput::Mount).unwrap();
    d.on_event(&mut svc, DaemonStateMachineInput::Exit).unwrap();
    assert_eq!(d.get_state(), DaemonState::Interrupted);
    assert_eq!(svc.interrupt_calls, 1);

    d.on_event(&mut svc, DaemonStateMachineInput::Stop).unwrap();
    assert_eq!(d.sm.sm_state, DaemonStateMachineState::Die);
    assert_eq!(d.get_state(), DaemonState::Interrupted);
    assert_eq!(svc.disconnect_calls, 0);
}

#[test]
fn mount_after_stop_not_ready() {
    let mut d = new_daemon(false);
    let mut svc = StubService::new();
    d.stop(&mut svc).unwrap();
    match d.mount(passthrough_cmd("/m")) {
        Err(DaemonError::NotReady) => {}
        other => panic!("expected NotReady, got {:?}", other),
    }
}

#[test]
fn protocol_violation_kills_worker() {
    let mut d = new_daemon(false);
    let mut svc = StubService::new();
    match d.on_event(&mut svc, DaemonStateMachineInput::Successful) {
        Err(DaemonError::Channel(_)) => {}
        other => panic!("expected Channel, got {:?}", other),
    }
    assert!(!d.sm.alive);
    match d.on_event(&mut svc, DaemonStateMachineInput::Mount) {
        Err(DaemonError::Channel(_)) => {}
        other => panic!("expected Channel from a dead worker, got {:?}", other),
    }
}

#[test]
fn trigger_exit_waits() {
    let mut d = new_daemon(false);
    let mut svc = StubService::new();
    d.on_event(&mut svc, DaemonStateMachineInput::Mount).unwrap();
    d.trigger_exit(&mut svc).unwrap();
    assert_eq!(d.get_state(), DaemonState::Interrupted);
    assert_eq!(svc.wait_calls, 1);

    let mut d2 = new_daemon(false);
    let mut svc2 = StubService::new();
    svc2.fail_wait = true;
    d2.on_event(&mut svc2, DaemonStateMachineInput::Mount).unwrap();
    match d2.trigger_exit(&mut svc2) {
        Err(DaemonError::ServiceStop) => {}
        other => panic!("expected ServiceStop, got {:?}", other),
    }
}

#[test]
fn start_failure_rolls_back_mount_event() {
    let mut d = new_daemon(false);
    let mut svc = StubService::new();
    svc.fail_start = true;
    match d.on_event(&mut svc, DaemonStateMachineInput::Mount) {
        Err(DaemonError::StartService(_)) => {}
        other => panic!("expected StartService, got {:?}", other),
    }
    assert_eq!(d.get_state(), DaemonState::Init);
    assert_eq!(d.sm.sm_state, DaemonStateMachineState::Init);
}

#[test]
fn prefetch_validation() {
    let mut d = new_daemon(false);
    let mut bad = passthrough_cmd("/m");
    bad.prefetch_files = Some(vec!["foo/bar".to_string()]);
    match d.mount(bad) {
        Err(DaemonError::Common(msg)) => assert_eq!(msg, "Illegal prefetch list"),
        other => panic!("expected Common, got {:?}", other),
    }
    assert!(d.backend_from_mountpoint("/m").is_err());

    let mut good = passthrough_cmd("/m");
    good.prefetch_files = Some(vec!["/foo/bar".to_string()]);
    d.mount(good).unwrap();
    assert!(d.backend_from_mountpoint("/m").is_ok());
}

#[test]
fn mount_bad_rafs_config_is_backend_error() {
    let mut d = new_daemon(false);
    match d.mount(rafs_cmd("/img", "not json")) {
        Err(DaemonError::Backend(_)) => {}
        other => panic!("expected Backend, got {:?}", other),
    }
}

#[test]
fn registry_add_bad_config_is_serde_error() {
    let mut coll = FsBackendCollection::new();
    let cmd = rafs_cmd("/img", "{broken");
    match coll.add(&"/img".to_string(), &cmd) {
        Err(DaemonError::Serde(_)) => {}
        other => panic!("expected Serde, got {:?}", other),
    }
}

#[test]
fn upgrade_manager_tracks_mounts() {
    let mut d = new_daemon(true);
    d.mount(passthrough_cmd("/m")).unwrap();
    assert_eq!(d.upgrade_mgr.as_ref().unwrap().mounts.v.len(), 1);
    assert_eq!(d.upgrade_mgr.as_ref().unwrap().mounts.v[0].0, "/m");
    assert_eq!(d.upgrade_mgr.as_ref().unwrap().mounts.v[0].1 .1, 0);

    d.mount(passthrough_cmd("/m2")).unwrap();
    assert_eq!(d.upgrade_mgr.as_ref().unwrap().mounts.v[1].1 .1, 1);

    d.umount(FsBackendUmountCmd { mountpoint: "/m".to_string() }).unwrap();
    assert_eq!(d.upgrade_mgr.as_ref().unwrap().mounts.v.len(), 1);
    assert_eq!(d.upgrade_mgr.as_ref().unwrap().mounts.v[0].0, "/m2");
}

#[test]
fn remount_sanitizes_refreshed_descriptor() {
    let mut d = new_daemon(false);
    d.mount(rafs_cmd("/img", "{}")).unwrap();
    let config = "{\"device\":{\"backend\":{\"type\":\"oss\",\
                  \"config\":{\"access_key_id\":\"AKID\",\"region\":\"r\"}}}}";
    d.remount(rafs_cmd("/img", config)).unwrap();
    let info = d.export_info().unwrap();
    assert!(!info.contains("AKID"));
    assert!(!info.contains("access_key_id"));
    assert!(info.contains("\"region\":\"r\""));
}

#[test]
fn remount_without_opaque_fails() {
    let mut d = new_daemon(false);
    d.mount(rafs_cmd("/img", "{\"mode\":\"direct\"}")).unwrap();
    let before = d.export_info().unwrap();
    d.upgrade_mgr = Some(UpgradeManager::new());
    match d.remount(rafs_cmd("/img", "{\"mode\":\"cached\"}")) {
        Err(DaemonError::UpgradeManager(_)) => {}
        other => panic!("expected UpgradeManager, got {:?}", other),
    }
    let after = d.export_info().unwrap();
    assert_eq!(before, after);
}

#[test]
fn upgrade_manager_update_absent_fails() {
    let mut mgr = UpgradeManager::new();
    match mgr.update_mounts_state(rafs_cmd("/img", "{}")) {
        Err(DaemonError::UpgradeManager(_)) => {}
        other => panic!("expected UpgradeManager, got {:?}", other),
    }
}

#[test]
fn umount_absent_not_found() {
    let mut d = new_daemon(false);
    match d.umount(FsBackendUmountCmd { mountpoint: "/m".to_string() }) {
        Err(DaemonError::NotFound) => {}
        other => panic!("expected NotFound, got {:?}", other),
    }
}

#[test]
fn export_backend_info_rafs_only() {
    let mut d = new_daemon(false);
    d.mount(rafs_cmd("/img", "{}")).unwrap();
    assert_eq!(d.export_backend_info("/img").unwrap(), "null");

    d.mount(passthrough_cmd("/p")).unwrap();
    match d.export_backend_info("/p") {
        Err(DaemonError::FsTypeMismatch(msg)) => assert_eq!(msg, "to rafs"),
        other => panic!("expected FsTypeMismatch, got {:?}", other),
    }

    match d.export_backend_info("/absent") {
        Err(DaemonError::Vfs(VfsErrorKind::Common(_))) => {}
        other => panic!("expected Vfs(Common), got {:?}", other),
    }
}

#[test]
fn json_parse_and_serialize() {
    let parsed = parse_json("{\"b\": [true, null, \"x\\ny\"], \"a\": 1.5}").unwrap();
    let text = nydus_daemon::json::json_to_string(&parsed);
    assert_eq!(text, "{\"a\":1.5,\"b\":[true,null,\"x\\ny\"]}");

    assert!(parse_json("{oops").is_err());
    assert!(parse_json("").is_err());

    let escaped = parse_json("\"q\\\"s\\\\t\\u0001\"").unwrap();
    let text = nydus_daemon::json::json_to_string(&escaped);
    assert_eq!(text, "\"q\\\"s\\\\t\\u0001\"");
}

#[test]
fn export_shape() {
    let d = new_daemon(false);
    let info = d.export_info().unwrap();
    assert_eq!(
        info,
        "{\"version\":{\"package_ver\":\"0.1.0\",\"git_commit\":\"deadbeef\"},\
         \"id\":\"daemon-1\",\"supervisor\":null,\"state\":\"Init\",\
         \"backend_collection\":{}}"
    );
}
