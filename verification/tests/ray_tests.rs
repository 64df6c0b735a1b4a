use doay_core::config::Config;
use doay_core::ray::{
    engine_process_matches, get_ray_config_path, get_ray_exe, get_ray_version,
    kill_engine_processes, read_ray_config, restart, save_ray_config, select_engine_pids,
    start_speed_test_server, stop_speed_test_server, Platform, ProcEntry, ProcessManager,
    RayConfigFile, ServerRegistry, StopOutcome,
};

#[test]
fn engine_paths() {
    assert_eq!(get_ray_exe(&Platform::Linux, "/data/doay/ray"), "/data/doay/ray/xray");
    assert_eq!(get_ray_exe(&Platform::MacOs, "/data/doay/ray"), "/data/doay/ray/xray");
    assert_eq!(get_ray_exe(&Platform::Windows, "C:/doay/ray"), "C:/doay/ray/xray.exe");
    assert_eq!(get_ray_config_path("/data/doay/conf"), "/data/doay/conf/ray_config.json");
}

#[test]
fn start_twice_keeps_first_process() {
    let mut mgr = ProcessManager::new();
    assert!(mgr.should_spawn());
    assert!(mgr.start(Some(4242)));
    assert_eq!(mgr.child, Some(4242));
    // second start without an intervening stop: rejected, owner unchanged
    assert!(!mgr.should_spawn());
    assert!(!mgr.start(None));
    assert_eq!(mgr.child, Some(4242));
}

#[test]
fn failed_spawn_leaves_nothing_owned() {
    let mut mgr = ProcessManager::new();
    assert!(!mgr.start(None));
    assert_eq!(mgr.child, None);
}

#[test]
fn stop_without_process_fails() {
    let mut mgr = ProcessManager::new();
    assert!(!mgr.stop(None));
    assert_eq!(mgr.child, None);
}

#[test]
fn stop_outcomes() {
    let mut mgr = ProcessManager::new();
    mgr.start(Some(10));
    // the termination signal could not be sent: ownership restored
    assert!(!mgr.stop(Some(StopOutcome::KillFailed)));
    assert_eq!(mgr.child, Some(10));
    // waiting failed after a successful signal: presumed terminating
    assert!(!mgr.stop(Some(StopOutcome::WaitFailed)));
    assert_eq!(mgr.child, None);
    mgr.start(Some(11));
    assert!(mgr.stop(Some(StopOutcome::Stopped)));
    assert_eq!(mgr.child, None);
}

#[test]
fn engine_matching_heuristic() {
    let p = Platform::Linux;
    let yes = ProcEntry {
        pid: 1,
        name: "xray".to_string(),
        exe: Some("/home/u/.local/share/doay/ray/xray".to_string()),
    };
    assert!(engine_process_matches(&p, &yes));
    // same name, unrelated install location: spared
    let system_xray = ProcEntry {
        pid: 2,
        name: "xray".to_string(),
        exe: Some("/usr/bin/xray".to_string()),
    };
    assert!(!engine_process_matches(&p, &system_xray));
    // marker in the path but different binary name at the end
    let other = ProcEntry {
        pid: 3,
        name: "xray".to_string(),
        exe: Some("/data/doay/ray/xray-wrapper".to_string()),
    };
    assert!(!engine_process_matches(&p, &other));
    // unresolvable path: skipped
    let no_exe = ProcEntry { pid: 4, name: "xray".to_string(), exe: None };
    assert!(!engine_process_matches(&p, &no_exe));
    // different name entirely
    let bash = ProcEntry {
        pid: 5,
        name: "bash".to_string(),
        exe: Some("/data/doay/ray/xray".to_string()),
    };
    assert!(!engine_process_matches(&p, &bash));
    // windows binary name
    let win = ProcEntry {
        pid: 6,
        name: "xray.exe".to_string(),
        exe: Some("C:/Users/u/AppData/doay/ray/xray.exe".to_string()),
    };
    assert!(engine_process_matches(&Platform::Windows, &win));
}

#[test]
fn select_pids_keeps_table_order() {
    let p = Platform::Linux;
    let procs = vec![
        ProcEntry { pid: 9, name: "xray".to_string(), exe: Some("/a/doay/xray".to_string()) },
        ProcEntry { pid: 8, name: "nginx".to_string(), exe: Some("/usr/bin/nginx".to_string()) },
        ProcEntry { pid: 7, name: "xray".to_string(), exe: Some("/b/doay/ray/xray".to_string()) },
    ];
    assert_eq!(select_engine_pids(&p, &procs), vec![9, 7]);
}

#[test]
fn force_kill_with_zero_matches_succeeds() {
    // the sweep over entries with no match makes no kill call: the outcome
    // list is empty and the verdict is a vacuous success
    let sys = sysinfo::System::new_all();
    let no_match = vec![
        ProcEntry { pid: 1, name: "bash".to_string(), exe: Some("/bin/bash".to_string()) },
        ProcEntry { pid: 2, name: "xray".to_string(), exe: Some("/usr/bin/xray".to_string()) },
        ProcEntry { pid: 3, name: "xray".to_string(), exe: None },
    ];
    let (ok, outcomes) = kill_engine_processes(&sys, &Platform::Linux, &no_match);
    assert!(ok);
    assert!(outcomes.is_empty());
    let (ok2, outcomes2) = kill_engine_processes(&sys, &Platform::Linux, &Vec::new());
    assert!(ok2);
    assert!(outcomes2.is_empty());
}

#[test]
fn force_kill_verdict_aggregates_outcomes() {
    // one kill per matched process; the verdict is the conjunction of the
    // reported outcomes (here the snapshot has no such pids, so every kill
    // call reports failure and the verdict is false)
    let sys = sysinfo::System::new_all();
    let matching = vec![
        ProcEntry {
            pid: u32::MAX - 1,
            name: "xray".to_string(),
            exe: Some("/data/doay/ray/xray".to_string()),
        },
        ProcEntry {
            pid: u32::MAX - 2,
            name: "xray".to_string(),
            exe: Some("/data/doay/ray/xray".to_string()),
        },
    ];
    let (ok, outcomes) = kill_engine_processes(&sys, &Platform::Linux, &matching);
    assert_eq!(outcomes.len(), 2);
    assert_eq!(ok, outcomes.iter().all(|b| *b));
    assert!(!ok);
}

#[test]
fn restart_short_circuits() {
    let mut c = Config::default();
    c.ray_enable = false;
    // engine disabled: nothing attempted, no stage outcome exists
    assert!(!restart(&c, None, None, None));
    c.ray_enable = true;
    // graceful stop failed: sweep and start never reached
    assert!(!restart(&c, Some(false), None, None));
    // sweep failed: start never reached
    assert!(!restart(&c, Some(true), Some(false), None));
    // start failed
    assert!(!restart(&c, Some(true), Some(true), Some(false)));
    // all three stages succeeded
    assert!(restart(&c, Some(true), Some(true), Some(true)));
}

#[test]
fn exit_path_reports_both_outcomes() {
    assert!(doay_core::cleanup::exit_cleanly(true, true));
    assert!(!doay_core::cleanup::exit_cleanly(false, true));
    assert!(!doay_core::cleanup::exit_cleanly(true, false));
}

#[test]
fn ray_version_parsing() {
    let out = "Xray 25.1.1 (Xray, Penetrates Everything.)\nA unified platform\n".to_string();
    assert_eq!(get_ray_version(&Some(out)), "Xray 25.1.1 (Xray, Penetrates Everything.)");
    assert_eq!(get_ray_version(&Some("  v1.0  ".to_string())), "v1.0");
    assert_eq!(get_ray_version(&Some("".to_string())), "");
    assert_eq!(get_ray_version(&None), "");
}

#[test]
fn ray_config_round_trip_is_json_equal() {
    let doc = "{\"log\": {\"loglevel\": \"warning\"}, \"inbounds\": [{\"port\": 1086}]}";
    let mut file = RayConfigFile::new();
    assert!(save_ray_config(&mut file, doc, true));
    let read_back = read_ray_config(&file).unwrap();
    let a: serde_json::Value = serde_json::from_str(doc).unwrap();
    let b: serde_json::Value = serde_json::from_str(&read_back).unwrap();
    assert_eq!(a, b);
}

#[test]
fn ray_config_failed_save_leaves_nothing() {
    let mut file = RayConfigFile::new();
    assert!(!save_ray_config(&mut file, "{}", false));
    assert!(read_ray_config(&file).is_none());
}

#[test]
fn speed_test_server_same_port_second_start_fails() {
    let mut reg = ServerRegistry::new();
    assert!(start_speed_test_server(&mut reg, 18600, true, Some(100)));
    assert_eq!(reg.server_count(), 1);
    // second start on the same port: rejected before any spawn, size stays 1
    assert!(reg.server_port_in_use(18600));
    assert!(!start_speed_test_server(&mut reg, 18600, true, None));
    assert_eq!(reg.server_count(), 1);
}

#[test]
fn speed_test_server_lifecycle() {
    let mut reg = ServerRegistry::new();
    // missing configuration file: rejected before any spawn
    assert!(!start_speed_test_server(&mut reg, 18601, false, None));
    assert_eq!(reg.server_count(), 0);
    // failed spawn registers nothing
    assert!(!start_speed_test_server(&mut reg, 18601, true, None));
    assert_eq!(reg.server_count(), 0);
    assert!(start_speed_test_server(&mut reg, 18601, true, Some(7)));
    assert!(start_speed_test_server(&mut reg, 18602, true, Some(8)));
    assert_eq!(reg.server_count(), 2);
    // stopping an unknown port fails and makes no OS call
    assert!(!stop_speed_test_server(&mut reg, 9999, None));
    assert_eq!(reg.server_count(), 2);
    // a failed termination signal keeps the instance registered
    assert!(!stop_speed_test_server(&mut reg, 18601, Some(StopOutcome::KillFailed)));
    assert!(reg.server_port_in_use(18601));
    assert!(stop_speed_test_server(&mut reg, 18601, Some(StopOutcome::Stopped)));
    assert!(!reg.server_port_in_use(18601));
    assert_eq!(reg.server_count(), 1);
    assert!(!stop_speed_test_server(&mut reg, 18602, Some(StopOutcome::WaitFailed)));
    assert_eq!(reg.server_count(), 0);
}
