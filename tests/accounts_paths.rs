use antigravity_agent::account::{
    apply_store_ops, backup_file_name, backup_for, cleared_message, clear_ops, kill_message,
    launch_message, restore_antigravity_account, restore_plan, AccountSwitch, AgentError,
    StoreOp, SwitchAction, SwitchEvent, SwitchStep, AGENT_STATE_KEY, AUTH_STATUS_KEY,
    ONBOARDING_KEY, SETTLE_DELAY_MS,
};
use antigravity_agent::paths::{
    antigravity_data_dir_from, antigravity_executable_paths, get_antigravity_data_dir,
    get_antigravity_db_path, get_antigravity_path_file, get_app_settings_file,
    get_log_directory, get_window_state_file, join_path, ConfigManager, TargetOs, UserDirs,
};
use antigravity_agent::process::{
    get_antigravity_process_patterns, kill_outcome, killed_label, matches_antigravity_process,
};
use antigravity_agent::sanitizer::{
    mask_api_key, sanitize_email_match, sanitize_log_message, LogSanitizer,
};
use antigravity_agent::snapshot::Snapshot;
use antigravity_agent::tray::mask_email;

fn store(pairs: &[(&str, &str)]) -> Snapshot {
    let mut s = Snapshot::new();
    for (k, v) in pairs {
        s.set(k.to_string(), v.to_string());
    }
    s
}

fn backup_doc(value: &str) -> String {
    format!("{{\"{}\": \"{}\"}}", AGENT_STATE_KEY, value)
}

/// Runs a switch against an in-memory store, as the application runs it
/// against the real one.
fn run_switch(
    name: &str,
    live: &mut Snapshot,
    backup: Option<String>,
    kill: Result<String, AgentError>,
    launch: Result<String, String>,
) -> Result<String, AgentError> {
    let mut sw = AccountSwitch::new(name.to_string());
    let mut kill = Some(kill);
    let mut launch = Some(launch);
    let mut backup = Some(backup);
    let mut event = SwitchEvent::Start;
    loop {
        match sw.advance(event) {
            SwitchAction::KillProcesses => event = SwitchEvent::Killed(kill.take().unwrap()),
            SwitchAction::Wait(ms) => {
                assert_eq!(ms, SETTLE_DELAY_MS);
                event = SwitchEvent::Waited;
            }
            SwitchAction::ClearStore(ops) => {
                let n = apply_store_ops(live, &ops);
                event = SwitchEvent::Cleared(Ok(cleared_message(n, false)));
            }
            SwitchAction::ReadBackup(file) => {
                assert_eq!(file, format!("{}.json", name));
                event = SwitchEvent::BackupLoaded(Ok(backup.take().unwrap()));
            }
            SwitchAction::WriteStore(ops) => {
                apply_store_ops(live, &ops);
                event = SwitchEvent::StoreWritten(Ok(()));
            }
            SwitchAction::Launch => event = SwitchEvent::Launched(launch.take().unwrap()),
            SwitchAction::Finish(r) => {
                assert_eq!(sw.step(), SwitchStep::Done);
                return r;
            }
            SwitchAction::Ignore => panic!("unexpected event"),
        }
    }
}

#[test]
fn restore_of_missing_backup_is_not_found_and_writes_nothing() {
    assert_eq!(backup_file_name("user@example.com"), "user@example.com.json");
    let mut live = store(&[(AGENT_STATE_KEY, "OLD"), ("other", "1")]);
    match restore_antigravity_account("user@example.com", Ok(None)) {
        Err(AgentError::NotFound(_)) => {}
        _ => panic!("expected NotFound"),
    }
    assert!(matches!(restore_plan(Ok(None)), Err(AgentError::NotFound(_))));
    assert_eq!(live.get(&AGENT_STATE_KEY.to_string()), Some("OLD".to_string()));
    assert_eq!(apply_store_ops(&mut live, &Vec::new()), 0);
    assert_eq!(live.len(), 2);
}

#[test]
fn restore_errors_by_kind() {
    assert!(matches!(restore_plan(Err("denied".to_string())), Err(AgentError::IoFailure(m)) if m == "denied"));
    assert!(matches!(restore_plan(Ok(Some("{}".to_string()))), Err(AgentError::DecodeFailure(_))));
    assert!(matches!(restore_plan(Ok(Some("not json".to_string()))), Err(AgentError::DecodeFailure(_))));
    match restore_antigravity_account("acct", Ok(Some(backup_doc("QUJD")))) {
        Ok((ops, msg)) => {
            assert_eq!(msg, "Restored account acct");
            assert_eq!(ops.len(), 1);
            assert!(matches!(&ops[0], StoreOp::Upsert(k, v) if k == AGENT_STATE_KEY && v == "QUJD"));
        }
        Err(e) => panic!("unexpected {:?}", e),
    }
}

#[test]
fn switch_writes_backup_session_whatever_the_store_held() {
    for prior in [
        vec![],
        vec![(AGENT_STATE_KEY, "OLD"), (AUTH_STATUS_KEY, "{\"name\":\"x\"}"), (ONBOARDING_KEY, "false")],
        vec![("unrelated", "7"), (AUTH_STATUS_KEY, "a")],
    ] {
        let mut live = store(&prior);
        let r = run_switch(
            "acct",
            &mut live,
            Some(backup_doc("QUJD")),
            Err(AgentError::NotFound("Antigravity process not found".to_string())),
            Ok("Antigravity started".to_string()),
        );
        assert_eq!(
            r,
            Ok("Antigravity process not running -> Restored account acct -> Antigravity started".to_string())
        );
        assert_eq!(live.get(&AGENT_STATE_KEY.to_string()), Some("QUJD".to_string()));
        assert_eq!(live.get(&AUTH_STATUS_KEY.to_string()), None);
        assert_eq!(live.get(&ONBOARDING_KEY.to_string()), Some("true".to_string()));
    }
}

#[test]
fn switch_stops_when_backup_missing() {
    let mut live = store(&[(AGENT_STATE_KEY, "OLD"), (AUTH_STATUS_KEY, "a")]);
    let r = run_switch("nobody", &mut live, None, Ok("Successfully closed".to_string()), Ok(String::new()));
    assert!(matches!(r, Err(AgentError::NotFound(_))));
    // the sign-out that came before is not undone
    assert_eq!(live.get(&AGENT_STATE_KEY.to_string()), None);
}

#[test]
fn switch_reports_kill_and_launch_failures_and_goes_on() {
    let mut live = store(&[]);
    let r = run_switch(
        "acct",
        &mut live,
        Some(backup_doc("QUJD")),
        Err(AgentError::ProcessControlFailure("access denied".to_string())),
        Err("no executable".to_string()),
    );
    assert_eq!(
        r,
        Ok("Failed to kill Antigravity process: access denied -> Restored account acct -> Failed to start: no executable".to_string())
    );
    assert_eq!(live.get(&AGENT_STATE_KEY.to_string()), Some("QUJD".to_string()));
}

#[test]
fn switch_ignores_out_of_order_events() {
    let mut sw = AccountSwitch::new("a".to_string());
    assert!(matches!(sw.advance(SwitchEvent::Waited), SwitchAction::Ignore));
    assert_eq!(sw.step(), SwitchStep::Begin);
    assert!(matches!(sw.advance(SwitchEvent::Start), SwitchAction::KillProcesses));
    assert!(matches!(sw.advance(SwitchEvent::Start), SwitchAction::Ignore));
    assert_eq!(sw.step(), SwitchStep::StopProcess);
}

#[test]
fn switch_fails_when_store_cannot_be_signed_out() {
    let mut sw = AccountSwitch::new("a".to_string());
    sw.advance(SwitchEvent::Start);
    sw.advance(SwitchEvent::Killed(Ok("done".to_string())));
    assert!(matches!(sw.advance(SwitchEvent::Waited), SwitchAction::ClearStore(_)));
    let r = sw.advance(SwitchEvent::Cleared(Err(AgentError::NotFound("no store".to_string()))));
    assert!(matches!(r, SwitchAction::Finish(Err(AgentError::NotFound(m))) if m == "no store"));
}

#[test]
fn clear_ops_sign_out() {
    let mut live = store(&[(AGENT_STATE_KEY, "S"), (AUTH_STATUS_KEY, "A"), ("keep", "k")]);
    let n = apply_store_ops(&mut live, &clear_ops());
    assert_eq!(n, 3);
    assert_eq!(cleared_message(n, true), "Logout successful: Main database cleaned 3 items; Backup database file deleted");
    assert_eq!(live.get(&"keep".to_string()), Some("k".to_string()));
    let mut empty = store(&[]);
    assert_eq!(apply_store_ops(&mut empty, &clear_ops()), 1);
    assert_eq!(cleared_message(1, false), "Logout successful: Main database cleaned 1 items");
}

#[test]
fn kill_and_launch_messages() {
    assert_eq!(kill_message(&Ok("Successfully closed x".to_string())), "Successfully closed x");
    assert_eq!(
        kill_message(&Err(AgentError::NotFound("Antigravity process not found".to_string()))),
        "Antigravity process not running"
    );
    assert_eq!(
        kill_message(&Err(AgentError::ProcessControlFailure("boom".to_string()))),
        "Failed to kill Antigravity process: boom"
    );
    assert_eq!(launch_message(&Ok("up".to_string())), "up");
    assert_eq!(launch_message(&Err("x".to_string())), "Failed to start: x");
}

#[test]
fn backup_named_after_email() {
    match backup_for("user@example.com", "QUJD") {
        Ok(b) => {
            assert_eq!(b.file_name, "user@example.com.json");
            let v: serde_json::Value = serde_json::from_str(&b.content).unwrap();
            assert_eq!(v[AGENT_STATE_KEY], "QUJD");
            assert_eq!(v.as_object().unwrap().len(), 1);
        }
        Err(e) => panic!("unexpected {:?}", e),
    }
    assert!(matches!(backup_for("", "QUJD"), Err(AgentError::DecodeFailure(_))));
}

#[test]
fn config_paths() {
    assert_eq!(get_log_directory("/home/u/.antigravity-agent"), "/home/u/.antigravity-agent/logs");
    assert_eq!(get_app_settings_file("/c/"), "/c/app_settings.json");
    assert_eq!(get_window_state_file("c"), "c/window_state.json");
    assert_eq!(get_antigravity_path_file(""), "antigravity_path.json");
    assert_eq!(join_path("C:\\cfg\\", "x"), "C:\\cfg\\x");
    let m = ConfigManager::new("/cfg".to_string()).unwrap();
    assert_eq!(m.window_state_file(), "/cfg/window_state.json");
}

#[test]
fn store_directory_by_platform() {
    let c = Some("/home/u/.config".to_string());
    let d = Some("/home/u/.local/share".to_string());
    assert_eq!(
        antigravity_data_dir_from(TargetOs::Linux, c.clone(), d.clone()),
        Some("/home/u/.config/Antigravity/User/globalStorage".to_string())
    );
    assert_eq!(
        antigravity_data_dir_from(TargetOs::Linux, None, d.clone()),
        Some("/home/u/.local/share/Antigravity/User/globalStorage".to_string())
    );
    assert_eq!(
        antigravity_data_dir_from(TargetOs::MacOs, c.clone(), d.clone()),
        Some("/home/u/.local/share/Antigravity/User/globalStorage".to_string())
    );
    assert_eq!(antigravity_data_dir_from(TargetOs::Windows, None, d), None);
}

#[test]
fn process_matching_by_platform() {
    let linux = get_antigravity_process_patterns(TargetOs::Linux);
    assert!(matches_antigravity_process("antigravity", "", &linux));
    assert!(matches_antigravity_process("bash", "/opt/Antigravity.AppImage --x", &linux));
    assert!(!matches_antigravity_process("Antigravity", "/usr/bin/other", &linux));
    let win = get_antigravity_process_patterns(TargetOs::Windows);
    assert!(matches_antigravity_process("Antigravity.exe", "", &win));
    assert!(!matches_antigravity_process("antigravity.exe", "Antigravity.exe", &win));
    let mac = get_antigravity_process_patterns(TargetOs::MacOs);
    assert!(matches_antigravity_process(
        "Antigravity Helper (GPU)",
        "/Applications/Antigravity.app/Contents/Frameworks/Antigravity Helper (GPU).app/x",
        &mac
    ));
    assert!(!matches_antigravity_process("Electron", "/Applications/Other.app/Contents/MacOS/Electron", &mac));
    assert!(!matches_antigravity_process("Antigravity", "", &[]));
}

#[test]
fn kill_reports() {
    assert!(matches!(kill_outcome(0, &vec![]), Err(AgentError::NotFound(_))));
    let resisted = kill_outcome(2, &vec![]);
    assert!(matches!(&resisted, Err(AgentError::ProcessControlFailure(m)) if !m.contains("not found")));
    assert_eq!(
        kill_message(&resisted),
        "Failed to kill Antigravity process: Could not stop the matching Antigravity processes"
    );
    let killed = vec![killed_label("antigravity", 42, false), killed_label("antigravity", 7, true)];
    assert_eq!(
        kill_outcome(3, &killed),
        Ok("Successfully closed Antigravity processes: antigravity (PID: 42), antigravity (PID: 7 - forced)".to_string())
    );
}

#[test]
fn switch_goes_on_when_processes_resist() {
    let mut live = store(&[]);
    let r = run_switch("acct", &mut live, Some(backup_doc("QUJD")), kill_outcome(1, &vec![]), Ok("up".to_string()));
    assert_eq!(
        r,
        Ok("Failed to kill Antigravity process: Could not stop the matching Antigravity processes -> Restored account acct -> up".to_string())
    );
}

#[test]
fn tray_email_masking() {
    assert_eq!(mask_email("a@domain.com"), "a*@domain.com");
    assert_eq!(mask_email("ab@domain.com"), "a*@domain.com");
    assert_eq!(mask_email("user@domain.com"), "u***r@domain.com");
    assert_eq!(mask_email("@domain.com"), "@domain.com");
    assert_eq!(mask_email("no-at-sign"), "no-at-sign");
    assert_eq!(mask_email("a@b@c"), "a@b@c");
}

#[test]
fn log_masking_pieces() {
    assert_eq!(sanitize_email_match("a@domain.com"), "a@domain.com");
    assert_eq!(sanitize_email_match("ab@domain.com"), "a*@domain.com");
    assert_eq!(sanitize_email_match("abcdef@d.io"), "a***f@d.io");
    assert_eq!(sanitize_email_match("user@domain.com"), "u***r@domain.com");
    assert_eq!(sanitize_email_match("abc@d.io"), "a***c@d.io");
    assert_eq!(sanitize_email_match("very.long.email@domain.com"), "v***l@domain.com");
    assert_eq!(mask_api_key("token", "abcdefgh"), "tokenabcd****");
    assert_eq!(mask_api_key("key", "abc"), "keyabc");
}

#[test]
fn log_messages_are_masked() {
    let s = LogSanitizer::new();
    assert_eq!(s.sanitize_email("mail ab@example.com now"), "mail a*@example.com now");
    assert_eq!(s.sanitize_paths("/home/alice/.antigravity-agent/x"), "~/.antigravity-agent/x");
    assert_eq!(
        s.sanitize_api_keys("token=abcdefghijklmnopqrstuvwxyz"),
        "tokenabcd**********************"
    );
    assert_eq!(sanitize_log_message("nothing to hide"), "nothing to hide");
    assert_eq!(sanitize_log_message("user@domain.com"), "u***r@domain.com");
    assert_eq!(sanitize_log_message("ab@example.com at /home/bob/f"), "a*@example.com at ~/f");
}

#[test]
fn executable_candidates_by_platform() {
    let dirs = UserDirs {
        local_data: Some("C:\\Users\\k\\AppData\\Local".to_string()),
        home: Some("/home/k".to_string()),
        program_files: None,
        program_files_x86: Some("C:\\Program Files (x86)".to_string()),
    };
    let win = antigravity_executable_paths(TargetOs::Windows, &dirs);
    assert_eq!(win.len(), 4);
    assert_eq!(win[0], "C:\\Users\\k\\AppData\\Local/Programs/Antigravity/Antigravity.exe");
    assert_eq!(win[3], "C:\\Program Files (x86)/Antigravity/Antigravity.exe");
    let linux = antigravity_executable_paths(TargetOs::Linux, &dirs);
    assert_eq!(linux.len(), 9);
    assert_eq!(linux[0], "/usr/bin/antigravity");
    assert_eq!(linux[3], "/home/k/.local/bin/antigravity");
    assert_eq!(linux[8], "/home/k/.local/share/flatpak/exports/bin/antigravity");
    let no_home = UserDirs { local_data: None, home: None, program_files: None, program_files_x86: None };
    assert_eq!(antigravity_executable_paths(TargetOs::MacOs, &no_home).len(), 4);
    assert!(antigravity_executable_paths(TargetOs::Other, &dirs).is_empty());
}

#[test]
fn store_directory_on_this_machine() {
    if let Some(dir) = get_antigravity_data_dir(TargetOs::Linux) {
        assert!(dir.ends_with("Antigravity/User/globalStorage"));
        assert_eq!(get_antigravity_db_path(TargetOs::Linux), Some(format!("{dir}/state.vscdb")));
    }
}
