use antigravity_agent::account::{sign_in_kill_step, sign_in_message, AgentError, AGENT_STATE_KEY};
use antigravity_agent::backup::{
    decode_session, decrypt_bytes, decrypt_config_data, encrypt_config_data,
    get_antigravity_accounts, is_json_name, migration_step, resolve_store_path,
    save_antigravity_current_account, xor_bytes, BackupListing, MigrationStep, RestoreResult,
};
use antigravity_agent::tray::{tray_account_items, tray_menu_command, TrayCommand};

fn doc(value: &str) -> String {
    format!("{{\"{}\": \"{}\"}}", AGENT_STATE_KEY, value)
}

#[test]
fn export_cipher_round_trip() {
    let data = "{\"accounts\":[\"é\",1]}";
    let enc = encrypt_config_data(data, "pw").unwrap();
    assert_ne!(enc, data);
    assert_eq!(decrypt_config_data(&enc, "pw"), Ok(data.to_string()));
    assert_eq!(encrypt_config_data("", "k"), Ok(String::new()));
}

#[test]
fn export_cipher_exact_value() {
    // 'a' ^ 'k' = 0x0a, 'b' ^ 'k' = 0x09
    assert_eq!(xor_bytes(b"ab", b"k"), vec![0x0a, 0x09]);
    assert_eq!(encrypt_config_data("ab", "k"), Ok("Cgk=".to_string()));
    assert_eq!(decrypt_config_data("Cgk=", "k"), Ok("ab".to_string()));
}

#[test]
fn export_cipher_errors() {
    assert_eq!(encrypt_config_data("x", ""), Err("Password cannot be empty".to_string()));
    assert_eq!(decrypt_config_data("Cgk=", ""), Err("Password cannot be empty".to_string()));
    assert_eq!(decrypt_config_data("%%%", "k"), Err("Base64 decoding failed".to_string()));
    assert_eq!(
        decrypt_bytes(&[0xff ^ b'k'], "k"),
        Err("Decryption failed, data may be corrupted".to_string())
    );
}

#[test]
fn session_values_decode_after_trimming() {
    assert_eq!(decode_session("  QUJD\n"), Ok(b"ABC".to_vec()));
    assert!(matches!(decode_session("not base64!"), Err(AgentError::DecodeFailure(_))));
}

#[test]
fn current_account_backup() {
    assert!(matches!(save_antigravity_current_account(None, "a@b.c"), Err(AgentError::NotFound(_))));
    assert!(matches!(
        save_antigravity_current_account(Some("@@".to_string()), "a@b.c"),
        Err(AgentError::DecodeFailure(_))
    ));
    assert!(matches!(
        save_antigravity_current_account(Some("QUJD".to_string()), ""),
        Err(AgentError::DecodeFailure(_))
    ));
    let b = save_antigravity_current_account(Some("QUJD".to_string()), "a@b.c").unwrap();
    assert_eq!(b.file_name, "a@b.c.json");
    let v: serde_json::Value = serde_json::from_str(&b.content).unwrap();
    assert_eq!(v[AGENT_STATE_KEY], "QUJD");
}

#[test]
fn store_path_resolution() {
    assert_eq!(resolve_store_path(Some("/a".to_string()), &vec!["/b".to_string()]), Ok("/a".to_string()));
    assert_eq!(resolve_store_path(None, &vec!["/b".to_string(), "/c".to_string()]), Ok("/b".to_string()));
    assert!(matches!(resolve_store_path(None, &vec![]), Err(AgentError::NotFound(_))));
}

#[test]
fn accounts_listed_newest_first_skipping_malformed() {
    let files = vec![
        BackupListing { modified: 10, content: doc("OLD") },
        BackupListing { modified: 30, content: "not json".to_string() },
        BackupListing { modified: 50, content: doc("NEW") },
        BackupListing { modified: 20, content: "{\"other\": 1}".to_string() },
        BackupListing { modified: 30, content: doc("MID") },
    ];
    let listed = get_antigravity_accounts(&files);
    assert_eq!(
        listed,
        vec![(50, "NEW".to_string()), (30, "MID".to_string()), (10, "OLD".to_string())]
    );
    assert!(get_antigravity_accounts(&vec![]).is_empty());
}

#[test]
fn json_file_names() {
    assert!(is_json_name("a.json", false));
    assert!(!is_json_name("a.JSON", false));
    assert!(is_json_name("a.JSON", true));
    assert!(!is_json_name(".json", true));
    assert!(!is_json_name("a.json.bak", true));
    assert!(!is_json_name("ajson", false));
}

#[test]
fn legacy_backup_migration_steps() {
    assert!(matches!(migration_step(&Err("denied".to_string()), false), MigrationStep::Ignore));
    assert!(matches!(migration_step(&Ok("{\"x\":1}".to_string()), false), MigrationStep::Ignore));
    assert!(matches!(migration_step(&Ok(doc("S")), true), MigrationStep::SkipExisting));
    let with_extra = format!("{{\"{}\": \"S\", \"extra\": 2}}", AGENT_STATE_KEY);
    match migration_step(&Ok(with_extra), false) {
        MigrationStep::Write(text) => {
            let v: serde_json::Value = serde_json::from_str(&text).unwrap();
            assert_eq!(v.as_object().unwrap().len(), 1);
            assert_eq!(v[AGENT_STATE_KEY], "S");
        }
        _ => panic!("expected a write"),
    }
}

#[test]
fn restore_result_counts() {
    let mut r = RestoreResult::new();
    r.record_restored();
    r.record_restored();
    r.record_failed("a.json".to_string(), "Failed to write file".to_string());
    assert_eq!(r.restored_count, 2);
    assert_eq!(r.failed.len(), 1);
    assert_eq!(r.failed[0].filename, "a.json");
}

#[test]
fn sign_in_flow_messages() {
    assert_eq!(
        sign_in_kill_step(&Err(AgentError::NotFound("Antigravity process not found".to_string()))),
        Ok("Antigravity process not running".to_string())
    );
    assert_eq!(sign_in_kill_step(&Ok("closed 1".to_string())), Ok("closed 1".to_string()));
    assert_eq!(
        sign_in_kill_step(&Err(AgentError::ProcessControlFailure("denied".to_string()))),
        Err("Error closing processes: denied".to_string())
    );
    assert_eq!(
        sign_in_message("k", &Some("saved".to_string()), &Ok("started".to_string())),
        "k -> Backup completed: saved -> Clearing data completed -> started"
    );
    assert_eq!(
        sign_in_message("k", &None, &Err("x".to_string())),
        "k -> No login user detected (skipping backup) -> Clearing data completed -> Start failed: x"
    );
}

#[test]
fn tray_menu() {
    assert!(matches!(tray_menu_command("show_main"), TrayCommand::ShowMain));
    assert!(matches!(tray_menu_command("quit"), TrayCommand::Quit));
    assert!(matches!(tray_menu_command("account_a@b.com"), TrayCommand::SwitchAccount(e) if e == "a@b.com"));
    assert!(matches!(tray_menu_command("account"), TrayCommand::Unknown));
    let items = tray_account_items(&vec!["user@domain.com".to_string()]);
    assert_eq!(items.len(), 1);
    assert_eq!(items[0].id, "account_user@domain.com");
    assert_eq!(items[0].label, "u***r@domain.com");
}
