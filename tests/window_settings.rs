use antigravity_agent::settings::{
    default_private_mode, load_settings_from_disk, AppSettings, AppSettingsManager, SettingsChange,
};
use antigravity_agent::state::AppState;
use antigravity_agent::tray::SystemTrayManager;
use antigravity_agent::window::{
    load_window_state, save_window_state, CloseAction, WindowPersister, WindowState, DEBOUNCE_MS,
};

fn ws(x: i32, y: i32, width: u32, height: u32) -> WindowState {
    WindowState { x, y, width, height, maximized: false }
}

#[test]
fn size_bounds_are_inclusive() {
    assert!(ws(0, 0, 400, 400).is_valid());
    assert!(ws(0, 0, 4000, 3000).is_valid());
    assert!(!ws(0, 0, 399, 600).is_valid());
    assert!(!ws(0, 0, 800, 399).is_valid());
    assert!(!ws(0, 0, 4001, 600).is_valid());
    assert!(!ws(0, 0, 800, 3001).is_valid());
}

#[test]
fn hidden_positions_are_invalid() {
    assert!(!ws(-32000, -32000, 800, 600).is_valid());
    assert!(!ws(-1000, 0, 800, 600).is_valid());
    assert!(!ws(0, 10000, 800, 600).is_valid());
    assert!(ws(-999, 9999, 800, 600).is_valid());
}

#[test]
fn invalid_state_leaves_saved_state_untouched() {
    let good = ws(10, 20, 800, 600);
    let mut saved = Some(good);
    assert!(!save_window_state(ws(-32000, 0, 800, 600), &mut saved));
    assert_eq!(saved, Some(good));
    let newer = ws(30, 40, 1024, 768);
    assert!(save_window_state(newer, &mut saved));
    assert_eq!(saved, Some(newer));
}

#[test]
fn load_falls_back_to_default() {
    let d = WindowState::default();
    assert_eq!(d, WindowState { x: 100, y: 100, width: 800, height: 600, maximized: false });
    assert_eq!(load_window_state(None), d);
    assert_eq!(load_window_state(Some(ws(0, 0, 10, 10))), d);
    let good = WindowState { x: 5, y: 6, width: 1200, height: 900, maximized: true };
    assert_eq!(load_window_state(Some(good)), good);
}

#[test]
fn three_quick_changes_give_one_write_of_the_last_geometry() {
    let mut p = WindowPersister::new();
    p.finish_restore();
    let geometries = [ws(1, 1, 800, 600), ws(2, 2, 900, 700), ws(3, 3, 1000, 800)];
    let mut timers = Vec::new();
    for (i, g) in geometries.iter().enumerate() {
        timers.push(p.schedule_save(200 * i as u64, *g));
    }
    assert_eq!(timers, vec![2000, 2200, 2400]);
    let mut saved = None;
    let mut writes = 0;
    // each event's timer fires a quiet period after it
    for t in timers {
        if let Some(state) = p.save_due(t) {
            if save_window_state(state, &mut saved) {
                writes += 1;
            }
        }
    }
    assert_eq!(writes, 1);
    assert_eq!(saved, Some(geometries[2]));
    assert_eq!(p.save_due(10_000), None);
}

#[test]
fn no_save_while_restoring() {
    let mut p = WindowPersister::new();
    assert!(p.is_restoring());
    p.schedule_save(0, ws(1, 1, 800, 600));
    assert_eq!(p.save_due(DEBOUNCE_MS), None);
    p.finish_restore();
    assert_eq!(p.save_due(DEBOUNCE_MS + 1), None);
    p.schedule_save(5000, ws(2, 2, 800, 600));
    assert_eq!(p.save_due(6999), None);
    assert_eq!(p.save_due(7000), Some(ws(2, 2, 800, 600)));
}

#[test]
fn close_with_tray_hides_without_writing() {
    let p = WindowPersister::new();
    let mut saved: Option<WindowState> = None;
    let mut writes = 0;
    match p.on_close_requested(true) {
        CloseAction::HideToTray => {}
        CloseAction::SaveThenClose => {
            if save_window_state(ws(1, 1, 800, 600), &mut saved) {
                writes += 1;
            }
        }
    }
    assert_eq!(writes, 0);
    assert_eq!(saved, None);
}

#[test]
fn close_without_tray_writes_once() {
    let p = WindowPersister::new();
    let mut saved: Option<WindowState> = None;
    let mut writes = 0;
    if p.on_close_requested(false) == CloseAction::SaveThenClose {
        if save_window_state(ws(1, 1, 800, 600), &mut saved) {
            writes += 1;
        }
    }
    assert_eq!(writes, 1);
    assert_eq!(saved, Some(ws(1, 1, 800, 600)));
}

#[test]
fn settings_defaults() {
    assert!(default_private_mode());
    let d = AppSettings::default();
    assert!(!d.system_tray_enabled && !d.silent_start_enabled && !d.debug_mode && d.private_mode);
    assert_eq!(load_settings_from_disk(None), d);
}

#[test]
fn validate_clears_silent_start_without_tray() {
    let mut s = AppSettings { system_tray_enabled: false, silent_start_enabled: true, debug_mode: true, private_mode: false };
    assert!(s.validate());
    assert!(!s.silent_start_enabled);
    assert!(s.debug_mode && !s.private_mode);
    assert!(!s.validate());
    let mut t = AppSettings { system_tray_enabled: true, silent_start_enabled: true, debug_mode: false, private_mode: true };
    assert!(!t.validate());
    assert!(t.silent_start_enabled);
}

#[test]
fn settings_round_trip() {
    let written = AppSettings { system_tray_enabled: true, silent_start_enabled: true, debug_mode: true, private_mode: false };
    let m = AppSettingsManager::new("cfg/app_settings.json".to_string(), Some(written));
    assert_eq!(m.get_settings(), written);
    let bad = AppSettings { system_tray_enabled: false, silent_start_enabled: true, debug_mode: false, private_mode: true };
    let m2 = AppSettingsManager::new("cfg/app_settings.json".to_string(), Some(bad));
    assert_eq!(m2.get_settings(), AppSettings { silent_start_enabled: false, ..bad });
    assert_eq!(m2.config_path(), "cfg/app_settings.json");
}

#[test]
fn update_settings_corrects_and_reports() {
    let mut m = AppSettingsManager::new("s.json".to_string(), None);
    assert!(m.update_settings(SettingsChange::SilentStart(true)));
    assert!(!m.get_settings().silent_start_enabled);
    assert!(!m.update_settings(SettingsChange::SystemTray(true)));
    assert!(!m.update_settings(SettingsChange::SilentStart(true)));
    assert!(m.get_settings().silent_start_enabled);
    assert!(m.update_settings(SettingsChange::SystemTray(false)));
    assert!(!m.get_settings().silent_start_enabled);
    assert!(!m.update_settings(SettingsChange::DebugMode(true)));
    assert!(!m.update_settings(SettingsChange::PrivateMode(false)));
    let s = m.get_settings();
    assert!(s.debug_mode && !s.private_mode);
    let tray = SystemTrayManager::new();
    assert!(!tray.is_enabled_setting(&s));
}

#[test]
fn app_state_starts_empty() {
    let st = AppState::new("/home/u/.antigravity-agent".to_string());
    assert!(st.profiles.is_empty());
    assert!(st.antigravity_accounts.is_empty());
    assert_eq!(st.config_dir, "/home/u/.antigravity-agent");
    assert_eq!(st.current_account_id, None);
}
