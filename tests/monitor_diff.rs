use antigravity_agent::monitor::{DatabaseMonitor, TickOutcome};
use antigravity_agent::snapshot::{decode_store_value, diff_snapshots, Snapshot};

fn rows(pairs: &[(&str, &str)]) -> Vec<(String, String)> {
    pairs.iter().map(|(k, v)| (k.to_string(), v.to_string())).collect()
}

fn snap(pairs: &[(&str, &str)]) -> Snapshot {
    Snapshot::from_rows(&rows(pairs))
}

#[test]
fn identical_reads_report_no_changes() {
    let a = snap(&[("auth", "{\"a\":1}"), ("plain", "hello")]);
    let b = snap(&[("auth", "{\"a\":1}"), ("plain", "hello")]);
    let d = diff_snapshots(&a, &b);
    assert!(!d.has_changes);
    assert!(d.changed_fields.is_empty());
    assert_eq!(d.summary, "No changes");
}

#[test]
fn one_changed_value_is_one_changed_entry() {
    let a = snap(&[("a", "1"), ("b", "2"), ("c", "3")]);
    let b = snap(&[("a", "1"), ("b", "20"), ("c", "3")]);
    let d = diff_snapshots(&a, &b);
    assert!(d.has_changes);
    assert_eq!(d.changed_fields, vec!["b: changed".to_string()]);
    assert_eq!(d.summary, "1 fields changed");
}

#[test]
fn added_and_removed_are_asymmetric() {
    let a = snap(&[("a", "1")]);
    let b = snap(&[("a", "1"), ("k", "x")]);
    assert_eq!(diff_snapshots(&a, &b).changed_fields, vec!["k: added".to_string()]);
    assert_eq!(diff_snapshots(&b, &a).changed_fields, vec!["k: removed".to_string()]);
}

#[test]
fn diff_lists_new_side_first_then_removed() {
    let a = snap(&[("gone", "1"), ("same", "2"), ("mod", "3")]);
    let b = snap(&[("mod", "4"), ("new", "5"), ("same", "2")]);
    let d = diff_snapshots(&a, &b);
    assert_eq!(
        d.changed_fields,
        vec!["mod: changed".to_string(), "new: added".to_string(), "gone: removed".to_string()]
    );
    assert_eq!(d.summary, "3 fields changed");
}

#[test]
fn reordered_json_keys_are_not_a_change() {
    let a = snap(&[("k", "{\"x\": 1, \"y\": [1, 2]}")]);
    let b = snap(&[("k", "{\"y\":[1,2],\"x\":1}")]);
    assert!(!diff_snapshots(&a, &b).has_changes);
}

#[test]
fn values_that_are_no_json_are_kept_as_strings() {
    assert_eq!(decode_store_value("not json{"), "\"not json{\"");
    assert_eq!(decode_store_value("{\"b\":1,\"a\":2}"), "{\"a\":2,\"b\":1}");
    assert_eq!(decode_store_value("\"x\""), decode_store_value("x"));
}

#[test]
fn later_row_of_a_key_wins() {
    let s = snap(&[("k", "1"), ("k", "2")]);
    assert_eq!(s.len(), 1);
    assert_eq!(s.get(&"k".to_string()), Some("2".to_string()));
}

#[test]
fn monitor_start_is_guarded() {
    let mut m = DatabaseMonitor::new();
    assert!(!m.is_running());
    let g = m.start_monitoring().expect("a loop to start");
    assert_eq!(m.start_monitoring(), None);
    assert!(m.is_running());
    m.stop_monitoring();
    assert!(!m.is_running());
    assert!(matches!(m.on_tick(g, Ok(snap(&[]))), TickOutcome::Stopped));
}

#[test]
fn restart_ends_the_old_loop() {
    let mut m = DatabaseMonitor::new();
    let old = m.start_monitoring().unwrap();
    m.stop_monitoring();
    let new = m.start_monitoring().unwrap();
    assert_ne!(old, new);
    assert!(matches!(m.on_tick(old, Ok(snap(&[("a", "1")]))), TickOutcome::Stopped));
    assert!(matches!(m.on_tick(new, Ok(snap(&[("a", "1")]))), TickOutcome::Baseline));
}

#[test]
fn monitor_ticks_baseline_then_changes() {
    let mut m = DatabaseMonitor::new();
    let g = m.start_monitoring().unwrap();
    assert!(matches!(m.on_tick(g, Ok(snap(&[("a", "1")]))), TickOutcome::Baseline));
    assert!(matches!(m.on_tick(g, Ok(snap(&[("a", "1")]))), TickOutcome::Unchanged));
    assert!(matches!(m.on_tick(g, Err("locked".to_string())), TickOutcome::ReadFailed(e) if e == "locked"));
    match m.on_tick(g, Ok(snap(&[("a", "2")]))) {
        TickOutcome::Changed(ev) => {
            assert_eq!(ev.diff.changed_fields, vec!["a: changed".to_string()]);
            assert_eq!(ev.old_data.get(&"a".to_string()), Some("1".to_string()));
            assert_eq!(ev.new_data.get(&"a".to_string()), Some("2".to_string()));
        }
        _ => panic!("expected a change"),
    }
    assert!(matches!(m.on_tick(g, Ok(snap(&[("a", "2")]))), TickOutcome::Unchanged));
}
