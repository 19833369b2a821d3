use kbd_switcher::{window_class_from_property, window_from_active_property, AppConfig, FocusAction, FocusReactor};

#[test]
fn default_config_has_one_hotkey_and_no_windows() {
    let cfg = AppConfig::with_default_hotkey();
    assert_eq!(cfg.hotkey("add_window"), Some("ctrl shift q".to_string()));
    assert_eq!(cfg.hotkey_entries().len(), 1);
    assert!(cfg.window_entries().is_empty());
    assert_eq!(cfg.get_layout("xterm"), None);
}

#[test]
fn upsert_then_get_layout() {
    let mut cfg = AppConfig::with_default_hotkey();
    cfg.upsert("foo".to_string(), 1);
    assert_eq!(cfg.get_layout("foo"), Some(1));
    assert_eq!(cfg.get_layout("bar"), None);
    assert_eq!(cfg.get_layout("Foo"), Some(1));
}

#[test]
fn window_classes_are_kept_in_lowercase() {
    let mut cfg = AppConfig::new();
    cfg.upsert("XTerm".to_string(), 2);
    cfg.upsert("xterm".to_string(), 3);
    assert_eq!(cfg.window_entries(), vec![("xterm".to_string(), 3u8)]);
    assert_eq!(cfg.get_layout("XTERM"), Some(3));
    let loaded = AppConfig::from_entries(&vec![("Firefox".to_string(), 1u8)], &Vec::new());
    assert_eq!(loaded.window_entries(), vec![("firefox".to_string(), 1u8)]);
    assert_eq!(FocusReactor::on_window_class(&loaded, Some("FireFox")), FocusAction::ReadLayout(1));
}

#[test]
fn upsert_overwrites_and_keeps_others() {
    let mut cfg = AppConfig::new();
    cfg.upsert("foo".to_string(), 1);
    cfg.upsert("bar".to_string(), 2);
    cfg.upsert("foo".to_string(), 3);
    assert_eq!(cfg.get_layout("foo"), Some(3));
    assert_eq!(cfg.get_layout("bar"), Some(2));
    assert_eq!(cfg.window_entries().len(), 2);
}

#[test]
fn remembered_window_survives_entry_round_trip() {
    let mut cfg = AppConfig::with_default_hotkey();
    cfg.upsert("foo".to_string(), 1);
    let back = AppConfig::from_entries(&cfg.window_entries(), &cfg.hotkey_entries());
    assert_eq!(back.get_layout("foo"), Some(1));
    assert_eq!(back.hotkey("add_window"), Some("ctrl shift q".to_string()));
}

#[test]
fn entry_round_trip_is_stable() {
    let mut cfg = AppConfig::with_default_hotkey();
    cfg.upsert("firefox".to_string(), 0);
    cfg.upsert("telegram".to_string(), 1);
    let once = AppConfig::from_entries(&cfg.window_entries(), &cfg.hotkey_entries());
    let twice = AppConfig::from_entries(&once.window_entries(), &once.hotkey_entries());
    let mut a = once.window_entries();
    let mut b = twice.window_entries();
    a.sort();
    b.sort();
    assert_eq!(a, b);
    assert_eq!(once.hotkey_entries(), twice.hotkey_entries());
}

#[test]
fn later_entry_wins_on_duplicate_key() {
    let windows = vec![("foo".to_string(), 1u8), ("bar".to_string(), 0u8), ("foo".to_string(), 2u8)];
    let hotkeys = vec![("add_window".to_string(), "ctrl q".to_string())];
    let cfg = AppConfig::from_entries(&windows, &hotkeys);
    assert_eq!(cfg.get_layout("foo"), Some(2));
    assert_eq!(cfg.get_layout("bar"), Some(0));
    assert_eq!(cfg.window_entries().len(), 2);
    assert_eq!(cfg.hotkey("add_window"), Some("ctrl q".to_string()));
}

#[test]
fn set_hotkey_replaces_binding() {
    let mut cfg = AppConfig::with_default_hotkey();
    cfg.set_hotkey("add_window".to_string(), "alt w".to_string());
    assert_eq!(cfg.hotkey("add_window"), Some("alt w".to_string()));
    assert_eq!(cfg.hotkey_entries().len(), 1);
    assert_eq!(cfg.hotkey("other"), None);
}

#[test]
fn repeated_focus_asks_once() {
    let mut r = FocusReactor::new();
    assert_eq!(r.handle_window_change(7), FocusAction::ResolveClass(7));
    assert_eq!(r.handle_window_change(7), FocusAction::Idle);
    assert_eq!(r.handle_window_change(7), FocusAction::Idle);
    assert_eq!(r.last_window_id(), Some(7));
    assert_eq!(r.handle_window_change(8), FocusAction::ResolveClass(8));
    assert_eq!(r.handle_window_change(7), FocusAction::ResolveClass(7));
}

#[test]
fn mapped_class_leads_to_layout_read() {
    let mut cfg = AppConfig::new();
    cfg.upsert("xterm".to_string(), 2);
    assert_eq!(FocusReactor::on_window_class(&cfg, Some("xterm")), FocusAction::ReadLayout(2));
    assert_eq!(FocusReactor::on_window_class(&cfg, Some("firefox")), FocusAction::Idle);
    assert_eq!(FocusReactor::on_window_class(&cfg, None), FocusAction::Idle);
}

#[test]
fn correct_layout_is_left_alone() {
    assert_eq!(FocusReactor::on_current_layout(1, Some(1)), FocusAction::Idle);
    assert_eq!(FocusReactor::on_current_layout(1, Some(0)), FocusAction::SetLayout(1));
    assert_eq!(FocusReactor::on_current_layout(1, None), FocusAction::Idle);
}

#[test]
fn class_taken_from_wm_class() {
    let v = b"xterm\0XTerm\0".to_vec();
    assert_eq!(window_class_from_property(8, &v), Some("xterm".to_string()));
    let v = b"navigator\0Firefox\0".to_vec();
    assert_eq!(window_class_from_property(8, &v), Some("firefox".to_string()));
}

#[test]
fn empty_class_falls_back_to_instance() {
    let v = b"Inst\0\0".to_vec();
    assert_eq!(window_class_from_property(8, &v), Some("inst".to_string()));
    let v = b"Inst\0".to_vec();
    assert_eq!(window_class_from_property(8, &v), Some("inst".to_string()));
}

#[test]
fn unusable_wm_class_gives_none() {
    assert_eq!(window_class_from_property(8, &b"noseparator".to_vec()), None);
    assert_eq!(window_class_from_property(8, &b"\0\0".to_vec()), None);
    assert_eq!(window_class_from_property(8, &Vec::new()), None);
    assert_eq!(window_class_from_property(32, &b"a\0B\0".to_vec()), None);
}

#[test]
fn invalid_utf8_in_class_is_replaced() {
    let v = vec![b'a', 0, 0xff, b'B', 0];
    assert_eq!(window_class_from_property(8, &v), Some("\u{fffd}b".to_string()));
}

#[test]
fn active_window_from_property() {
    let v = vec![0x01, 0x02, 0x03, 0x04, 0xff, 0xff, 0xff, 0xff];
    assert_eq!(
        window_from_active_property(32, &v),
        Some(u32::from_ne_bytes([0x01, 0x02, 0x03, 0x04]))
    );
    assert_eq!(window_from_active_property(32, &Vec::new()), None);
    assert_eq!(window_from_active_property(8, &v), None);
}
