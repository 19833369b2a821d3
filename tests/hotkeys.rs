use kbd_switcher::{check_hotkey, str_to_key, Hotkey, Key, KeyListener, ModifierState, PressedKeys};

fn held(keys: &[Key]) -> PressedKeys {
    let mut p = PressedKeys::new();
    for k in keys {
        p.insert(*k);
    }
    p
}

fn mods(shift: bool, ctrl: bool, alt: bool, meta: bool) -> ModifierState {
    ModifierState { shift, ctrl, alt, meta }
}

#[test]
fn extra_modifier_fails_match() {
    let p = held(&[Key::ControlLeft, Key::ShiftLeft, Key::KeyQ]);
    assert!(!check_hotkey(&p, &mods(true, true, false, false), "ctrl q"));
}

#[test]
fn missing_modifier_fails_match() {
    let p = held(&[Key::ControlLeft, Key::KeyQ]);
    assert!(!check_hotkey(&p, &mods(false, true, false, false), "ctrl shift q"));
}

#[test]
fn exact_modifiers_and_key_match() {
    let p = held(&[Key::ControlLeft, Key::ShiftRight, Key::KeyQ]);
    assert!(check_hotkey(&p, &mods(true, true, false, false), "ctrl shift q"));
}

#[test]
fn trigger_key_must_be_held() {
    let p = held(&[Key::ControlLeft, Key::ShiftRight]);
    assert!(!check_hotkey(&p, &mods(true, true, false, false), "ctrl shift q"));
}

#[test]
fn hotkey_text_is_case_insensitive() {
    let p = held(&[Key::ControlLeft, Key::ShiftLeft, Key::KeyQ]);
    assert!(check_hotkey(&p, &mods(true, true, false, false), "CTRL Shift Q"));
}

#[test]
fn any_whitespace_separates_tokens() {
    let h = Hotkey::parse("  ctrl\tshift \n q ");
    assert_eq!(h.mods, mods(true, true, false, false));
    assert_eq!(h.key, Some(Key::KeyQ));
}

#[test]
fn unicode_white_space_separates_tokens() {
    let h = Hotkey::parse("ctrl\u{3000}alt\u{a0}x");
    assert_eq!(h.mods, mods(false, true, true, false));
    assert_eq!(h.key, Some(Key::KeyX));
}

#[test]
fn super_and_win_stand_for_meta() {
    assert_eq!(Hotkey::parse("super a").mods, mods(false, false, false, true));
    assert_eq!(Hotkey::parse("win a").mods, mods(false, false, false, true));
    assert_eq!(Hotkey::parse("meta alt f5").mods, mods(false, false, true, true));
    assert_eq!(Hotkey::parse("meta alt f5").key, Some(Key::F5));
}

#[test]
fn last_key_token_wins() {
    let h = Hotkey::parse("ctrl a q");
    assert_eq!(h.key, Some(Key::KeyQ));
    let p = held(&[Key::KeyA]);
    assert!(!check_hotkey(&p, &mods(false, true, false, false), "ctrl a q"));
}

#[test]
fn unknown_key_never_matches() {
    let h = Hotkey::parse("ctrl bogus");
    assert_eq!(h.key, None);
    let p = held(&[Key::ControlLeft]);
    assert!(!check_hotkey(&p, &mods(false, true, false, false), "ctrl bogus"));
    assert!(!check_hotkey(&p, &mods(false, true, false, false), "ctrl"));
}

#[test]
fn empty_hotkey_text_never_matches() {
    let p = held(&[]);
    assert!(!check_hotkey(&p, &ModifierState::none(), ""));
    assert_eq!(Hotkey::parse("").key, None);
}

#[test]
fn key_names() {
    assert_eq!(str_to_key("Q"), Some(Key::KeyQ));
    assert_eq!(str_to_key("7"), Some(Key::Num7));
    assert_eq!(str_to_key("F12"), Some(Key::F12));
    assert_eq!(str_to_key("f1"), Some(Key::F1));
    assert_eq!(str_to_key("Enter"), Some(Key::Return));
    assert_eq!(str_to_key("pagedown"), Some(Key::PageDown));
    assert_eq!(str_to_key("up"), Some(Key::UpArrow));
    assert_eq!(str_to_key("f13"), None);
    assert_eq!(str_to_key("ctrl"), None);
    assert_eq!(str_to_key(""), None);
}

#[test]
fn modifier_flags_follow_presses_and_releases() {
    let mut m = ModifierState::none();
    m.update(&Key::ShiftLeft, true);
    assert!(m.shift);
    m.update(&Key::ShiftLeft, true);
    m.update(&Key::ShiftRight, false);
    assert!(!m.shift);
    m.update(&Key::ShiftRight, false);
    assert!(!m.shift);
    m.update(&Key::AltGr, true);
    assert!(m.alt);
    m.update(&Key::MetaRight, true);
    m.update(&Key::ControlRight, true);
    assert_eq!(m, mods(false, true, true, true));
    m.update(&Key::KeyA, true);
    assert_eq!(m, mods(false, true, true, true));
}

#[test]
fn modifier_match_is_set_equality() {
    let live = mods(true, true, false, false);
    assert!(live.matches(&mods(true, true, false, false)));
    assert!(!live.matches(&mods(false, true, false, false)));
    assert!(!live.matches(&mods(true, true, true, false)));
}

#[test]
fn pressed_keys_insert_and_remove() {
    let mut p = PressedKeys::new();
    p.insert(Key::KeyA);
    p.insert(Key::KeyA);
    p.insert(Key::Unknown(42));
    assert!(p.contains(&Key::KeyA));
    p.remove(&Key::KeyA);
    assert!(!p.contains(&Key::KeyA));
    assert!(p.contains(&Key::Unknown(42)));
    assert!(!p.contains(&Key::Unknown(41)));
    p.remove(&Key::KeyB);
    assert!(p.contains(&Key::Unknown(42)));
}

const MS: u64 = 1_000_000;

fn press_hotkey(l: &mut KeyListener, now: u64) -> bool {
    l.on_key_press(Key::ControlLeft, Some("ctrl shift q"), now);
    l.on_key_press(Key::ShiftLeft, Some("ctrl shift q"), now);
    let fire = l.on_key_press(Key::KeyQ, Some("ctrl shift q"), now);
    l.on_key_release(&Key::KeyQ);
    l.on_key_release(&Key::ShiftLeft);
    l.on_key_release(&Key::ControlLeft);
    fire
}

#[test]
fn two_triggers_200ms_apart_fire_once() {
    let mut l = KeyListener::new();
    let first = press_hotkey(&mut l, 5_000 * MS);
    let second = press_hotkey(&mut l, 5_200 * MS);
    assert!(first);
    assert!(!second);
    assert_eq!(l.debounce.last_fire(), Some(5_000 * MS));
}

#[test]
fn two_triggers_1100ms_apart_fire_twice() {
    let mut l = KeyListener::new();
    assert!(press_hotkey(&mut l, 5_000 * MS));
    assert!(press_hotkey(&mut l, 6_100 * MS));
    assert_eq!(l.debounce.last_fire(), Some(6_100 * MS));
}

#[test]
fn first_trigger_fires_right_after_start() {
    let mut l = KeyListener::new();
    assert_eq!(l.debounce.last_fire(), None);
    assert!(press_hotkey(&mut l, 500 * MS));
    assert!(!press_hotkey(&mut l, 1_000 * MS));
    assert!(press_hotkey(&mut l, 1_501 * MS));
}

#[test]
fn exactly_the_cooldown_does_not_fire() {
    let mut l = KeyListener::new();
    assert!(press_hotkey(&mut l, 2_000 * MS));
    assert!(!press_hotkey(&mut l, 3_000 * MS));
}

#[test]
fn clock_going_back_does_not_fire() {
    let mut l = KeyListener::new();
    assert!(press_hotkey(&mut l, 5_000 * MS));
    assert!(!press_hotkey(&mut l, 1_000 * MS));
}

#[test]
fn held_key_repeat_fires_once() {
    let mut l = KeyListener::new();
    l.on_key_press(Key::ControlLeft, Some("ctrl q"), 2_000 * MS);
    let a = l.on_key_press(Key::KeyQ, Some("ctrl q"), 2_000 * MS);
    let b = l.on_key_press(Key::KeyQ, Some("ctrl q"), 2_030 * MS);
    let c = l.on_key_press(Key::KeyQ, Some("ctrl q"), 2_060 * MS);
    assert!(a && !b && !c);
}

#[test]
fn no_bound_hotkey_never_fires() {
    let mut l = KeyListener::new();
    l.on_key_press(Key::ControlLeft, None, 5_000 * MS);
    assert!(!l.on_key_press(Key::KeyQ, None, 5_000 * MS));
    assert!(l.pressed_keys.contains(&Key::KeyQ));
    assert!(l.modifiers.ctrl);
}
