//! Physical keys, and the names by which a hotkey refers to them.
use vstd::prelude::*;

use crate::text::{lower_of, lowercase, same_text};

verus! {

/// A physical key as the key-event source reports it. `Unknown` carries the
/// code of a key that has no variant of its own.
#[derive(Clone, Copy, Debug, PartialEq, Eq, Structural, Hash)]
pub enum Key {
    Alt,
    AltGr,
    Backspace,
    CapsLock,
    ControlLeft,
    ControlRight,
    Delete,
    DownArrow,
    End,
    Escape,
    F1,
    F10,
    F11,
    F12,
    F2,
    F3,
    F4,
    F5,
    F6,
    F7,
    F8,
    F9,
    Home,
    LeftArrow,
    MetaLeft,
    MetaRight,
    PageDown,
    PageUp,
    Return,
    RightArrow,
    ShiftLeft,
    ShiftRight,
    Space,
    Tab,
    UpArrow,
    PrintScreen,
    ScrollLock,
    Pause,
    NumLock,
    BackQuote,
    Num1,
    Num2,
    Num3,
    Num4,
    Num5,
    Num6,
    Num7,
    Num8,
    Num9,
    Num0,
    Minus,
    Equal,
    KeyQ,
    KeyW,
    KeyE,
    KeyR,
    KeyT,
    KeyY,
    KeyU,
    KeyI,
    KeyO,
    KeyP,
    LeftBracket,
    RightBracket,
    KeyA,
    KeyS,
    KeyD,
    KeyF,
    KeyG,
    KeyH,
    KeyJ,
    KeyK,
    KeyL,
    SemiColon,
    Quote,
    BackSlash,
    IntlBackslash,
    KeyZ,
    KeyX,
    KeyC,
    KeyV,
    KeyB,
    KeyN,
    KeyM,
    Comma,
    Dot,
    Slash,
    Insert,
    KpReturn,
    KpMinus,
    KpPlus,
    KpMultiply,
    KpDivide,
    Kp0,
    Kp1,
    Kp2,
    Kp3,
    Kp4,
    Kp5,
    Kp6,
    Kp7,
    Kp8,
    Kp9,
    KpDelete,
    Function,
    Unknown(u32),
}

/// The key that a one-character name stands for: a lowercase letter or a digit.
pub open spec fn key_of_char(c: char) -> Option<Key> {
    match c {
        'a' => Some(Key::KeyA),
        'b' => Some(Key::KeyB),
        'c' => Some(Key::KeyC),
        'd' => Some(Key::KeyD),
        'e' => Some(Key::KeyE),
        'f' => Some(Key::KeyF),
        'g' => Some(Key::KeyG),
        'h' => Some(Key::KeyH),
        'i' => Some(Key::KeyI),
        'j' => Some(Key::KeyJ),
        'k' => Some(Key::KeyK),
        'l' => Some(Key::KeyL),
        'm' => Some(Key::KeyM),
        'n' => Some(Key::KeyN),
        'o' => Some(Key::KeyO),
        'p' => Some(Key::KeyP),
        'q' => Some(Key::KeyQ),
        'r' => Some(Key::KeyR),
        's' => Some(Key::KeyS),
        't' => Some(Key::KeyT),
        'u' => Some(Key::KeyU),
        'v' => Some(Key::KeyV),
        'w' => Some(Key::KeyW),
        'x' => Some(Key::KeyX),
        'y' => Some(Key::KeyY),
        'z' => Some(Key::KeyZ),
        '0' => Some(Key::Num0),
        '1' => Some(Key::Num1),
        '2' => Some(Key::Num2),
        '3' => Some(Key::Num3),
        '4' => Some(Key::Num4),
        '5' => Some(Key::Num5),
        '6' => Some(Key::Num6),
        '7' => Some(Key::Num7),
        '8' => Some(Key::Num8),
        '9' => Some(Key::Num9),
        _ => None,
    }
}

/// The key that a lowercase name stands for in a hotkey: a letter, a digit, a
/// function key or one of the named keys. Any other name stands for none.
pub open spec fn key_of_name(t: Seq<char>) -> Option<Key> {
    if t.len() == 1 {
        key_of_char(t[0])
    } else if t == "f1"@ {
        Some(Key::F1)
    } else if t == "f2"@ {
        Some(Key::F2)
    } else if t == "f3"@ {
        Some(Key::F3)
    } else if t == "f4"@ {
        Some(Key::F4)
    } else if t == "f5"@ {
        Some(Key::F5)
    } else if t == "f6"@ {
        Some(Key::F6)
    } else if t == "f7"@ {
        Some(Key::F7)
    } else if t == "f8"@ {
        Some(Key::F8)
    } else if t == "f9"@ {
        Some(Key::F9)
    } else if t == "f10"@ {
        Some(Key::F10)
    } else if t == "f11"@ {
        Some(Key::F11)
    } else if t == "f12"@ {
        Some(Key::F12)
    } else if t == "space"@ {
        Some(Key::Space)
    } else if t == "enter"@ {
        Some(Key::Return)
    } else if t == "tab"@ {
        Some(Key::Tab)
    } else if t == "backspace"@ {
        Some(Key::Backspace)
    } else if t == "escape"@ {
        Some(Key::Escape)
    } else if t == "insert"@ {
        Some(Key::Insert)
    } else if t == "delete"@ {
        Some(Key::Delete)
    } else if t == "home"@ {
        Some(Key::Home)
    } else if t == "end"@ {
        Some(Key::End)
    } else if t == "pageup"@ {
        Some(Key::PageUp)
    } else if t == "pagedown"@ {
        Some(Key::PageDown)
    } else if t == "up"@ {
        Some(Key::UpArrow)
    } else if t == "down"@ {
        Some(Key::DownArrow)
    } else if t == "left"@ {
        Some(Key::LeftArrow)
    } else if t == "right"@ {
        Some(Key::RightArrow)
    } else {
        None
    }
}

fn key_from_char(c: char) -> (r: Option<Key>)
    ensures
        r == key_of_char(c),
{
    match c {
        'a' => Some(Key::KeyA),
        'b' => Some(Key::KeyB),
        'c' => Some(Key::KeyC),
        'd' => Some(Key::KeyD),
        'e' => Some(Key::KeyE),
        'f' => Some(Key::KeyF),
        'g' => Some(Key::KeyG),
        'h' => Some(Key::KeyH),
        'i' => Some(Key::KeyI),
        'j' => Some(Key::KeyJ),
        'k' => Some(Key::KeyK),
        'l' => Some(Key::KeyL),
        'm' => Some(Key::KeyM),
        'n' => Some(Key::KeyN),
        'o' => Some(Key::KeyO),
        'p' => Some(Key::KeyP),
        'q' => Some(Key::KeyQ),
        'r' => Some(Key::KeyR),
        's' => Some(Key::KeyS),
        't' => Some(Key::KeyT),
        'u' => Some(Key::KeyU),
        'v' => Some(Key::KeyV),
        'w' => Some(Key::KeyW),
        'x' => Some(Key::KeyX),
        'y' => Some(Key::KeyY),
        'z' => Some(Key::KeyZ),
        '0' => Some(Key::Num0),
        '1' => Some(Key::Num1),
        '2' => Some(Key::Num2),
        '3' => Some(Key::Num3),
        '4' => Some(Key::Num4),
        '5' => Some(Key::Num5),
        '6' => Some(Key::Num6),
        '7' => Some(Key::Num7),
        '8' => Some(Key::Num8),
        '9' => Some(Key::Num9),
        _ => None,
    }
}

/// The key that an already lowercased name stands for.
pub fn key_from_name(name: &str) -> (r: Option<Key>)
    ensures
        r == key_of_name(name@),
{
    if name.unicode_len() == 1 {
        key_from_char(name.get_char(0))
    } else if same_text(name, "f1") {
        Some(Key::F1)
    } else if same_text(name, "f2") {
        Some(Key::F2)
    } else if same_text(name, "f3") {
        Some(Key::F3)
    } else if same_text(name, "f4") {
        Some(Key::F4)
    } else if same_text(name, "f5") {
        Some(Key::F5)
    } else if same_text(name, "f6") {
        Some(Key::F6)
    } else if same_text(name, "f7") {
        Some(Key::F7)
    } else if same_text(name, "f8") {
        Some(Key::F8)
    } else if same_text(name, "f9") {
        Some(Key::F9)
    } else if same_text(name, "f10") {
        Some(Key::F10)
    } else if same_text(name, "f11") {
        Some(Key::F11)
    } else if same_text(name, "f12") {
        Some(Key::F12)
    } else if same_text(name, "space") {
        Some(Key::Space)
    } else if same_text(name, "enter") {
        Some(Key::Return)
    } else if same_text(name, "tab") {
        Some(Key::Tab)
    } else if same_text(name, "backspace") {
        Some(Key::Backspace)
    } else if same_text(name, "escape") {
        Some(Key::Escape)
    } else if same_text(name, "insert") {
        Some(Key::Insert)
    } else if same_text(name, "delete") {
        Some(Key::Delete)
    } else if same_text(name, "home") {
        Some(Key::Home)
    } else if same_text(name, "end") {
        Some(Key::End)
    } else if same_text(name, "pageup") {
        Some(Key::PageUp)
    } else if same_text(name, "pagedown") {
        Some(Key::PageDown)
    } else if same_text(name, "up") {
        Some(Key::UpArrow)
    } else if same_text(name, "down") {
        Some(Key::DownArrow)
    } else if same_text(name, "left") {
        Some(Key::LeftArrow)
    } else if same_text(name, "right") {
        Some(Key::RightArrow)
    } else {
        None
    }
}

/// The key that a name stands for, whatever its case.
pub fn str_to_key(key_str: &str) -> (r: Option<Key>)
    ensures
        r == key_of_name(lower_of(key_str@)),
{
    let lowered = lowercase(key_str);
    key_from_name(lowered.as_str())
}

} // verus!
