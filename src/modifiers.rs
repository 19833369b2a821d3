//! The live modifier flags, driven by key presses and releases.
use vstd::prelude::*;

use crate::keys::Key;

verus! {

/// Which of the four modifier roles are held: shift, ctrl, alt and meta.
/// Also used for the set of modifiers that a hotkey asks for.
#[derive(Clone, Copy, Debug, PartialEq, Eq, Structural)]
pub struct ModifierState {
    pub shift: bool,
    pub ctrl: bool,
    pub alt: bool,
    pub meta: bool,
}

impl ModifierState {
    /// The flags after `key` went down (`is_press`) or up. Each role has two
    /// physical keys; any other key leaves the flags as they are.
    pub open spec fn after_key(self, key: Key, is_press: bool) -> ModifierState {
        match key {
            Key::ShiftLeft | Key::ShiftRight => ModifierState { shift: is_press, ..self },
            Key::ControlLeft | Key::ControlRight => ModifierState { ctrl: is_press, ..self },
            Key::Alt | Key::AltGr => ModifierState { alt: is_press, ..self },
            Key::MetaLeft | Key::MetaRight => ModifierState { meta: is_press, ..self },
            _ => self,
        }
    }

    /// No modifier held.
    pub open spec fn none_spec() -> ModifierState {
        ModifierState { shift: false, ctrl: false, alt: false, meta: false }
    }

    /// No modifier held.
    pub fn none() -> (r: ModifierState)
        ensures
            r == ModifierState::none_spec(),
    {
        ModifierState { shift: false, ctrl: false, alt: false, meta: false }
    }

    /// Sets the flag of the key's role to `is_press`, whatever it was.
    pub fn update(&mut self, key: &Key, is_press: bool)
        ensures
            *final(self) == old(self).after_key(*key, is_press),
    {
        match key {
            Key::ShiftLeft | Key::ShiftRight => self.shift = is_press,
            Key::ControlLeft | Key::ControlRight => self.ctrl = is_press,
            Key::Alt | Key::AltGr => self.alt = is_press,
            Key::MetaLeft | Key::MetaRight => self.meta = is_press,
            _ => {},
        }
    }

    /// Whether the held modifiers are exactly the required ones: a missing
    /// one and an extra one both fail.
    pub fn matches(&self, required_mods: &ModifierState) -> (r: bool)
        ensures
            r == (*self == *required_mods),
    {
        required_mods.shift == self.shift && required_mods.ctrl == self.ctrl
            && required_mods.alt == self.alt && required_mods.meta == self.meta
    }
}

} // verus!
