//! The state that the key-event listener keeps between events, and what it
//! decides on each press and release.
use vstd::prelude::*;

use crate::hotkey::{check_hotkey, hotkey_matches, hotkey_of_text};
use crate::keys::Key;
use crate::modifiers::ModifierState;
use crate::pressed::PressedKeys;

verus! {

/// The least time, in nanoseconds, that must pass between two triggers of a
/// hotkey: a second trigger fires only once more than this has elapsed.
pub const HOTKEY_COOLDOWN_NANOS: u64 = 1_000_000_000;

/// Whether a trigger at `now` fires, given the time of the last trigger
/// that fired, if any: the first one always fires; a later one fires when the
/// clock has not gone back and more than the cooldown has elapsed.
pub open spec fn cooldown_over(last: Option<u64>, now: u64) -> bool {
    match last {
        None => true,
        Some(t) => now >= t && now - t > HOTKEY_COOLDOWN_NANOS,
    }
}

/// The time of the last trigger that fired, in nanoseconds on a clock that
/// the caller chooses; none before the first.
pub struct Debounce {
    last_fire: Option<u64>,
}

impl View for Debounce {
    type V = Option<u64>;

    closed spec fn view(&self) -> Option<u64> {
        self.last_fire
    }
}

impl Debounce {
    /// No trigger has fired yet.
    pub fn new() -> (r: Debounce)
        ensures
            r@ is None,
    {
        Debounce { last_fire: None }
    }

    /// The time of the last trigger that fired, if any.
    pub fn last_fire(&self) -> (r: Option<u64>)
        ensures
            r == self@,
    {
        self.last_fire
    }

    /// Fires if the cooldown is over, and only then moves the clock to `now`.
    pub fn try_fire(&mut self, now: u64) -> (fired: bool)
        ensures
            fired == cooldown_over(old(self)@, now),
            fired == (old(self)@ is None || (now >= old(self)@->0 && now - old(self)@->0
                > HOTKEY_COOLDOWN_NANOS)),
            final(self)@ == (if fired {
                Some(now)
            } else {
                old(self)@
            }),
    {
        let fire = match self.last_fire {
            None => true,
            Some(last) => now >= last && now - last > HOTKEY_COOLDOWN_NANOS,
        };
        if fire {
            self.last_fire = Some(now);
        }
        fire
    }
}

/// Once a trigger has fired at `first`, a second one `gap` nanoseconds later
/// fires if and only if the gap exceeds the cooldown.
pub proof fn lemma_cooldown_after_fire(last: Option<u64>, first: u64, gap: u64)
    requires
        cooldown_over(last, first),
        first + gap <= u64::MAX,
    ensures
        cooldown_over(Some(first), (first + gap) as u64) <==> gap > HOTKEY_COOLDOWN_NANOS,
{
}

/// What the listener holds: the keys down, the modifier flags and the
/// trigger clock.
pub struct KeyListener {
    pub pressed_keys: PressedKeys,
    pub modifiers: ModifierState,
    pub debounce: Debounce,
}

impl KeyListener {
    /// Nothing held, and no trigger fired yet.
    pub fn new() -> (r: KeyListener)
        ensures
            r.pressed_keys@ == Set::<Key>::empty(),
            r.modifiers == ModifierState::none_spec(),
            r.debounce@ is None,
    {
        KeyListener {
            pressed_keys: PressedKeys::new(),
            modifiers: ModifierState::none(),
            debounce: Debounce::new(),
        }
    }

    /// Takes a key press at time `now`, with the text of the hotkey that is
    /// bound, if any. Returns whether the bound action fires: the hotkey is
    /// met once the key is down, and the cooldown is over.
    pub fn on_key_press(&mut self, key: Key, hotkey: Option<&str>, now: u64) -> (fire: bool)
        ensures
            final(self).pressed_keys@ == old(self).pressed_keys@.insert(key),
            final(self).modifiers == old(self).modifiers.after_key(key, true),
            fire == (hotkey is Some && hotkey_matches(
                final(self).pressed_keys@,
                final(self).modifiers,
                hotkey_of_text(hotkey->0@),
            ) && cooldown_over(old(self).debounce@, now)),
            final(self).debounce@ == (if fire {
                Some(now)
            } else {
                old(self).debounce@
            }),
    {
        self.pressed_keys.insert(key);
        self.modifiers.update(&key, true);
        match hotkey {
            Some(text) => {
                if check_hotkey(&self.pressed_keys, &self.modifiers, text) {
                    self.debounce.try_fire(now)
                } else {
                    false
                }
            },
            None => false,
        }
    }

    /// Takes a key release.
    pub fn on_key_release(&mut self, key: &Key)
        ensures
            final(self).pressed_keys@ == old(self).pressed_keys@.remove(*key),
            final(self).modifiers == old(self).modifiers.after_key(*key, false),
            final(self).debounce@ == old(self).debounce@,
    {
        self.pressed_keys.remove(key);
        self.modifiers.update(key, false);
    }
}

} // verus!
