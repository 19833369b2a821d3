//! Per-window keyboard layout switching: the decisions behind it, kept apart
//! from the windowing system, the key-event source and the disk.
//!
//! - [`config`]: the mapping store.
//! - [`focus`]: the focus-change reactor.
//! - [`hotkey`]: hotkey texts and matching them against the live keys.
//! - [`keys`]: the physical keys and the names a hotkey may give them.
//! - [`listener`]: the key-event listener: its state, decisions and cooldown.
//! - [`modifiers`]: the live shift / ctrl / alt / meta flags.
//! - [`pressed`]: the set of keys held down.
//! - [`text`]: the text operations of std that the library relies on.
//! - [`window`]: window identity from window properties.
pub mod config;
pub mod focus;
pub mod hotkey;
pub mod keys;
pub mod listener;
pub mod modifiers;
pub mod pressed;
pub mod text;
pub mod window;

pub use config::AppConfig;
pub use focus::{FocusAction, FocusReactor};
pub use hotkey::{check_hotkey, Hotkey};
pub use keys::{key_from_name, str_to_key, Key};
pub use listener::{Debounce, KeyListener, HOTKEY_COOLDOWN_NANOS};
pub use modifiers::ModifierState;
pub use pressed::PressedKeys;
pub use window::{window_class_from_property, window_from_active_property};
