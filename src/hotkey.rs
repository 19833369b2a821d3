//! Hotkeys: what a hotkey text asks for, and whether the live key state
//! meets it.
use vstd::prelude::*;

use crate::keys::{key_from_name, key_of_name, Key};
use crate::modifiers::ModifierState;
use crate::pressed::PressedKeys;
use crate::text::{lower_of, lowercase, same_text, split_words, words_of};

verus! {

/// What a hotkey text asks for: an exact set of modifiers and one trigger
/// key. `key` is `None` when the text names no key that is known, and such a
/// hotkey never matches.
#[derive(Clone, Copy, Debug, PartialEq, Eq, Structural)]
pub struct Hotkey {
    pub mods: ModifierState,
    pub key: Option<Key>,
}

/// No modifier asked for, no key named.
pub open spec fn blank_hotkey() -> Hotkey {
    Hotkey { mods: ModifierState::none_spec(), key: None }
}

/// What a lowercase token adds to a hotkey read so far: a modifier alias
/// sets its role (`super` and `win` stand for meta); any other token names
/// the trigger key, and replaces the one named before it.
pub open spec fn with_token(h: Hotkey, t: Seq<char>) -> Hotkey {
    if t == "shift"@ {
        Hotkey { mods: ModifierState { shift: true, ..h.mods }, ..h }
    } else if t == "ctrl"@ {
        Hotkey { mods: ModifierState { ctrl: true, ..h.mods }, ..h }
    } else if t == "alt"@ {
        Hotkey { mods: ModifierState { alt: true, ..h.mods }, ..h }
    } else if t == "meta"@ || t == "super"@ || t == "win"@ {
        Hotkey { mods: ModifierState { meta: true, ..h.mods }, ..h }
    } else {
        Hotkey { key: key_of_name(t), ..h }
    }
}

/// The hotkey that a sequence of lowercase tokens describes, read left to
/// right.
pub open spec fn hotkey_of_tokens(tokens: Seq<Seq<char>>) -> Hotkey
    decreases tokens.len(),
{
    if tokens.len() == 0 {
        blank_hotkey()
    } else {
        with_token(hotkey_of_tokens(tokens.drop_last()), tokens.last())
    }
}

/// The hotkey that a hotkey text describes: its whitespace-separated words,
/// each lowercased.
pub open spec fn hotkey_of_text(s: Seq<char>) -> Hotkey {
    hotkey_of_tokens(words_of(s).map_values(|w: Seq<char>| lower_of(w)))
}

/// Whether the live state meets a hotkey: the held modifiers are exactly the
/// ones asked for, and the trigger key is held.
pub open spec fn hotkey_matches(pressed: Set<Key>, mods: ModifierState, h: Hotkey) -> bool {
    &&& mods == h.mods
    &&& h.key is Some
    &&& pressed.contains(h.key->0)
}

impl Hotkey {
    /// Reads a hotkey from tokens that are already lowercase.
    pub fn from_tokens(tokens: &Vec<String>) -> (r: Hotkey)
        ensures
            r == hotkey_of_tokens(tokens@.map_values(|t: String| t@)),
    {
        let ghost toks = tokens@.map_values(|t: String| t@);
        let mut h = Hotkey { mods: ModifierState::none(), key: None };
        let mut i: usize = 0;
        assert(toks.subrange(0, 0) =~= Seq::<Seq<char>>::empty());
        while i < tokens.len()
            invariant
                i <= tokens@.len(),
                toks == tokens@.map_values(|t: String| t@),
                h == hotkey_of_tokens(toks.subrange(0, i as int)),
            decreases tokens@.len() - i,
        {
            let t = tokens[i].as_str();
            assert(toks.subrange(0, i + 1).drop_last() =~= toks.subrange(0, i as int));
            assert(toks.subrange(0, i + 1).last() == t@);
            if same_text(t, "shift") {
                h.mods.shift = true;
            } else if same_text(t, "ctrl") {
                h.mods.ctrl = true;
            } else if same_text(t, "alt") {
                h.mods.alt = true;
            } else if same_text(t, "meta") || same_text(t, "super") || same_text(t, "win") {
                h.mods.meta = true;
            } else {
                h.key = key_from_name(t);
            }
            i = i + 1;
        }
        assert(toks.subrange(0, i as int) =~= toks);
        h
    }

    /// Reads a hotkey text: its whitespace-separated words, lowercased.
    pub fn parse(hotkey_str: &str) -> (r: Hotkey)
        ensures
            r == hotkey_of_text(hotkey_str@),
    {
        let words = split_words(hotkey_str);
        let ghost wv = words@.map_values(|w: String| w@);
        let mut lowered: Vec<String> = Vec::new();
        let mut i: usize = 0;
        while i < words.len()
            invariant
                i <= words@.len(),
                wv == words@.map_values(|w: String| w@),
                lowered@.len() == i,
                forall|j: int| 0 <= j < i ==> #[trigger] lowered@[j]@ == lower_of(wv[j]),
            decreases words@.len() - i,
        {
            lowered.push(lowercase(words[i].as_str()));
            i = i + 1;
        }
        assert(lowered@.map_values(|t: String| t@) =~= words_of(hotkey_str@).map_values(
            |w: Seq<char>| lower_of(w),
        ));
        Hotkey::from_tokens(&lowered)
    }

    /// Whether the live state meets this hotkey.
    pub fn is_met(&self, pressed_keys: &PressedKeys, modifiers: &ModifierState) -> (r: bool)
        ensures
            r == hotkey_matches(pressed_keys@, *modifiers, *self),
    {
        if !modifiers.matches(&self.mods) {
            return false;
        }
        match self.key {
            Some(k) => pressed_keys.contains(&k),
            None => false,
        }
    }
}

/// A hotkey is met only with exactly its modifiers held, neither fewer nor
/// more; with its trigger key held, exactly then.
pub proof fn lemma_modifiers_match_exactly(pressed: Set<Key>, held: ModifierState, h: Hotkey)
    ensures
        hotkey_matches(pressed, held, h) ==> held == h.mods,
        h.key is Some && pressed.contains(h.key->0) ==> (hotkey_matches(pressed, held, h) <==> held
            == h.mods),
{
}

/// Whether the live state meets the hotkey that `hotkey_str` describes.
pub fn check_hotkey(pressed_keys: &PressedKeys, modifiers: &ModifierState, hotkey_str: &str) -> (r:
    bool)
    ensures
        r == hotkey_matches(pressed_keys@, *modifiers, hotkey_of_text(hotkey_str@)),
{
    Hotkey::parse(hotkey_str).is_met(pressed_keys, modifiers)
}

} // verus!
