//! The mapping store: which layout each window class gets, and the hotkey
//! bound to each action.
use vstd::prelude::*;

use crate::text::{lower_of, lowercase, same_text};

verus! {

/// The map that a list of entries gives when they are put in one after the
/// other: a later entry replaces an earlier one with the same key.
pub open spec fn map_of<V>(s: Seq<(Seq<char>, V)>) -> Map<Seq<char>, V>
    decreases s.len(),
{
    if s.len() == 0 {
        Map::empty()
    } else {
        map_of(s.drop_last()).insert(s.last().0, s.last().1)
    }
}

/// No two entries share a key.
pub open spec fn keys_unique<V>(s: Seq<(Seq<char>, V)>) -> bool {
    forall|i: int, j: int|
        0 <= i < s.len() && 0 <= j < s.len() && i != j ==> #[trigger] s[i].0 != #[trigger] s[j].0
}

/// What a map holds under a key, if anything.
pub open spec fn lookup<V>(m: Map<Seq<char>, V>, k: Seq<char>) -> Option<V> {
    if m.contains_key(k) {
        Some(m[k])
    } else {
        None
    }
}

/// After a window class is mapped to a layout, it reads back as that layout,
/// and every class whose lowercase form differs reads back as before.
pub proof fn lemma_upsert_then_lookup(
    window_layout_map: Map<Seq<char>, u8>,
    window_class: Seq<char>,
    layout: u8,
    other: Seq<char>,
)
    ensures
        lookup(window_layout_map.insert(lower_of(window_class), layout), lower_of(window_class))
            == Some(layout),
        lower_of(other) != lower_of(window_class) ==> lookup(
            window_layout_map.insert(lower_of(window_class), layout),
            lower_of(other),
        ) == lookup(window_layout_map, lower_of(other)),
{
}

/// Entries that hold the same pairs, each key once, give the same map
/// whatever order they come in: a configuration read back from its entries
/// does not depend on the order they were written in.
pub proof fn lemma_entry_order_irrelevant<V>(a: Seq<(Seq<char>, V)>, b: Seq<(Seq<char>, V)>)
    requires
        keys_unique(a),
        keys_unique(b),
        a.to_set() == b.to_set(),
    ensures
        map_of(a) == map_of(b),
{
    assert forall|k: Seq<char>| #[trigger] map_of(a).contains_key(k) implies map_of(b).contains_key(k)
        && map_of(b)[k] == map_of(a)[k] by {
        lemma_map_of_found(a, k);
        let i = choose|i: int| 0 <= i < a.len() && a[i].0 == k;
        lemma_map_of_at(a, i);
        assert(b.to_set().contains(a[i]));
        let j = choose|j: int| 0 <= j < b.len() && b[j] == a[i];
        lemma_map_of_at(b, j);
    }
    assert forall|k: Seq<char>| #[trigger] map_of(b).contains_key(k) implies map_of(a).contains_key(k) by {
        lemma_map_of_found(b, k);
        let j = choose|j: int| 0 <= j < b.len() && b[j].0 == k;
        assert(a.to_set().contains(b[j]));
        let i = choose|i: int| 0 <= i < a.len() && a[i] == b[j];
        lemma_map_of_at(a, i);
    }
    assert(map_of(a) =~= map_of(b));
}

/// A key in the map is the key of some entry.
proof fn lemma_map_of_found<V>(s: Seq<(Seq<char>, V)>, k: Seq<char>)
    requires
        map_of(s).contains_key(k),
    ensures
        exists|i: int| 0 <= i < s.len() && s[i].0 == k,
    decreases s.len(),
{
    if s.last().0 != k {
        let d = s.drop_last();
        lemma_map_of_found(d, k);
        let i = choose|i: int| 0 <= i < d.len() && d[i].0 == k;
        assert(s[i] == d[i]);
    }
}

/// Window-class entries, as text and layout.
pub open spec fn layout_entries_view(s: Seq<(String, u8)>) -> Seq<(Seq<char>, u8)> {
    s.map_values(|e: (String, u8)| (e.0@, e.1))
}

/// Window-class entries with each class in lowercase, as the configuration
/// keeps them.
pub open spec fn folded_entries_view(s: Seq<(String, u8)>) -> Seq<(Seq<char>, u8)> {
    s.map_values(|e: (String, u8)| (lower_of(e.0@), e.1))
}

/// Hotkey entries, as texts.
pub open spec fn hotkey_entries_view(s: Seq<(String, String)>) -> Seq<(Seq<char>, Seq<char>)> {
    s.map_values(|e: (String, String)| (e.0@, e.1@))
}

/// A key that no entry has is not in the map.
proof fn lemma_map_of_absent<V>(s: Seq<(Seq<char>, V)>, k: Seq<char>)
    requires
        forall|i: int| 0 <= i < s.len() ==> s[i].0 != k,
    ensures
        !map_of(s).contains_key(k),
    decreases s.len(),
{
    if s.len() > 0 {
        let d = s.drop_last();
        assert forall|i: int| 0 <= i < d.len() implies d[i].0 != k by {
            assert(d[i] == s[i]);
        }
        lemma_map_of_absent(d, k);
    }
}

/// Where keys are unique, each entry is what the map holds under its key.
proof fn lemma_map_of_at<V>(s: Seq<(Seq<char>, V)>, i: int)
    requires
        keys_unique(s),
        0 <= i < s.len(),
    ensures
        map_of(s).contains_key(s[i].0),
        map_of(s)[s[i].0] == s[i].1,
    decreases s.len(),
{
    if i < s.len() - 1 {
        let d = s.drop_last();
        assert(d[i] == s[i]);
        assert(s[i].0 != s[s.len() - 1].0);
        assert(keys_unique(d)) by {
            assert forall|a: int, b: int|
                0 <= a < d.len() && 0 <= b < d.len() && a != b implies #[trigger] d[a].0
                != #[trigger] d[b].0 by {
                assert(d[a] == s[a] && d[b] == s[b]);
            }
        }
        lemma_map_of_at(d, i);
    }
}

/// Where keys are unique, replacing the value of one entry replaces it in
/// the map.
proof fn lemma_map_of_update<V>(s: Seq<(Seq<char>, V)>, i: int, v: V)
    requires
        keys_unique(s),
        0 <= i < s.len(),
    ensures
        map_of(s.update(i, (s[i].0, v))) == map_of(s).insert(s[i].0, v),
    decreases s.len(),
{
    let t = s.update(i, (s[i].0, v));
    let d = s.drop_last();
    if i == s.len() - 1 {
        assert(t.drop_last() =~= d);
        assert(map_of(t) =~= map_of(s).insert(s[i].0, v));
    } else {
        assert(t.drop_last() =~= d.update(i, (d[i].0, v)));
        assert(keys_unique(d)) by {
            assert forall|a: int, b: int|
                0 <= a < d.len() && 0 <= b < d.len() && a != b implies #[trigger] d[a].0
                != #[trigger] d[b].0 by {
                assert(d[a] == s[a] && d[b] == s[b]);
            }
        }
        lemma_map_of_update(d, i, v);
        assert(s[i].0 != s[s.len() - 1].0);
        assert(map_of(t) =~= map_of(s).insert(s[i].0, v));
    }
}

/// The index of the entry whose key is `key`, if there is one.
fn find_key<V>(entries: &Vec<(String, V)>, key: &str) -> (r: Option<usize>)
    ensures
        match r {
            Some(i) => i < entries@.len() && entries@[i as int].0@ == key@,
            None => forall|i: int| 0 <= i < entries@.len() ==> entries@[i].0@ != key@,
        },
{
    let mut i: usize = 0;
    while i < entries.len()
        invariant
            i <= entries@.len(),
            forall|j: int| 0 <= j < i ==> entries@[j].0@ != key@,
        decreases entries@.len() - i,
    {
        if same_text(entries[i].0.as_str(), key) {
            return Some(i);
        }
        i = i + 1;
    }
    None
}

/// What a configuration holds: a layout for each window class, and a hotkey
/// text for each action.
pub ghost struct ConfigView {
    pub window_layout_map: Map<Seq<char>, u8>,
    pub hotkeys: Map<Seq<char>, Seq<char>>,
}

/// The persisted configuration: window class to layout, and action name to
/// hotkey text. Each key is held once; window classes are kept in lowercase.
///
/// Both maps are kept as `Vec`s of entries, not `HashMap`s: vstd's contracts
/// for std's hash maps prove nothing for `String` keys, while entry lists
/// with the held-once invariant are maps that every step here can be proved
/// against. The order of entries carries no meaning.
pub struct AppConfig {
    window_layout_map: Vec<(String, u8)>,
    hotkeys: Vec<(String, String)>,
}

impl View for AppConfig {
    type V = ConfigView;

    closed spec fn view(&self) -> ConfigView {
        ConfigView {
            window_layout_map: map_of(layout_entries_view(self.window_layout_map@)),
            hotkeys: map_of(hotkey_entries_view(self.hotkeys@)),
        }
    }
}

impl AppConfig {
    #[verifier::type_invariant]
    spec fn keys_held_once(&self) -> bool {
        &&& keys_unique(layout_entries_view(self.window_layout_map@))
        &&& keys_unique(hotkey_entries_view(self.hotkeys@))
    }

    /// No window mapped and no hotkey bound.
    pub fn new() -> (r: AppConfig)
        ensures
            r@.window_layout_map == Map::<Seq<char>, u8>::empty(),
            r@.hotkeys == Map::<Seq<char>, Seq<char>>::empty(),
    {
        let r = AppConfig { window_layout_map: Vec::new(), hotkeys: Vec::new() };
        assert(layout_entries_view(r.window_layout_map@) =~= Seq::empty());
        assert(hotkey_entries_view(r.hotkeys@) =~= Seq::empty());
        r
    }

    /// The layout mapped to a window class, if any. Classes are compared in
    /// lowercase.
    pub fn get_layout(&self, window_class: &str) -> (r: Option<u8>)
        ensures
            r == lookup(self@.window_layout_map, lower_of(window_class@)),
    {
        proof {
            use_type_invariant(self);
        }
        let key = lowercase(window_class);
        let ghost s = layout_entries_view(self.window_layout_map@);
        match find_key(&self.window_layout_map, key.as_str()) {
            Some(i) => {
                proof {
                    lemma_map_of_at(s, i as int);
                }
                Some(self.window_layout_map[i].1)
            },
            None => {
                proof {
                    assert forall|j: int| 0 <= j < s.len() implies s[j].0 != key@ by {
                        assert(s[j].0 == self.window_layout_map@[j].0@);
                    }
                    lemma_map_of_absent(s, key@);
                }
                None
            },
        }
    }

    /// Maps a window class, in lowercase, to a layout, in place of any layout
    /// it had; the other entries stay.
    pub fn upsert(&mut self, window_class: String, layout: u8)
        ensures
            final(self)@.window_layout_map == old(self)@.window_layout_map.insert(
                lower_of(window_class@),
                layout,
            ),
            final(self)@.hotkeys == old(self)@.hotkeys,
    {
        proof {
            use_type_invariant(&*self);
        }
        let key = lowercase(window_class.as_str());
        let ghost s = layout_entries_view(self.window_layout_map@);
        let mut entries: Vec<(String, u8)> = Vec::new();
        std::mem::swap(&mut entries, &mut self.window_layout_map);
        match find_key(&entries, key.as_str()) {
            Some(i) => {
                entries.set(i, (key, layout));
                proof {
                    assert(layout_entries_view(entries@) =~= s.update(i as int, (s[i as int].0, layout)));
                    lemma_map_of_update(s, i as int, layout);
                }
            },
            None => {
                let ghost k = key@;
                entries.push((key, layout));
                proof {
                    let t = layout_entries_view(entries@);
                    assert(t =~= s.push((k, layout)));
                    assert(t.drop_last() =~= s);
                    assert forall|a: int, b: int|
                        0 <= a < t.len() && 0 <= b < t.len() && a != b implies #[trigger] t[a].0
                        != #[trigger] t[b].0 by {
                        if a < s.len() && b < s.len() {
                            assert(t[a] == s[a] && t[b] == s[b]);
                        } else if a < s.len() {
                            assert(t[a].0 == entries@[a].0@);
                        } else {
                            assert(t[b].0 == entries@[b].0@);
                        }
                    }
                }
            },
        }
        self.window_layout_map = entries;
    }

    /// Binds a hotkey text to an action, in place of any it had; the other
    /// entries stay.
    pub fn set_hotkey(&mut self, action: String, hotkey: String)
        ensures
            final(self)@.hotkeys == old(self)@.hotkeys.insert(action@, hotkey@),
            final(self)@.window_layout_map == old(self)@.window_layout_map,
    {
        proof {
            use_type_invariant(&*self);
        }
        let ghost s = hotkey_entries_view(self.hotkeys@);
        let mut entries: Vec<(String, String)> = Vec::new();
        std::mem::swap(&mut entries, &mut self.hotkeys);
        match find_key(&entries, action.as_str()) {
            Some(i) => {
                let ghost h = hotkey@;
                entries.set(i, (action, hotkey));
                proof {
                    assert(hotkey_entries_view(entries@) =~= s.update(i as int, (s[i as int].0, h)));
                    lemma_map_of_update(s, i as int, h);
                }
            },
            None => {
                let ghost k = action@;
                let ghost h = hotkey@;
                entries.push((action, hotkey));
                proof {
                    let t = hotkey_entries_view(entries@);
                    assert(t =~= s.push((k, h)));
                    assert(t.drop_last() =~= s);
                    assert forall|a: int, b: int|
                        0 <= a < t.len() && 0 <= b < t.len() && a != b implies #[trigger] t[a].0
                        != #[trigger] t[b].0 by {
                        if a < s.len() && b < s.len() {
                            assert(t[a] == s[a] && t[b] == s[b]);
                        } else if a < s.len() {
                            assert(t[a].0 == entries@[a].0@);
                        } else {
                            assert(t[b].0 == entries@[b].0@);
                        }
                    }
                }
            },
        }
        self.hotkeys = entries;
    }

    /// The hotkey text bound to an action, if any.
    pub fn hotkey(&self, action: &str) -> (r: Option<String>)
        ensures
            match r {
                Some(h) => lookup(self@.hotkeys, action@) == Some(h@),
                None => lookup(self@.hotkeys, action@) is None,
            },
    {
        proof {
            use_type_invariant(self);
        }
        let ghost s = hotkey_entries_view(self.hotkeys@);
        match find_key(&self.hotkeys, action) {
            Some(i) => {
                proof {
                    lemma_map_of_at(s, i as int);
                }
                Some(self.hotkeys[i].1.clone())
            },
            None => {
                proof {
                    assert forall|j: int| 0 <= j < s.len() implies s[j].0 != action@ by {
                        assert(s[j].0 == self.hotkeys@[j].0@);
                    }
                    lemma_map_of_absent(s, action@);
                }
                None
            },
        }
    }

    /// The configuration that a missing file is replaced by: no window
    /// mapped, and `ctrl shift q` bound to `add_window`.
    pub fn with_default_hotkey() -> (r: AppConfig)
        ensures
            r@.window_layout_map == Map::<Seq<char>, u8>::empty(),
            r@.hotkeys == map!["add_window"@ => "ctrl shift q"@],
    {
        let mut r = AppConfig::new();
        r.set_hotkey(String::from_str("add_window"), String::from_str("ctrl shift q"));
        assert(r@.hotkeys =~= map!["add_window"@ => "ctrl shift q"@]);
        r
    }

    /// The window-class entries, each class once.
    pub fn window_entries(&self) -> (r: Vec<(String, u8)>)
        ensures
            keys_unique(layout_entries_view(r@)),
            map_of(layout_entries_view(r@)) == self@.window_layout_map,
    {
        proof {
            use_type_invariant(self);
        }
        let mut r: Vec<(String, u8)> = Vec::new();
        let mut i: usize = 0;
        while i < self.window_layout_map.len()
            invariant
                i <= self.window_layout_map@.len(),
                r@.len() == i,
                layout_entries_view(r@) == layout_entries_view(self.window_layout_map@).subrange(0, i as int),
            decreases self.window_layout_map@.len() - i,
        {
            let ghost before = r@;
            let e = &self.window_layout_map[i];
            r.push((e.0.clone(), e.1));
            assert(layout_entries_view(r@) =~= layout_entries_view(before).push((e.0@, e.1)));
            i = i + 1;
            assert(layout_entries_view(r@) =~= layout_entries_view(self.window_layout_map@).subrange(0, i as int));
        }
        assert(layout_entries_view(r@) =~= layout_entries_view(self.window_layout_map@));
        r
    }

    /// The hotkey entries, each action once.
    pub fn hotkey_entries(&self) -> (r: Vec<(String, String)>)
        ensures
            keys_unique(hotkey_entries_view(r@)),
            map_of(hotkey_entries_view(r@)) == self@.hotkeys,
    {
        proof {
            use_type_invariant(self);
        }
        let mut r: Vec<(String, String)> = Vec::new();
        let mut i: usize = 0;
        while i < self.hotkeys.len()
            invariant
                i <= self.hotkeys@.len(),
                r@.len() == i,
                hotkey_entries_view(r@) == hotkey_entries_view(self.hotkeys@).subrange(0, i as int),
            decreases self.hotkeys@.len() - i,
        {
            let ghost before = r@;
            let e = &self.hotkeys[i];
            r.push((e.0.clone(), e.1.clone()));
            assert(hotkey_entries_view(r@) =~= hotkey_entries_view(before).push((e.0@, e.1@)));
            i = i + 1;
            assert(hotkey_entries_view(r@) =~= hotkey_entries_view(self.hotkeys@).subrange(0, i as int));
        }
        assert(hotkey_entries_view(r@) =~= hotkey_entries_view(self.hotkeys@));
        r
    }

    /// The configuration that lists of entries give, put in in order, each
    /// window class in lowercase: where a key comes twice, the later entry
    /// holds.
    pub fn from_entries(windows: &Vec<(String, u8)>, hotkeys: &Vec<(String, String)>) -> (r: AppConfig)
        ensures
            r@.window_layout_map == map_of(folded_entries_view(windows@)),
            r@.hotkeys == map_of(hotkey_entries_view(hotkeys@)),
    {
        let mut r = AppConfig::new();
        let ghost ws = folded_entries_view(windows@);
        let ghost hs = hotkey_entries_view(hotkeys@);
        let mut i: usize = 0;
        assert(ws.subrange(0, 0) =~= Seq::<(Seq<char>, u8)>::empty());
        while i < windows.len()
            invariant
                i <= windows@.len(),
                ws == folded_entries_view(windows@),
                r@.window_layout_map == map_of(ws.subrange(0, i as int)),
                r@.hotkeys == Map::<Seq<char>, Seq<char>>::empty(),
            decreases windows@.len() - i,
        {
            r.upsert(windows[i].0.clone(), windows[i].1);
            assert(ws.subrange(0, i + 1).drop_last() =~= ws.subrange(0, i as int));
            i = i + 1;
        }
        assert(ws.subrange(0, i as int) =~= ws);
        let mut j: usize = 0;
        assert(hs.subrange(0, 0) =~= Seq::<(Seq<char>, Seq<char>)>::empty());
        while j < hotkeys.len()
            invariant
                j <= hotkeys@.len(),
                hs == hotkey_entries_view(hotkeys@),
                r@.hotkeys == map_of(hs.subrange(0, j as int)),
                r@.window_layout_map == map_of(ws),
            decreases hotkeys@.len() - j,
        {
            r.set_hotkey(hotkeys[j].0.clone(), hotkeys[j].1.clone());
            assert(hs.subrange(0, j + 1).drop_last() =~= hs.subrange(0, j as int));
            j = j + 1;
        }
        assert(hs.subrange(0, j as int) =~= hs);
        r
    }
}

} // verus!
