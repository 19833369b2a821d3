//! The set of keys currently held down.
use vstd::prelude::*;

use crate::keys::Key;

verus! {

/// The keys that went down and have not come up since. Each key is listed
/// at most once.
///
/// The keys are kept in a `Vec`, not a `HashSet`: vstd's contracts for std's
/// hash sets prove nothing for a key type whose `Hash` and `Eq` come from
/// `derive`, while a `Vec` with the listed-once invariant is a set that every
/// step here can be proved against.
pub struct PressedKeys {
    keys: Vec<Key>,
}

impl View for PressedKeys {
    type V = Set<Key>;

    closed spec fn view(&self) -> Set<Key> {
        self.keys@.to_set()
    }
}

impl PressedKeys {
    #[verifier::type_invariant]
    spec fn listed_once(&self) -> bool {
        self.keys@.no_duplicates()
    }

    /// No key held.
    pub fn new() -> (r: PressedKeys)
        ensures
            r@ == Set::<Key>::empty(),
    {
        let r = PressedKeys { keys: Vec::new() };
        assert(r.keys@.to_set() =~= Set::<Key>::empty());
        r
    }

    fn position(&self, key: &Key) -> (r: Option<usize>)
        ensures
            match r {
                Some(i) => i < self.keys@.len() && self.keys@[i as int] == *key,
                None => !self.keys@.contains(*key),
            },
    {
        let mut i: usize = 0;
        while i < self.keys.len()
            invariant
                i <= self.keys@.len(),
                forall|j: int| 0 <= j < i ==> self.keys@[j] != *key,
            decreases self.keys@.len() - i,
        {
            if self.keys[i] == *key {
                return Some(i);
            }
            i = i + 1;
        }
        None
    }

    /// Whether `key` is held.
    pub fn contains(&self, key: &Key) -> (r: bool)
        ensures
            r == self@.contains(*key),
    {
        self.position(key).is_some()
    }

    /// Records that `key` went down; holding it already changes nothing.
    pub fn insert(&mut self, key: Key)
        ensures
            final(self)@ == old(self)@.insert(key),
    {
        proof {
            use_type_invariant(&*self);
        }
        if self.position(&key).is_none() {
            let mut keys: Vec<Key> = Vec::new();
            std::mem::swap(&mut keys, &mut self.keys);
            let ghost before = keys@;
            keys.push(key);
            assert forall|a: int, b: int|
                0 <= a < keys@.len() && 0 <= b < keys@.len() && a != b implies keys@[a]
                != keys@[b] by {
                if a < before.len() && b < before.len() {
                    assert(keys@[a] == before[a] && keys@[b] == before[b]);
                } else if a < before.len() {
                    assert(before.contains(keys@[a]));
                } else {
                    assert(before.contains(keys@[b]));
                }
            }
            self.keys = keys;
        }
        assert(self.keys@.to_set() =~= old(self).keys@.to_set().insert(key)) by {
            assert forall|x: Key| #[trigger] self.keys@.contains(x) implies old(self).keys@.contains(x)
                || x == key by {
                let j = choose|j: int| 0 <= j < self.keys@.len() && self.keys@[j] == x;
                if j < old(self).keys@.len() {
                    assert(old(self).keys@[j] == x);
                }
            }
            assert forall|x: Key| old(self).keys@.contains(x) || x == key implies #[trigger] self.keys@.contains(x) by {
                if x == key {
                    if old(self).keys@.contains(key) {
                        let j = choose|j: int| 0 <= j < old(self).keys@.len() && old(self).keys@[j] == x;
                        assert(self.keys@[j] == x);
                    } else {
                        assert(self.keys@[self.keys@.len() - 1] == x);
                    }
                } else {
                    let j = choose|j: int| 0 <= j < old(self).keys@.len() && old(self).keys@[j] == x;
                    assert(self.keys@[j] == x);
                }
            }
        }
    }

    /// Records that `key` came up; a key not held changes nothing.
    pub fn remove(&mut self, key: &Key)
        ensures
            final(self)@ == old(self)@.remove(*key),
    {
        proof {
            use_type_invariant(&*self);
        }
        match self.position(key) {
            Some(i) => {
                let ghost before = self.keys@;
                let mut keys: Vec<Key> = Vec::new();
                std::mem::swap(&mut keys, &mut self.keys);
                keys.remove(i);
                assert(keys@ == before.remove(i as int));
                assert forall|a: int, b: int|
                    0 <= a < keys@.len() && 0 <= b < keys@.len() && a != b implies
                    keys@[a] != keys@[b] by {
                    let a0 = if a < i { a } else { a + 1 };
                    let b0 = if b < i { b } else { b + 1 };
                    assert(keys@[a] == before[a0]);
                    assert(keys@[b] == before[b0]);
                }
                assert(keys@.to_set() =~= before.to_set().remove(*key)) by {
                    assert forall|x: Key| #[trigger] keys@.contains(x) implies before.contains(x)
                        && x != *key by {
                        let j = choose|j: int| 0 <= j < keys@.len() && keys@[j] == x;
                        let j0 = if j < i { j } else { j + 1 };
                        assert(before[j0] == x);
                    }
                    assert forall|x: Key| before.contains(x) && x != *key implies #[trigger] keys@.contains(x) by {
                        let j = choose|j: int| 0 <= j < before.len() && before[j] == x;
                        if j < i {
                            assert(keys@[j] == x);
                        } else {
                            assert(j != i);
                            assert(keys@[j - 1] == x);
                        }
                    }
                }
                self.keys = keys;
            },
            None => {
                assert(self.keys@.to_set() =~= old(self).keys@.to_set().remove(*key));
            },
        }
    }
}

} // verus!
