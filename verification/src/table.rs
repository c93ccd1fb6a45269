//! A small map kept as a list of entries in which no key occurs twice.

use vstd::prelude::*;

verus! {

/// A value that can serve as a key: it has a model, and two keys can be
/// compared by their models.
pub trait Key: View + Sized {
    /// Whether the two keys have the same model.
    fn matches(&self, other: &Self) -> (same: bool)
        ensures
            same == (self@ == other@),
    ;
}

impl Key for String {
    fn matches(&self, other: &Self) -> (same: bool) {
        *self == *other
    }
}

/// A map from keys to values. Its model is a `Map` from the keys' models to
/// the values.
#[derive(Debug)]
pub struct Table<K: Key, V> {
    entries: Vec<(K, V)>,
}

impl<K: Key, V> View for Table<K, V> {
    type V = Map<K::V, V>;

    closed spec fn view(&self) -> Map<K::V, V> {
        Self::as_map(self.entries@)
    }
}

impl<K: Key, V> Table<K, V> {
    spec fn holds(entries: Seq<(K, V)>, key: K::V, i: int) -> bool {
        0 <= i < entries.len() && entries[i].0@ == key
    }

    spec fn as_map(entries: Seq<(K, V)>) -> Map<K::V, V> {
        Map::new(
            |key: K::V| exists|i: int| Self::holds(entries, key, i),
            |key: K::V| entries[choose|i: int| Self::holds(entries, key, i)].1,
        )
    }

    spec fn distinct(entries: Seq<(K, V)>) -> bool {
        forall|i: int, j: int|
            0 <= i < entries.len() && 0 <= j < entries.len() && i != j ==> #[trigger] entries[i].0@
                != #[trigger] entries[j].0@
    }

    #[verifier::type_invariant]
    spec fn well_formed(self) -> bool {
        Self::distinct(self.entries@)
    }

    proof fn lemma_entry(entries: Seq<(K, V)>, i: int)
        requires
            Self::distinct(entries),
            0 <= i < entries.len(),
        ensures
            Self::as_map(entries).contains_key(entries[i].0@),
            Self::as_map(entries)[entries[i].0@] == entries[i].1,
    {
        assert(Self::holds(entries, entries[i].0@, i));
    }

    /// How many entries the table holds.
    pub closed spec fn spec_len(&self) -> nat {
        self.entries@.len()
    }

    /// The key of the entry at position `i`.
    pub closed spec fn spec_key_at(&self, i: int) -> K {
        self.entries@[i].0
    }

    /// Every key of the table's model is the key of one of its entries, and
    /// the other way round.
    pub proof fn lemma_keys(&self)
        ensures
            forall|key: K::V| #[trigger]
                self@.contains_key(key) <==> exists|i: int|
                    0 <= i < self.spec_len() && #[trigger] self.spec_key_at(i)@ == key,
    {
        assert forall|key: K::V| #[trigger]
            self@.contains_key(key) <==> exists|i: int|
                0 <= i < self.spec_len() && #[trigger] self.spec_key_at(i)@ == key by {
            if self@.contains_key(key) {
                let i = choose|i: int| Self::holds(self.entries@, key, i);
                assert(0 <= i < self.spec_len() && self.spec_key_at(i)@ == key);
            }
            if exists|i: int| 0 <= i < self.spec_len() && #[trigger] self.spec_key_at(i)@ == key {
                let i = choose|i: int|
                    0 <= i < self.spec_len() && #[trigger] self.spec_key_at(i)@ == key;
                assert(Self::holds(self.entries@, key, i));
            }
        }
    }

    proof fn lemma_len(entries: Seq<(K, V)>)
        requires
            Self::distinct(entries),
        ensures
            Self::as_map(entries).dom().finite(),
            Self::as_map(entries).dom().len() == entries.len(),
    {
        let keys = entries.map_values(|entry: (K, V)| entry.0@);
        assert(keys.no_duplicates());
        assert forall|key: K::V| keys.to_set().contains(key) <==> Self::as_map(
            entries,
        ).dom().contains(key) by {
            if keys.contains(key) {
                let i = choose|i: int| 0 <= i < keys.len() && keys[i] == key;
                assert(Self::holds(entries, key, i));
            }
            if Self::as_map(entries).dom().contains(key) {
                let i = choose|i: int| Self::holds(entries, key, i);
                assert(keys[i] == key);
            }
        }
        assert(keys.to_set() =~= Self::as_map(entries).dom());
        keys.unique_seq_to_set();
        vstd::seq_lib::seq_to_set_is_finite(keys);
    }

    /// How many entries the table holds: as many as its model has keys.
    pub fn len(&self) -> (len: usize)
        ensures
            len == self.spec_len(),
            self@.dom().finite(),
            len == self@.dom().len(),
    {
        proof {
            use_type_invariant(self);
            Self::lemma_len(self.entries@);
        }
        self.entries.len()
    }

    /// The entry at position `i`: its key and its value.
    /// `None` where the table has no such position.
    pub fn entry_at(&self, i: usize) -> (entry: Option<(&K, &V)>)
        ensures
            entry is Some <==> i < self.spec_len(),
            entry matches Some((key, value)) ==> {
                &&& *key == self.spec_key_at(i as int)
                &&& self@.contains_key(key@)
                &&& self@[key@] == *value
                &&& forall|j: int|
                    0 <= j < self.spec_len() && j != i ==> #[trigger] self.spec_key_at(j)@ != key@
            },
    {
        if i < self.entries.len() {
            proof {
                use_type_invariant(self);
                Self::lemma_entry(self.entries@, i as int);
            }
            Some((&self.entries[i].0, &self.entries[i].1))
        } else {
            None
        }
    }

    /// A table without entries.
    pub fn new() -> (table: Self)
        ensures
            table@ == Map::<K::V, V>::empty(),
            table.spec_len() == 0,
    {
        let table = Table { entries: Vec::new() };
        table
    }

    /// The value stored under `key`, if there is one.
    pub fn get(&self, key: &K) -> (found: Option<&V>)
        ensures
            found == (if self@.contains_key(key@) {
                Some(&self@[key@])
            } else {
                None
            }),
    {
        proof {
            use_type_invariant(self);
        }
        let mut i: usize = 0;
        while i < self.entries.len()
            invariant
                i <= self.entries@.len(),
                Self::distinct(self.entries@),
                forall|j: int| 0 <= j < i ==> !Self::holds(self.entries@, key@, j),
            decreases self.entries.len() - i,
        {
            if self.entries[i].0.matches(key) {
                proof {
                    Self::lemma_entry(self.entries@, i as int);
                }
                return Some(&self.entries[i].1);
            }
            i += 1;
        }
        None
    }

    /// Stores `value` under `key`, in place of what was stored there before.
    pub fn insert(&mut self, key: K, value: V)
        ensures
            final(self)@ == old(self)@.insert(key@, value),
    {
        proof {
            use_type_invariant(&*self);
        }
        let mut entries: Vec<(K, V)> = Vec::new();
        std::mem::swap(&mut entries, &mut self.entries);
        let ghost before = entries@;
        let mut i: usize = 0;
        let mut found: bool = false;
        while i < entries.len() && !found
            invariant
                i <= entries@.len(),
                entries@ == before,
                found ==> i < entries@.len() && entries@[i as int].0@ == key@,
                !found ==> forall|j: int| 0 <= j < i ==> !Self::holds(entries@, key@, j),
            decreases entries.len() - i, if found { 0int } else { 1int },
        {
            if entries[i].0.matches(&key) {
                found = true;
            } else {
                i += 1;
            }
        }
        if found {
            entries.set(i, (key, value));
        } else {
            entries.push((key, value));
        }
        proof {
            let after = entries@;
            assert forall|a: int, b: int|
                0 <= a < after.len() && 0 <= b < after.len() && a != b implies #[trigger] after[a].0@
                != #[trigger] after[b].0@ by {
                if !found {
                    if a < before.len() {
                        assert(!Self::holds(before, key@, a));
                    }
                    if b < before.len() {
                        assert(!Self::holds(before, key@, b));
                    }
                }
            }
            assert forall|k: K::V| #[trigger]
                Self::as_map(after).contains_key(k) == Self::as_map(before).insert(
                    key@,
                    value,
                ).contains_key(k) by {
                if k == key@ {
                    if found {
                        assert(Self::holds(after, k, i as int));
                    } else {
                        assert(Self::holds(after, k, before.len() as int));
                    }
                } else {
                    if Self::as_map(before).contains_key(k) {
                        let j = choose|j: int| Self::holds(before, k, j);
                        assert(Self::holds(after, k, j));
                    }
                    if Self::as_map(after).contains_key(k) {
                        let j = choose|j: int| Self::holds(after, k, j);
                        assert(Self::holds(before, k, j));
                    }
                }
            }
            assert forall|k: K::V| #[trigger]
                Self::as_map(after).contains_key(k) implies Self::as_map(after)[k]
                == Self::as_map(before).insert(key@, value)[k] by {
                let j = choose|j: int| Self::holds(after, k, j);
                Self::lemma_entry(after, j);
                if k != key@ {
                    assert(after[j] == before[j]);
                    Self::lemma_entry(before, j);
                }
            }
        }
        self.entries = entries;
    }
}

} // verus!
