//! A map from texts to values that keeps its entries in the order of their keys.

use vstd::prelude::*;

use crate::text::{
    lemma_text_before_is_strict, lemma_text_before_is_transitive, str_before, str_eq, text_before,
};

verus! {

/// Whether each text comes before all that follow it; none occurs twice then.
pub open spec fn is_sorted(keys: Seq<Seq<char>>) -> bool {
    forall|i: int, j: int|
        0 <= i < j < keys.len() ==> text_before(#[trigger] keys[i], #[trigger] keys[j])
}

/// The keys of a list of entries.
pub open spec fn entry_keys<V>(entries: Seq<(String, V)>) -> Seq<Seq<char>> {
    Seq::new(entries.len(), |i: int| entries[i].0@)
}

/// The map that a list of entries stands for.
pub open spec fn entry_map<V>(entries: Seq<(String, V)>) -> Map<Seq<char>, V> {
    Map::new(
        |key: Seq<char>| entry_keys(entries).contains(key),
        |key: Seq<char>| entries[entry_keys(entries).index_of(key)].1,
    )
}

/// A map whose entries stand in the order of their keys, each key once.
#[derive(Debug)]
pub struct SortedMap<V> {
    entries: Vec<(String, V)>,
}

impl<V> View for SortedMap<V> {
    type V = Map<Seq<char>, V>;

    closed spec fn view(&self) -> Map<Seq<char>, V> {
        entry_map(self.entries@)
    }
}

proof fn lemma_key_index(keys: Seq<Seq<char>>, i: int)
    requires
        is_sorted(keys),
        0 <= i < keys.len(),
    ensures
        keys.index_of(keys[i]) == i,
{
    let j = keys.index_of(keys[i]);
    assert(keys.contains(keys[i]));
    lemma_text_before_is_strict(keys[i], keys[j]);
    lemma_text_before_is_strict(keys[j], keys[i]);
}

/// Putting an entry where its key belongs adds that entry to the map and keeps the order.
proof fn lemma_put<V>(before: Seq<(String, V)>, p: int, entry: (String, V), after: Seq<(String, V)>)
    requires
        is_sorted(entry_keys(before)),
        0 <= p <= before.len(),
        forall|i: int| 0 <= i < p ==> text_before(#[trigger] before[i].0@, entry.0@),
        p < before.len() ==> !text_before(before[p].0@, entry.0@),
        if p < before.len() && before[p].0@ == entry.0@ {
            after == before.update(p, entry)
        } else {
            after == before.insert(p, entry)
        },
    ensures
        is_sorted(entry_keys(after)),
        entry_map(after) == entry_map(before).insert(entry.0@, entry.1),
{
    let old_keys = entry_keys(before);
    let keys = entry_keys(after);
    let replaced = p < before.len() && before[p].0@ == entry.0@;
    assert forall|i: int| p <= i < before.len() && !(replaced && i == p) implies text_before(
        entry.0@,
        #[trigger] before[i].0@,
    ) by {
        lemma_text_before_is_strict(entry.0@, before[p].0@);
        if p < i {
            assert(text_before(old_keys[p], old_keys[i]));
            if before[p].0@ != entry.0@ {
                lemma_text_before_is_transitive(entry.0@, before[p].0@, before[i].0@);
            }
        }
    }
    let shift = if replaced {
        0int
    } else {
        1int
    };
    assert(forall|i: int| 0 <= i < p ==> after[i] == before[i]);
    assert(after[p] == entry);
    assert(forall|i: int| p < i < after.len() ==> after[i] == before[i - shift]);
    assert forall|i: int, j: int| 0 <= i < j < keys.len() implies text_before(
        #[trigger] keys[i],
        #[trigger] keys[j],
    ) by {
        let a = if i < p {
            i
        } else {
            i - shift
        };
        let b = if j < p {
            j
        } else {
            j - shift
        };
        if i != p && j != p {
            assert(text_before(old_keys[a], old_keys[b]));
        } else if i == p {
            assert(text_before(entry.0@, before[b].0@));
        } else {
            assert(text_before(before[a].0@, entry.0@));
        }
    }
    let map = entry_map(before).insert(entry.0@, entry.1);
    assert forall|key: Seq<char>| #[trigger] entry_map(after).contains_key(key)
        == map.contains_key(key) && (map.contains_key(key) ==> entry_map(after)[key]
        == map[key]) by {
        if keys.contains(key) {
            let i = keys.index_of(key);
            lemma_key_index(keys, i);
            if i != p {
                let k = if i < p {
                    i
                } else {
                    i - shift
                };
                assert(old_keys[k] == key);
                lemma_key_index(old_keys, k);
                lemma_text_before_is_strict(keys[i], keys[p]);
                lemma_text_before_is_strict(keys[p], keys[i]);
            }
        }
        if old_keys.contains(key) && key != entry.0@ {
            let k = old_keys.index_of(key);
            if k < p {
                assert(keys[k] == key);
            } else {
                assert(keys[k + shift] == key);
            }
        }
        if key == entry.0@ {
            assert(keys[p] == key);
        }
    }
    assert(entry_map(after) =~= map);
}

/// Leaving out an entry takes its key out of the map and keeps the order.
proof fn lemma_leave_out<V>(before: Seq<(String, V)>, p: int)
    requires
        is_sorted(entry_keys(before)),
        0 <= p < before.len(),
    ensures
        is_sorted(entry_keys(before.remove(p))),
        entry_map(before.remove(p)) == entry_map(before).remove(before[p].0@),
{
    let after = before.remove(p);
    let old_keys = entry_keys(before);
    let keys = entry_keys(after);
    assert forall|i: int| 0 <= i < keys.len() implies #[trigger] keys[i] == old_keys[if i < p {
        i
    } else {
        i + 1
    }] by {}
    assert forall|i: int, j: int| 0 <= i < j < keys.len() implies text_before(
        #[trigger] keys[i],
        #[trigger] keys[j],
    ) by {
        let a = if i < p {
            i
        } else {
            i + 1
        };
        let b = if j < p {
            j
        } else {
            j + 1
        };
        assert(text_before(old_keys[a], old_keys[b]));
    }
    let map = entry_map(before).remove(before[p].0@);
    assert forall|key: Seq<char>| #[trigger] entry_map(after).contains_key(key)
        == map.contains_key(key) && (map.contains_key(key) ==> entry_map(after)[key]
        == map[key]) by {
        if keys.contains(key) {
            let i = keys.index_of(key);
            let k = if i < p {
                i
            } else {
                i + 1
            };
            assert(old_keys[k] == key);
            lemma_key_index(old_keys, k);
            lemma_key_index(old_keys, p);
        }
        if old_keys.contains(key) && key != before[p].0@ {
            let k = old_keys.index_of(key);
            let i = if k < p {
                k
            } else {
                k - 1
            };
            assert(keys[i] == key);
            lemma_key_index(keys, i);
        }
    }
    assert(entry_map(after) =~= map);
}

impl<V> SortedMap<V> {
    #[verifier::type_invariant]
    spec fn inv(self) -> bool {
        is_sorted(entry_keys(self.entries@))
    }

    /// A map without entries.
    pub fn new() -> (map: SortedMap<V>)
        ensures
            map@ == Map::<Seq<char>, V>::empty(),
    {
        let map = SortedMap { entries: Vec::new() };
        assert(map@ =~= Map::empty());
        map
    }

    /// The entries, in the order of their keys.
    pub fn entries(&self) -> (entries: &Vec<(String, V)>)
        ensures
            is_sorted(entry_keys(entries@)),
            self@ == entry_map(entries@),
    {
        proof {
            use_type_invariant(self);
        }
        &self.entries
    }

    /// The number of entries whose keys come before `key`.
    fn position(&self, key: &str) -> (p: usize)
        ensures
            p <= self.entries@.len(),
            forall|i: int| 0 <= i < p ==> text_before(#[trigger] self.entries@[i].0@, key@),
            p < self.entries@.len() ==> !text_before(self.entries@[p as int].0@, key@),
    {
        let mut p: usize = 0;
        while p < self.entries.len() && str_before(self.entries[p].0.as_str(), key)
            invariant
                p <= self.entries@.len(),
                forall|i: int| 0 <= i < p ==> text_before(#[trigger] self.entries@[i].0@, key@),
            decreases self.entries.len() - p,
        {
            p += 1;
        }
        p
    }

    /// The value at `key`.
    pub fn get(&self, key: &str) -> (value: Option<&V>)
        ensures
            value == (if self@.contains_key(key@) {
                Some(&self@[key@])
            } else {
                None
            }),
    {
        proof {
            use_type_invariant(self);
        }
        let p: usize = self.position(key);
        let ghost keys = entry_keys(self.entries@);
        if p < self.entries.len() && str_eq(self.entries[p].0.as_str(), key) {
            assert(keys[p as int] == key@);
            proof {
                lemma_key_index(keys, p as int);
            }
            Some(&self.entries[p].1)
        } else {
            proof {
                if keys.contains(key@) {
                    let i = keys.index_of(key@);
                    lemma_text_before_is_strict(keys[i], key@);
                    assert(p <= i);
                    if p < i {
                        lemma_text_before_is_strict(keys[p as int], keys[i]);
                    }
                }
            }
            None
        }
    }

    /// Takes out the entry at `key`.
    pub fn remove(&mut self, key: &str) -> (value: Option<V>)
        ensures
            final(self)@ == old(self)@.remove(key@),
            value == (if old(self)@.contains_key(key@) {
                Some(old(self)@[key@])
            } else {
                None
            }),
    {
        proof {
            use_type_invariant(&*self);
        }
        let found = self.get(key).is_some();
        let p: usize = self.position(key);
        let ghost keys = entry_keys(self.entries@);
        let ghost before = self.entries@;
        proof {
            if keys.contains(key@) {
                let i = keys.index_of(key@);
                lemma_text_before_is_strict(keys[i], key@);
                if p < i {
                    lemma_text_before_is_strict(keys[p as int], keys[i]);
                }
                assert(i == p);
            }
        }
        if !found {
            assert(self@.remove(key@) =~= self@);
            return None;
        }
        let mut entries: Vec<(String, V)> = Vec::new();
        std::mem::swap(&mut entries, &mut self.entries);
        let (_, value) = entries.remove(p);
        proof {
            lemma_leave_out(before, p as int);
            lemma_key_index(keys, p as int);
        }
        self.entries = entries;
        Some(value)
    }

    /// Puts `value` at `key`, in place of the value that was there.
    pub fn insert(&mut self, key: String, value: V)
        ensures
            final(self)@ == old(self)@.insert(key@, value),
    {
        proof {
            use_type_invariant(&*self);
        }
        let p: usize = self.position(key.as_str());
        let mut entries: Vec<(String, V)> = Vec::new();
        std::mem::swap(&mut entries, &mut self.entries);
        let ghost before = entries@;
        let ghost entry = (key, value);
        if p < entries.len() && str_eq(entries[p].0.as_str(), key.as_str()) {
            entries.set(p, (key, value));
        } else {
            entries.insert(p, (key, value));
        }
        proof {
            lemma_put(before, p as int, entry, entries@);
        }
        self.entries = entries;
    }
}

/// Law: an entry of a sorted list stands in the map under its own key, and the keys follow each
/// other in the order of their bytes.
pub proof fn law_entries_stand_under_their_keys<V>(entries: Seq<(String, V)>, i: int, j: int)
    requires
        is_sorted(entry_keys(entries)),
        0 <= i < j < entries.len(),
    ensures
        entry_map(entries).contains_key(entries[i].0@) && entry_map(entries)[entries[i].0@]
            == entries[i].1,
        entry_map(entries).contains_key(entries[j].0@) && entry_map(entries)[entries[j].0@]
            == entries[j].1,
        text_before(entries[i].0@, entries[j].0@),
{
    let keys = entry_keys(entries);
    assert(keys[i] == entries[i].0@ && keys[j] == entries[j].0@);
    assert(keys.contains(keys[i]) && keys.contains(keys[j]));
    lemma_key_index(keys, i);
    lemma_key_index(keys, j);
}

} // verus!
