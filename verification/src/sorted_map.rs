//! Maps from texts to values whose entries stand in the order of the texts.
use vstd::prelude::*;

use crate::sorting;
use crate::text;

verus! {

/// A value under its key.
#[derive(Debug)]
pub struct Entry<T> {
    pub key: String,
    pub value: T,
}

/// A map from texts to values.
#[derive(Debug)]
pub struct SortedMap<T> {
    entries: Vec<Entry<T>>,
}

/// Whether the keys stand in order and none occurs twice.
pub open spec fn keys_ascend<T>(entries: Seq<Entry<T>>) -> bool {
    forall|i: int, j: int|
        0 <= i < j < entries.len() ==> sorting::at_most(
            (#[trigger] entries[i]).key@,
            (#[trigger] entries[j]).key@,
        ) && entries[i].key@ != entries[j].key@
}

/// Whether a key occurs.
pub open spec fn has_key<T>(entries: Seq<Entry<T>>, key: Seq<char>) -> bool {
    exists|i: int| 0 <= i < entries.len() && (#[trigger] entries[i]).key@ == key
}

/// The values under their keys.
pub open spec fn as_map<T>(entries: Seq<Entry<T>>) -> Map<Seq<char>, T> {
    Map::new(
        |key: Seq<char>| has_key(entries, key),
        |key: Seq<char>|
            entries[choose|i: int|
                0 <= i < entries.len() && (#[trigger] entries[i]).key@ == key].value,
    )
}

proof fn lemma_lookup<T>(entries: Seq<Entry<T>>, i: int)
    requires
        keys_ascend(entries),
        0 <= i < entries.len(),
    ensures
        as_map(entries).contains_key(entries[i].key@),
        as_map(entries)[entries[i].key@] == entries[i].value,
{
    let key = entries[i].key@;
    let j = choose|j: int| 0 <= j < entries.len() && (#[trigger] entries[j]).key@ == key;
    assert(has_key(entries, key));
    assert(j == i);
}

impl<T> View for SortedMap<T> {
    type V = Map<Seq<char>, T>;

    closed spec fn view(&self) -> Map<Seq<char>, T> {
        as_map(self.entries@)
    }
}

impl<T> SortedMap<T> {
    #[verifier::type_invariant]
    spec fn well_formed(self) -> bool {
        keys_ascend(self.entries@)
    }

    pub fn new() -> (r: SortedMap<T>)
        ensures
            r@ == Map::<Seq<char>, T>::empty(),
    {
        let entries: Vec<Entry<T>> = Vec::new();
        assert(as_map(entries@) =~= Map::<Seq<char>, T>::empty());
        SortedMap { entries }
    }

    /// The value under `key`.
    pub fn get(&self, key: &str) -> (r: Option<&T>)
        ensures
            match r {
                Some(value) => self@.contains_key(key@) && *value == self@[key@],
                None => !self@.contains_key(key@),
            },
    {
        proof {
            use_type_invariant(&*self);
        }
        let mut i: usize = 0;
        while i < self.entries.len()
            invariant
                keys_ascend(self.entries@),
                i <= self.entries@.len(),
                forall|j: int| 0 <= j < i ==> (#[trigger] self.entries@[j]).key@ != key@,
            decreases self.entries@.len() - i,
        {
            if text::same(self.entries[i].key.as_str(), key) {
                proof {
                    lemma_lookup(self.entries@, i as int);
                }
                return Some(&self.entries[i].value);
            }
            i += 1;
        }
        None
    }

    /// Puts a value under a key, in place of the one that was there.
    pub fn insert(&mut self, key: String, value: T)
        ensures
            final(self)@ == old(self)@.insert(key@, value),
    {
        proof {
            use_type_invariant(&*self);
        }
        let mut entries: Vec<Entry<T>> = Vec::new();
        std::mem::swap(&mut entries, &mut self.entries);
        let ghost before = entries@;
        let mut i: usize = 0;
        while i < entries.len() && !sorting::in_order(key.as_str(), entries[i].key.as_str())
            invariant
                entries@ == before,
                keys_ascend(before),
                i <= before.len(),
                forall|j: int|
                    0 <= j < i ==> !sorting::at_most(key@, (#[trigger] before[j]).key@),
            decreases before.len() - i,
        {
            i += 1;
        }
        let ghost key_view = key@;
        proof {
            lemma_place(before, key_view, i as int);
        }
        if i < entries.len() && text::same(entries[i].key.as_str(), key.as_str()) {
            let entry = Entry { key, value };
            entries.set(i, entry);
            proof {
                lemma_replaced(before, i as int, entry);
            }
        } else {
            let entry = Entry { key, value };
            entries.insert(i, entry);
            proof {
                lemma_inserted(before, i as int, entry);
            }
        }
        self.entries = entries;
    }

    /// The entries, in the order of their keys.
    pub fn into_entries(self) -> (r: Vec<Entry<T>>)
        ensures
            keys_ascend(r@),
            as_map(r@) == self@,
    {
        proof {
            use_type_invariant(&self);
        }
        self.entries
    }
}

proof fn lemma_place<T>(entries: Seq<Entry<T>>, key: Seq<char>, i: int)
    requires
        keys_ascend(entries),
        0 <= i <= entries.len(),
        forall|j: int| 0 <= j < i ==> !sorting::at_most(key, (#[trigger] entries[j]).key@),
        i < entries.len() ==> sorting::at_most(key, entries[i].key@),
    ensures
        forall|j: int|
            0 <= j < i ==> sorting::at_most((#[trigger] entries[j]).key@, key) && entries[j].key@
                != key,
        forall|j: int|
            i <= j < entries.len() ==> sorting::at_most(key, (#[trigger] entries[j]).key@),
        forall|j: int| i < j < entries.len() ==> (#[trigger] entries[j]).key@ != key,
{
    assert forall|j: int| 0 <= j < i implies sorting::at_most((#[trigger] entries[j]).key@, key)
        && entries[j].key@ != key by {
        sorting::order_is_total(entries[j].key@, key);
    }
    assert forall|j: int| i <= j < entries.len() implies sorting::at_most(
        key,
        (#[trigger] entries[j]).key@,
    ) by {
        if j > i {
            sorting::order_is_transitive(key, entries[i].key@, entries[j].key@);
        }
    }
    assert forall|j: int| i < j < entries.len() implies (#[trigger] entries[j]).key@ != key by {
        if entries[j].key@ == key {
            sorting::order_is_antisymmetric(key, entries[i].key@);
        }
    }
}

proof fn lemma_replaced<T>(before: Seq<Entry<T>>, i: int, entry: Entry<T>)
    requires
        keys_ascend(before),
        0 <= i < before.len(),
        before[i].key@ == entry.key@,
    ensures
        keys_ascend(before.update(i, entry)),
        as_map(before.update(i, entry)) == as_map(before).insert(entry.key@, entry.value),
{
    let after = before.update(i, entry);
    assert forall|a: int, b: int| 0 <= a < b < after.len() implies sorting::at_most(
        (#[trigger] after[a]).key@,
        (#[trigger] after[b]).key@,
    ) && after[a].key@ != after[b].key@ by {
        assert(after[a].key@ == before[a].key@ && after[b].key@ == before[b].key@);
    }
    let expected = as_map(before).insert(entry.key@, entry.value);
    lemma_lookup(after, i);
    assert forall|key: Seq<char>| as_map(after).contains_key(key) == expected.contains_key(key) by {
        lemma_same_keys(before, after, i, key);
    }
    assert forall|key: Seq<char>| as_map(after).contains_key(key) implies as_map(after)[key]
        == expected[key] by {
        let j = choose|j: int| 0 <= j < after.len() && (#[trigger] after[j]).key@ == key;
        lemma_lookup(after, j);
        if j != i {
            assert(before[j] == after[j]);
            lemma_lookup(before, j);
        }
    }
    assert(as_map(after) =~= expected);
}

proof fn lemma_same_keys<T>(before: Seq<Entry<T>>, after: Seq<Entry<T>>, i: int, key: Seq<char>)
    requires
        0 <= i < before.len(),
        after.len() == before.len(),
        forall|j: int| 0 <= j < before.len() ==> (#[trigger] after[j]).key@ == before[j].key@,
    ensures
        has_key(after, key) == has_key(before, key),
        has_key(before, before[i].key@),
{
    if has_key(before, key) {
        let j = choose|j: int| 0 <= j < before.len() && (#[trigger] before[j]).key@ == key;
        assert(after[j].key@ == key);
    }
    if has_key(after, key) {
        let j = choose|j: int| 0 <= j < after.len() && (#[trigger] after[j]).key@ == key;
        assert(before[j].key@ == key);
    }
    assert(before[i].key@ == before[i].key@);
}

proof fn lemma_inserted<T>(before: Seq<Entry<T>>, i: int, entry: Entry<T>)
    requires
        keys_ascend(before),
        0 <= i <= before.len(),
        forall|j: int|
            0 <= j < i ==> sorting::at_most((#[trigger] before[j]).key@, entry.key@)
                && before[j].key@ != entry.key@,
        forall|j: int|
            i <= j < before.len() ==> sorting::at_most(entry.key@, (#[trigger] before[j]).key@)
                && before[j].key@ != entry.key@,
    ensures
        keys_ascend(before.insert(i, entry)),
        as_map(before.insert(i, entry)) == as_map(before).insert(entry.key@, entry.value),
{
    let after = before.insert(i, entry);
    assert forall|a: int, b: int| 0 <= a < b < after.len() implies sorting::at_most(
        (#[trigger] after[a]).key@,
        (#[trigger] after[b]).key@,
    ) && after[a].key@ != after[b].key@ by {
        let x = if a < i {
            a
        } else {
            a - 1
        };
        let y = if b < i {
            b
        } else {
            b - 1
        };
        if a != i {
            assert(after[a] == before[x]);
        }
        if b != i {
            assert(after[b] == before[y]);
        }
    }
    let expected = as_map(before).insert(entry.key@, entry.value);
    assert forall|key: Seq<char>| as_map(after).contains_key(key) == expected.contains_key(key) by {
        if has_key(before, key) {
            let j = choose|j: int| 0 <= j < before.len() && (#[trigger] before[j]).key@ == key;
            if j < i {
                assert(after[j] == before[j]);
            } else {
                assert(after[j + 1] == before[j]);
            }
        }
        if has_key(after, key) {
            let j = choose|j: int| 0 <= j < after.len() && (#[trigger] after[j]).key@ == key;
            if j < i {
                assert(after[j] == before[j]);
            } else if j > i {
                assert(after[j] == before[j - 1]);
            }
        }
        assert(after[i] == entry);
    }
    assert forall|key: Seq<char>| as_map(after).contains_key(key) implies as_map(after)[key]
        == expected[key] by {
        let j = choose|j: int| 0 <= j < after.len() && (#[trigger] after[j]).key@ == key;
        lemma_lookup(after, j);
        if j < i {
            assert(before[j] == after[j]);
            lemma_lookup(before, j);
        } else if j > i {
            assert(before[j - 1] == after[j]);
            lemma_lookup(before, j - 1);
        }
    }
    assert(as_map(after) =~= expected);
}

/// Entries in the order of their keys stand for the map that gives each key its value: a key is
/// in the map exactly where an entry has it, and no key occurs twice.
pub proof fn entries_stand_for_their_map<T>(entries: Seq<Entry<T>>)
    requires
        keys_ascend(entries),
    ensures
        forall|i: int|
            0 <= i < entries.len() ==> as_map(entries).contains_key(
                (#[trigger] entries[i]).key@,
            ) && as_map(entries)[entries[i].key@] == entries[i].value,
        forall|key: Seq<char>| #[trigger]
            as_map(entries).contains_key(key) ==> exists|i: int|
                0 <= i < entries.len() && (#[trigger] entries[i]).key@ == key,
        forall|i: int, j: int|
            0 <= i < j < entries.len() ==> (#[trigger] entries[i]).key@ != (
            #[trigger] entries[j]).key@ && sorting::at_most(entries[i].key@, entries[j].key@),
{
    assert forall|i: int| 0 <= i < entries.len() implies as_map(entries).contains_key(
        (#[trigger] entries[i]).key@,
    ) && as_map(entries)[entries[i].key@] == entries[i].value by {
        lemma_lookup(entries, i);
    }
}

} // verus!
