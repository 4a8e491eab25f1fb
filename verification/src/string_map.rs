//! A map with text keys that keeps the order in which keys were added.

use crate::text::same;
use vstd::prelude::*;

verus! {

/// A map from texts to values. No key stands in it twice.
#[verifier::reject_recursive_types(V)]
#[derive(Debug)]
pub struct StringMap<V> {
    entries: Vec<(String, V)>,
}

/// Whether an entry has the key.
pub open spec fn key_is<V>(entries: Seq<(String, V)>, i: int, key: Seq<char>) -> bool {
    0 <= i < entries.len() && entries[i].0@ == key
}

/// The map that a list of entries stands for.
pub open spec fn entries_map<V>(entries: Seq<(String, V)>) -> Map<Seq<char>, V> {
    Map::new(
        |key: Seq<char>| exists|i: int| key_is(entries, i, key),
        |key: Seq<char>| entries[choose|i: int| key_is(entries, i, key)].1,
    )
}

/// Whether no key stands in a list of entries twice.
pub open spec fn distinct_keys<V>(entries: Seq<(String, V)>) -> bool {
    forall|i: int, j: int|
        0 <= i < entries.len() && 0 <= j < entries.len() && entries[i].0@ == entries[j].0@ ==> i
            == j
}

impl<V> View for StringMap<V> {
    type V = Map<Seq<char>, V>;

    closed spec fn view(&self) -> Map<Seq<char>, V> {
        entries_map(self.entries@)
    }
}

impl<V> StringMap<V> {
    #[verifier::type_invariant]
    spec fn inv(self) -> bool {
        distinct_keys(self.entries@)
    }

    /// The keys, in the order in which they were added.
    pub closed spec fn spec_keys(&self) -> Seq<Seq<char>> {
        Seq::new(self.entries@.len(), |i: int| self.entries@[i].0@)
    }

    /// An empty map.
    pub fn new() -> (r: Self)
        ensures
            r@ == Map::<Seq<char>, V>::empty(),
    {
        let entries: Vec<(String, V)> = Vec::new();
        let r = StringMap { entries };
        assert(r@ =~= Map::<Seq<char>, V>::empty()) by {
            assert forall|key: Seq<char>| !r@.contains_key(key) by {
                assert forall|i: int| !key_is(r.entries@, i, key) by {}
            }
        }
        r
    }

    /// Where a key stands.
    fn position(&self, key: &str) -> (r: Option<usize>)
        ensures
            match r {
                Some(i) => key_is(self.entries@, i as int, key@),
                None => forall|i: int| !key_is(self.entries@, i, key@),
            },
    {
        let mut i: usize = 0;
        while i < self.entries.len()
            invariant
                i <= self.entries@.len(),
                forall|j: int| 0 <= j < i ==> !key_is(self.entries@, j, key@),
            decreases self.entries@.len() - i,
        {
            if same(self.entries[i].0.as_str(), key) {
                assert(key_is(self.entries@, i as int, key@));
                return Some(i);
            }
            i = i + 1;
        }
        None
    }

    /// Whether a key is in the map.
    pub fn contains_key(&self, key: &str) -> (r: bool)
        ensures
            r == self@.contains_key(key@),
    {
        self.position(key).is_some()
    }

    /// The value of a key.
    pub fn get(&self, key: &str) -> (r: Option<&V>)
        ensures
            match r {
                Some(value) => self@.contains_key(key@) && *value == self@[key@],
                None => !self@.contains_key(key@),
            },
    {
        proof {
            use_type_invariant(self);
        }
        match self.position(key) {
            Some(i) => {
                assert(key_is(self.entries@, i as int, key@));
                Some(&self.entries[i].1)
            },
            None => None,
        }
    }

    /// Sets the value of a key.
    pub fn insert(&mut self, key: &str, value: V)
        ensures
            final(self)@ == old(self)@.insert(key@, value),
    {
        proof {
            use_type_invariant(&*self);
        }
        let found = self.position(key);
        let mut entries: Vec<(String, V)> = Vec::new();
        std::mem::swap(&mut entries, &mut self.entries);
        let ghost before = entries@;
        match found {
            Some(i) => {
                entries[i] = (key.to_owned(), value);
                proof {
                    lemma_update(before, entries@[i as int], i as int);
                }
            },
            None => {
                entries.push((key.to_owned(), value));
                proof {
                    lemma_push(before, entries@[before.len() as int]);
                }
            },
        }
        self.entries = entries;
    }

    /// Takes a key out of the map.
    pub fn remove(&mut self, key: &str) -> (r: Option<V>)
        ensures
            final(self)@ == old(self)@.remove(key@),
            match r {
                Some(value) => old(self)@.contains_key(key@) && value == old(self)@[key@],
                None => !old(self)@.contains_key(key@),
            },
    {
        proof {
            use_type_invariant(&*self);
        }
        match self.position(key) {
            Some(i) => {
                let mut entries: Vec<(String, V)> = Vec::new();
                std::mem::swap(&mut entries, &mut self.entries);
                let ghost before = entries@;
                let (_, value) = entries.remove(i);
                proof {
                    lemma_remove(before, i as int);
                }
                self.entries = entries;
                Some(value)
            },
            None => {
                assert(self@.remove(key@) =~= self@);
                None
            },
        }
    }

    /// The number of keys.
    pub fn len(&self) -> (r: usize)
        ensures
            r == self@.dom().len(),
            r == self.spec_keys().len(),
            self@.dom().finite(),
    {
        proof {
            use_type_invariant(self);
            self.lemma_keys();
        }
        self.entries.len()
    }

    /// Whether the map has no key.
    pub fn is_empty(&self) -> (r: bool)
        ensures
            r == (self@ == Map::<Seq<char>, V>::empty()),
    {
        if self.entries.len() == 0 {
            assert(self@ =~= Map::<Seq<char>, V>::empty()) by {
                assert forall|key: Seq<char>| !self@.contains_key(key) by {
                    assert forall|i: int| !key_is(self.entries@, i, key) by {}
                }
            }
            true
        } else {
            assert(key_is(self.entries@, 0, self.entries@[0].0@));
            assert(self@.contains_key(self.entries@[0].0@));
            false
        }
    }

    /// The keys, each once.
    pub fn keys(&self) -> (r: Vec<String>)
        ensures
            r@.len() == self.spec_keys().len(),
            forall|i: int| 0 <= i < r@.len() ==> (#[trigger] r@[i])@ == self.spec_keys()[i],
            self.spec_keys().no_duplicates(),
            self.spec_keys().to_set() == self@.dom(),
    {
        proof {
            use_type_invariant(self);
            self.lemma_keys();
        }
        let mut r: Vec<String> = Vec::new();
        let mut i: usize = 0;
        while i < self.entries.len()
            invariant
                i <= self.entries@.len(),
                r@.len() == i,
                forall|j: int| 0 <= j < i ==> (#[trigger] r@[j])@ == self.spec_keys()[j],
            decreases self.entries@.len() - i,
        {
            r.push(self.entries[i].0.clone());
            i = i + 1;
        }
        r
    }

    /// The keys in order are the keys of the map, each once.
    proof fn lemma_keys(&self)
        requires
            self.inv(),
        ensures
            self.spec_keys().no_duplicates(),
            self.spec_keys().to_set() == self@.dom(),
            self@.dom().finite(),
            self@.dom().len() == self.spec_keys().len(),
    {
        let keys = self.spec_keys();
        assert(keys.no_duplicates());
        assert forall|key: Seq<char>| keys.to_set().contains(key) <==> self@.dom().contains(
            key,
        ) by {
            if keys.to_set().contains(key) {
                let i = choose|i: int| 0 <= i < keys.len() && keys[i] == key;
                assert(key_is(self.entries@, i, key));
            }
            if self@.dom().contains(key) {
                let i = choose|i: int| key_is(self.entries@, i, key);
                assert(keys[i] == key);
                assert(keys.contains(key));
            }
        }
        assert(keys.to_set() =~= self@.dom());
        keys.unique_seq_to_set();
        vstd::seq_lib::seq_to_set_is_finite(keys);
    }
}

proof fn lemma_push<V>(before: Seq<(String, V)>, entry: (String, V))
    requires
        distinct_keys(before),
        forall|i: int| !key_is(before, i, entry.0@),
    ensures
        distinct_keys(before.push(entry)),
        entries_map(before.push(entry)) == entries_map(before).insert(entry.0@, entry.1),
{
    let after = before.push(entry);
    assert(distinct_keys(after)) by {
        assert forall|i: int, j: int|
            0 <= i < after.len() && 0 <= j < after.len() && after[i].0@ == after[j].0@ implies i
            == j by {
            if i == before.len() && j < before.len() {
                assert(!key_is(before, j, entry.0@));
            }
            if j == before.len() && i < before.len() {
                assert(!key_is(before, i, entry.0@));
            }
        }
    }
    assert forall|key: Seq<char>| #[trigger]
        entries_map(after).contains_key(key) <==> entries_map(before).insert(
            entry.0@,
            entry.1,
        ).contains_key(key) by {
        if entries_map(before).contains_key(key) {
            let i = choose|i: int| key_is(before, i, key);
            assert(key_is(after, i, key));
        }
        if entries_map(after).contains_key(key) {
            let i = choose|i: int| key_is(after, i, key);
            if i < before.len() {
                assert(key_is(before, i, key));
            }
        }
        assert(key_is(after, before.len() as int, entry.0@));
    }
    assert forall|key: Seq<char>| #[trigger] entries_map(after).contains_key(key) implies entries_map(
        after,
    )[key] == entries_map(before).insert(entry.0@, entry.1)[key] by {
        let i = choose|i: int| key_is(after, i, key);
        assert(key_is(after, before.len() as int, entry.0@));
        if key != entry.0@ {
            assert(key_is(before, i, key));
        }
    }
    assert(entries_map(after) =~= entries_map(before).insert(entry.0@, entry.1));
}

proof fn lemma_update<V>(before: Seq<(String, V)>, entry: (String, V), at: int)
    requires
        distinct_keys(before),
        key_is(before, at, entry.0@),
    ensures
        distinct_keys(before.update(at, entry)),
        entries_map(before.update(at, entry)) == entries_map(before).insert(entry.0@, entry.1),
{
    let after = before.update(at, entry);
    assert forall|i: int, key: Seq<char>| #[trigger]
        key_is(after, i, key) <==> key_is(before, i, key) by {}
    assert forall|key: Seq<char>| #[trigger]
        entries_map(after).contains_key(key) <==> entries_map(before).insert(
            entry.0@,
            entry.1,
        ).contains_key(key) by {
        if entries_map(before).contains_key(key) {
            let i = choose|i: int| key_is(before, i, key);
            assert(key_is(after, i, key));
        }
        if entries_map(after).contains_key(key) {
            let i = choose|i: int| key_is(after, i, key);
            assert(key_is(before, i, key));
        }
        assert(key_is(after, at, entry.0@));
    }
    assert forall|key: Seq<char>| #[trigger] entries_map(after).contains_key(key) implies entries_map(
        after,
    )[key] == entries_map(before).insert(entry.0@, entry.1)[key] by {
        let i = choose|i: int| key_is(after, i, key);
        assert(key_is(before, i, key));
        assert(entries_map(before).contains_key(key));
        if key == entry.0@ {
            assert(i == at);
        } else {
            assert(i != at);
        }
    }
    assert(entries_map(after) =~= entries_map(before).insert(entry.0@, entry.1));
}

proof fn lemma_remove<V>(before: Seq<(String, V)>, at: int)
    requires
        distinct_keys(before),
        0 <= at < before.len(),
    ensures
        distinct_keys(before.remove(at)),
        entries_map(before.remove(at)) == entries_map(before).remove(before[at].0@),
        entries_map(before).contains_key(before[at].0@),
        entries_map(before)[before[at].0@] == before[at].1,
{
    let after = before.remove(at);
    let gone = before[at].0@;
    assert(key_is(before, at, gone));
    assert forall|key: Seq<char>| #[trigger]
        entries_map(after).contains_key(key) <==> entries_map(before).remove(gone).contains_key(
            key,
        ) by {
        if entries_map(before).remove(gone).contains_key(key) {
            let i = choose|i: int| key_is(before, i, key);
            assert(key_is(after, if i < at { i } else { i - 1 }, key));
        }
        if entries_map(after).contains_key(key) {
            let i = choose|i: int| key_is(after, i, key);
            assert(key_is(before, if i < at { i } else { i + 1 }, key));
        }
    }
    assert forall|key: Seq<char>| #[trigger] entries_map(after).contains_key(key) implies entries_map(
        after,
    )[key] == entries_map(before).remove(gone)[key] by {
        let i = choose|i: int| key_is(after, i, key);
        assert(key_is(before, if i < at { i } else { i + 1 }, key));
    }
    assert(entries_map(after) =~= entries_map(before).remove(gone));
}

} // verus!
