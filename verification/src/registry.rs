//! A map from strings to values that is walked in the order of its keys.
use crate::text::{lemma_text_order, lemma_text_transitive, same_text, text_before, text_less};
use vstd::prelude::*;
use vstd::string::*;

verus! {

/// Whether keys stand in strictly ascending order.
pub open spec fn ascending(keys: Seq<Seq<char>>) -> bool {
    forall|i: int, j: int| 0 <= i < j < keys.len() ==> text_less(#[trigger] keys[i], #[trigger] keys[j])
}

/// Keys in strictly ascending order are all different.
pub proof fn lemma_ascending_distinct(keys: Seq<Seq<char>>)
    requires
        ascending(keys),
    ensures
        keys.no_duplicates(),
{
    assert forall|i: int, j: int| 0 <= i < j < keys.len() implies keys[i] != keys[j] by {
        lemma_text_order(keys[i], keys[j]);
    }
}

/// A map from strings to values, ordered by key. Its view is the map; [`OrderedMap::keys`] is the
/// ascending list of its keys.
#[derive(Debug)]
pub struct OrderedMap<V> {
    entries: Vec<(String, V)>,
}

impl<V> View for OrderedMap<V> {
    type V = Map<Seq<char>, V>;

    closed spec fn view(&self) -> Map<Seq<char>, V> {
        Map::new(
            |key: Seq<char>| exists|i: int| 0 <= i < self.entries@.len() && self.key_at(i) == key,
            |key: Seq<char>| self.entries@[self.index_of(key)].1,
        )
    }
}

impl<V> OrderedMap<V> {
    spec fn key_at(self, i: int) -> Seq<char> {
        self.entries@[i].0@
    }

    spec fn index_of(self, key: Seq<char>) -> int {
        choose|i: int| 0 <= i < self.entries@.len() && self.key_at(i) == key
    }

    /// The keys, in the order in which they are walked.
    pub closed spec fn keys(self) -> Seq<Seq<char>> {
        Seq::new(self.entries@.len(), |i: int| self.key_at(i))
    }

    /// The order that every map keeps.
    pub closed spec fn wf(self) -> bool {
        ascending(self.keys())
    }

    /// The list of keys is ascending and holds exactly the keys of the map.
    pub proof fn lemma_keys(self)
        requires
            self.wf(),
        ensures
            ascending(self.keys()),
            self.keys().no_duplicates(),
            forall|key: Seq<char>| self@.contains_key(key) <==> self.keys().contains(key),
            self@.dom() == self.keys().to_set(),
    {
        lemma_ascending_distinct(self.keys());
        assert forall|key: Seq<char>| self@.contains_key(key) <==> self.keys().contains(key) by {
            if self@.contains_key(key) {
                let i = choose|i: int| 0 <= i < self.entries@.len() && self.key_at(i) == key;
                assert(self.keys()[i] == key);
            }
            if self.keys().contains(key) {
                let i = choose|i: int| 0 <= i < self.keys().len() && self.keys()[i] == key;
                assert(self.key_at(i) == key);
            }
        }
        assert(self@.dom() =~= self.keys().to_set());
    }

    proof fn lemma_entry(self, i: int)
        requires
            self.wf(),
            0 <= i < self.entries@.len(),
        ensures
            self@.contains_key(self.key_at(i)),
            self@[self.key_at(i)] == self.entries@[i].1,
            self.index_of(self.key_at(i)) == i,
    {
        let key = self.key_at(i);
        let j = self.index_of(key);
        assert(0 <= j < self.entries@.len() && self.key_at(j) == key);
        self.lemma_keys();
        assert(self.keys()[i] == self.keys()[j]);
        assert(self@.contains_key(key));
    }

    /// A map without entries.
    pub fn new() -> (map: Self)
        ensures
            map.wf(),
            map@ == Map::<Seq<char>, V>::empty(),
            map.keys() == Seq::<Seq<char>>::empty(),
    {
        let map = OrderedMap { entries: Vec::new() };
        assert(map@ =~= Map::<Seq<char>, V>::empty());
        assert(map.keys() =~= Seq::<Seq<char>>::empty());
        map
    }

    /// The number of entries.
    pub fn len(&self) -> (n: usize)
        ensures
            n == self.keys().len(),
    {
        self.entries.len()
    }

    /// The first position whose key is not before `key`.
    fn position(&self, key: &str) -> (i: usize)
        requires
            self.wf(),
        ensures
            i <= self.entries@.len(),
            forall|j: int| 0 <= j < i ==> text_less(#[trigger] self.key_at(j), key@),
            forall|j: int| i <= j < self.entries@.len() ==> !text_less(#[trigger] self.key_at(j), key@),
    {
        let mut i: usize = 0;
        while i < self.entries.len() && text_before(self.entries[i].0.as_str(), key)
            invariant
                i <= self.entries@.len(),
                forall|j: int| 0 <= j < i ==> text_less(#[trigger] self.key_at(j), key@),
            decreases self.entries@.len() - i,
        {
            assert(text_less(self.key_at(i as int), key@));
            i = i + 1;
        }
        assert forall|j: int| i <= j < self.entries@.len() implies !text_less(
            #[trigger] self.key_at(j),
            key@,
        ) by {
            if text_less(self.key_at(j), key@) {
                if j > i {
                    assert(text_less(self.keys()[i as int], self.keys()[j]));
                    lemma_text_transitive(self.key_at(i as int), self.key_at(j), key@);
                }
                assert(text_less(self.key_at(i as int), key@));
            }
        }
        i
    }

    /// Where `key` stands, if it is there.
    fn find(&self, key: &str) -> (found: Option<usize>)
        requires
            self.wf(),
        ensures
            match found {
                Some(i) => i < self.entries@.len() && self.key_at(i as int) == key@,
                None => !self@.contains_key(key@),
            },
    {
        let i: usize = self.position(key);
        if i < self.entries.len() && same_text(self.entries[i].0.as_str(), key) {
            Some(i)
        } else {
            proof {
                if self@.contains_key(key@) {
                    let j = self.index_of(key@);
                    assert(0 <= j < self.entries@.len() && self.key_at(j) == key@);
                    lemma_text_order(key@, key@);
                    assert(j >= i);
                    if j > i {
                        assert(text_less(self.keys()[i as int], self.keys()[j]));
                        assert(text_less(self.key_at(i as int), key@));
                    }
                }
            }
            None
        }
    }

    /// Whether the map has an entry under `key`.
    pub fn contains_key(&self, key: &str) -> (contains: bool)
        requires
            self.wf(),
        ensures
            contains == self@.contains_key(key@),
    {
        match self.find(key) {
            Some(i) => {
                proof {
                    self.lemma_entry(i as int);
                }
                true
            },
            None => false,
        }
    }

    /// The value under `key`.
    pub fn get(&self, key: &str) -> (value: Option<&V>)
        requires
            self.wf(),
        ensures
            match value {
                Some(value) => self@.contains_key(key@) && self@[key@] == *value,
                None => !self@.contains_key(key@),
            },
    {
        match self.find(key) {
            Some(i) => {
                proof {
                    self.lemma_entry(i as int);
                }
                Some(&self.entries[i].1)
            },
            None => None,
        }
    }

    /// The key at a position of the walk.
    pub fn key(&self, i: usize) -> (key: &String)
        requires
            self.wf(),
            i < self.keys().len(),
        ensures
            key@ == self.keys()[i as int],
    {
        &self.entries[i].0
    }

    /// The value at a position of the walk.
    pub fn value(&self, i: usize) -> (value: &V)
        requires
            self.wf(),
            i < self.keys().len(),
        ensures
            self@.contains_key(self.keys()[i as int]),
            *value == self@[self.keys()[i as int]],
    {
        proof {
            self.lemma_entry(i as int);
        }
        &self.entries[i].1
    }

    /// Puts a value under `key` and returns the one that stood there.
    pub fn insert(&mut self, key: String, value: V) -> (previous: Option<V>)
        requires
            old(self).wf(),
        ensures
            final(self).wf(),
            final(self)@ == old(self)@.insert(key@, value),
            match previous {
                Some(previous) => old(self)@.contains_key(key@) && old(self)@[key@] == previous,
                None => !old(self)@.contains_key(key@),
            },
    {
        let i: usize = self.position(key.as_str());
        let present = i < self.entries.len() && same_text(self.entries[i].0.as_str(), key.as_str());
        let ghost before = *self;
        let ghost name = key@;
        if present {
            proof {
                before.lemma_entry(i as int);
            }
            let (key, previous) = self.entries.remove(i);
            self.entries.insert(i, (key, value));
            proof {
                assert(self.keys() =~= before.keys());
                assert(self.wf());
                assert forall|k: Seq<char>| self@.contains_key(k) <==> before@.insert(
                    name,
                    value,
                ).contains_key(k) by {
                    self.lemma_keys();
                    before.lemma_keys();
                }
                assert forall|k: Seq<char>| self@.contains_key(k) implies self@[k]
                    == before@.insert(name, value)[k] by {
                    let j = self.index_of(k);
                    assert(0 <= j < self.entries@.len() && self.key_at(j) == k);
                    self.lemma_entry(j);
                    before.lemma_entry(j);
                }
                assert(self@ =~= before@.insert(name, value));
            }
            Some(previous)
        } else {
            proof {
                lemma_text_order(name, name);
                if before@.contains_key(name) {
                    let j = before.index_of(name);
                    assert(0 <= j < before.entries@.len() && before.key_at(j) == name);
                    if j > i {
                        assert(text_less(before.keys()[i as int], before.keys()[j]));
                        assert(text_less(before.key_at(i as int), name));
                    }
                    assert(false);
                }
            }
            self.entries.insert(i, (key, value));
            proof {
                assert(self.keys() =~= before.keys().insert(i as int, name));
                assert forall|a: int, b: int| 0 <= a < b < self.keys().len() implies text_less(
                    #[trigger] self.keys()[a],
                    #[trigger] self.keys()[b],
                ) by {
                    if a == i {
                        let other = before.key_at(b - 1);
                        assert(self.keys()[b] == other);
                        lemma_text_order(name, other);
                        if name == other {
                            assert(before@.contains_key(name));
                        }
                    } else if b == i {
                        assert(self.keys()[a] == before.key_at(a));
                    } else {
                        let c = if a < i {
                            a
                        } else {
                            a - 1
                        };
                        let d = if b < i {
                            b
                        } else {
                            b - 1
                        };
                        assert(text_less(before.keys()[c], before.keys()[d]));
                    }
                }
                assert(self.wf());
                assert forall|k: Seq<char>| self@.contains_key(k) <==> before@.insert(
                    name,
                    value,
                ).contains_key(k) by {
                    if before@.contains_key(k) {
                        let j = before.index_of(k);
                        assert(0 <= j < before.entries@.len() && before.key_at(j) == k);
                        if j < i {
                            assert(self.key_at(j) == k);
                        } else {
                            assert(self.key_at(j + 1) == k);
                        }
                    }
                    if k == name {
                        assert(self.key_at(i as int) == k);
                    }
                    if self@.contains_key(k) {
                        let j = self.index_of(k);
                        assert(0 <= j < self.entries@.len() && self.key_at(j) == k);
                        if j < i {
                            assert(before.key_at(j) == k);
                        } else if j > i {
                            assert(before.key_at(j - 1) == k);
                        }
                    }
                }
                assert forall|k: Seq<char>| self@.contains_key(k) implies self@[k]
                    == before@.insert(name, value)[k] by {
                    let j = self.index_of(k);
                    assert(0 <= j < self.entries@.len() && self.key_at(j) == k);
                    self.lemma_entry(j);
                    if j < i {
                        before.lemma_entry(j);
                        assert(before.key_at(j) == k);
                    } else if j > i {
                        before.lemma_entry(j - 1);
                        assert(before.key_at(j - 1) == k);
                    }
                }
                assert(self@ =~= before@.insert(name, value));
            }
            None
        }
    }

    /// Takes the value under `key` out.
    pub fn remove(&mut self, key: &str) -> (removed: Option<V>)
        requires
            old(self).wf(),
        ensures
            final(self).wf(),
            final(self)@ == old(self)@.remove(key@),
            match removed {
                Some(value) => old(self)@.contains_key(key@) && old(self)@[key@] == value,
                None => !old(self)@.contains_key(key@),
            },
            removed is None ==> *final(self) == *old(self),
    {
        match self.find(key) {
            Some(i) => {
                let ghost before = *self;
                proof {
                    before.lemma_entry(i as int);
                }
                let (_, value) = self.entries.remove(i);
                proof {
                    assert(self.keys() =~= before.keys().remove(i as int));
                    assert forall|a: int, b: int| 0 <= a < b < self.keys().len() implies text_less(
                        #[trigger] self.keys()[a],
                        #[trigger] self.keys()[b],
                    ) by {
                        let c = if a < i {
                            a
                        } else {
                            a + 1
                        };
                        let d = if b < i {
                            b
                        } else {
                            b + 1
                        };
                        assert(text_less(before.keys()[c], before.keys()[d]));
                    }
                    assert(self.wf());
                    assert forall|k: Seq<char>| self@.contains_key(k) <==> before@.remove(
                        key@,
                    ).contains_key(k) by {
                        if self@.contains_key(k) {
                            let j = self.index_of(k);
                            assert(0 <= j < self.entries@.len() && self.key_at(j) == k);
                            let c = if j < i {
                                j
                            } else {
                                j + 1
                            };
                            assert(before.key_at(c) == k);
                            before.lemma_keys();
                            assert(before.keys()[c] != before.keys()[i as int]);
                        }
                        if before@.contains_key(k) && k != key@ {
                            let j = before.index_of(k);
                            assert(0 <= j < before.entries@.len() && before.key_at(j) == k);
                            if j < i {
                                assert(self.key_at(j) == k);
                            } else {
                                assert(self.key_at(j - 1) == k);
                            }
                        }
                    }
                    assert forall|k: Seq<char>| self@.contains_key(k) implies self@[k]
                        == before@.remove(key@)[k] by {
                        let j = self.index_of(k);
                        assert(0 <= j < self.entries@.len() && self.key_at(j) == k);
                        self.lemma_entry(j);
                        let c = if j < i {
                            j
                        } else {
                            j + 1
                        };
                        before.lemma_entry(c);
                        assert(before.key_at(c) == k);
                    }
                    assert(self@ =~= before@.remove(key@));
                }
                Some(value)
            },
            None => {
                assert(self@ =~= self@.remove(key@));
                None
            },
        }
    }
}

} // verus!
