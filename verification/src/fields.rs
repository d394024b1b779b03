//! A map from text keys to values that remembers the order in which its keys
//! first arrived.

use crate::text::same_text;
use vstd::prelude::*;

verus! {

/// A finite map keyed by text. Each key occurs once; keys keep the position
/// at which they were first inserted, and overwriting a key keeps its place.
/// Two maps compare equal with `==` when they hold the same entries in the
/// same order.
#[derive(Debug, PartialEq)]
pub struct FieldMap<V> {
    names: Vec<String>,
    items: Vec<V>,
}

impl<V: Clone> Clone for FieldMap<V> {
    /// A copy with the same keys in the same order, each with a clone of its
    /// value.
    fn clone(&self) -> (m: Self)
        ensures
            self.wf() ==> m.wf(),
            m.keys() == self.keys(),
            m.values().len() == self.values().len(),
            forall|i: int|
                0 <= i < self.values().len() ==> cloned::<V>(
                    #[trigger] self.values()[i],
                    m.values()[i],
                ),
    {
        FieldMap { names: self.names.clone(), items: self.items.clone() }
    }
}

impl<V> FieldMap<V> {
    /// The keys, in order of first insertion.
    pub closed spec fn keys(&self) -> Seq<Seq<char>> {
        self.names@.map_values(|s: String| s@)
    }

    /// The values, each at the position of its key.
    pub closed spec fn values(&self) -> Seq<V> {
        self.items@
    }

    /// Keys and values line up, and no key occurs twice.
    pub open spec fn wf(&self) -> bool {
        &&& self.keys().len() == self.values().len()
        &&& self.keys().no_duplicates()
    }

    /// Does the map hold `key`?
    pub open spec fn contains(&self, key: Seq<char>) -> bool {
        self.keys().contains(key)
    }

    /// The value stored under `key`; meaningful where `contains(key)`.
    pub open spec fn value_of(&self, key: Seq<char>) -> V {
        self.values()[self.keys().index_of(key)]
    }

    /// Keys paired with their values, in order of first insertion.
    pub open spec fn entries(&self) -> Seq<(Seq<char>, V)> {
        Seq::new(self.keys().len(), |i: int| (self.keys()[i], self.values()[i]))
    }

    /// The map without its order.
    pub open spec fn as_map(&self) -> Map<Seq<char>, V> {
        Map::new(|k: Seq<char>| self.contains(k), |k: Seq<char>| self.value_of(k))
    }

    /// In a well-formed map, the key at position `i` has the value at `i`.
    pub proof fn law_position_determines_value(&self, i: int)
        requires
            self.wf(),
            0 <= i < self.keys().len(),
        ensures
            self.contains(self.keys()[i]),
            self.value_of(self.keys()[i]) == self.values()[i],
    {
    }

    /// The empty map.
    pub fn new() -> (m: Self)
        ensures
            m.wf(),
            m.keys() == Seq::<Seq<char>>::empty(),
            m.values() == Seq::<V>::empty(),
    {
        FieldMap { names: Vec::new(), items: Vec::new() }
    }

    /// The number of keys.
    pub fn len(&self) -> (n: usize)
        requires
            self.wf(),
        ensures
            n == self.keys().len(),
    {
        self.names.len()
    }

    /// The position of `key`, if the map holds it.
    pub fn position(&self, key: &str) -> (r: Option<usize>)
        requires
            self.wf(),
        ensures
            match r {
                Some(i) => i < self.keys().len() && self.keys()[i as int] == key@,
                None => !self.contains(key@),
            },
    {
        let n = self.names.len();
        let mut i: usize = 0;
        while i < n
            invariant
                i <= n,
                n == self.names@.len(),
                forall|j: int| 0 <= j < i ==> self.keys()[j] != key@,
            decreases n - i,
        {
            if same_text(self.names[i].as_str(), key) {
                return Some(i);
            }
            i += 1;
        }
        None
    }

    /// The key at position `i`.
    pub fn key_at(&self, i: usize) -> (k: &String)
        requires
            self.wf(),
            i < self.keys().len(),
        ensures
            k@ == self.keys()[i as int],
    {
        &self.names[i]
    }

    /// The value at position `i`.
    pub fn value_at(&self, i: usize) -> (v: &V)
        requires
            self.wf(),
            i < self.keys().len(),
        ensures
            *v == self.values()[i as int],
    {
        &self.items[i]
    }

    /// Does the map hold `key`?
    pub fn contains_key(&self, key: &str) -> (b: bool)
        requires
            self.wf(),
        ensures
            b == self.contains(key@),
    {
        self.position(key).is_some()
    }

    /// The value stored under `key`, if any.
    pub fn get(&self, key: &str) -> (r: Option<&V>)
        requires
            self.wf(),
        ensures
            match r {
                Some(v) => self.contains(key@) && *v == self.value_of(key@),
                None => !self.contains(key@),
            },
    {
        match self.position(key) {
            Some(i) => Some(&self.items[i]),
            None => None,
        }
    }

    /// Stores `value` under `key` and returns the value it replaces, if any.
    /// A key already present keeps its position; a new key goes last.
    pub fn insert(&mut self, key: String, value: V) -> (r: Option<V>)
        requires
            old(self).wf(),
        ensures
            final(self).wf(),
            final(self).as_map() == old(self).as_map().insert(key@, value),
            old(self).contains(key@) ==> {
                &&& r == Some(old(self).value_of(key@))
                &&& final(self).keys() == old(self).keys()
                &&& final(self).values() == old(self).values().update(
                    old(self).keys().index_of(key@),
                    value,
                )
            },
            !old(self).contains(key@) ==> {
                &&& r.is_none()
                &&& final(self).keys() == old(self).keys().push(key@)
                &&& final(self).values() == old(self).values().push(value)
            },
    {
        match self.position(key.as_str()) {
            Some(i) => {
                let mut incoming = value;
                core::mem::swap(&mut self.items[i], &mut incoming);
                Some(incoming)
            },
            None => {
                self.names.push(key);
                self.items.push(value);
                proof {
                    assert(self.keys() =~= old(self).keys().push(key@));
                    Self::lemma_push_is_insert(*old(self), *self, key@, value);
                }
                None
            },
        }
    }

    proof fn lemma_push_is_insert(before: Self, after: Self, key: Seq<char>, value: V)
        requires
            before.wf(),
            !before.contains(key),
            after.keys() == before.keys().push(key),
            after.values() == before.values().push(value),
        ensures
            after.wf(),
            after.as_map() =~= before.as_map().insert(key, value),
    {
        let n = before.keys().len() as int;
        assert(after.keys()[n] == key);
        assert forall|k: Seq<char>| after.contains(k) <==> (before.contains(k) || k == key) by {
            if before.contains(k) {
                let j = before.keys().index_of(k);
                assert(after.keys()[j] == k);
            }
        }
        assert forall|k: Seq<char>| after.contains(k) implies #[trigger] after.value_of(k)
            == before.as_map().insert(key, value)[k] by {
            let j = after.keys().index_of(k);
            assert(after.keys()[j] == k);
        }
    }
}

} // verus!
