//! A small insertion-ordered map from strings to values.
//!
//! Keys are compared by their characters. The map is described by two models:
//! the sequence of `(key, value)` pairs in insertion order, and the
//! mathematical map that this sequence denotes.
use crate::text::str_eq;
use vstd::prelude::*;

verus! {

/// Whether some pair of `pairs` carries `key`.
pub open spec fn has_key<V>(pairs: Seq<(Seq<char>, V)>, key: Seq<char>) -> bool {
    exists|i: int| 0 <= i < pairs.len() && (#[trigger] pairs[i]).0 == key
}

/// A position of `pairs` that carries `key`, when there is one.
pub open spec fn position_of<V>(pairs: Seq<(Seq<char>, V)>, key: Seq<char>) -> int {
    choose|i: int| 0 <= i < pairs.len() && (#[trigger] pairs[i]).0 == key
}

/// No key occurs at two positions of `pairs`.
pub open spec fn distinct_keys<V>(pairs: Seq<(Seq<char>, V)>) -> bool {
    forall|i: int, j: int|
        0 <= i < j < pairs.len() ==> (#[trigger] pairs[i]).0 != (#[trigger] pairs[j]).0
}

/// The map that a sequence of pairs denotes.
pub open spec fn pairs_to_map<V>(pairs: Seq<(Seq<char>, V)>) -> Map<Seq<char>, V> {
    Map::new(
        |k: Seq<char>| has_key(pairs, k),
        |k: Seq<char>| pairs[position_of(pairs, k)].1,
    )
}

/// With distinct keys, every pair is an entry of the denoted map.
pub proof fn lemma_pair_is_entry<V>(pairs: Seq<(Seq<char>, V)>, i: int)
    requires
        distinct_keys(pairs),
        0 <= i < pairs.len(),
    ensures
        has_key(pairs, pairs[i].0),
        position_of(pairs, pairs[i].0) == i,
        pairs_to_map(pairs).contains_key(pairs[i].0),
        pairs_to_map(pairs)[pairs[i].0] == pairs[i].1,
{
    let k = pairs[i].0;
    let p = position_of(pairs, k);
    assert(0 <= p < pairs.len() && pairs[p].0 == k);
    if p < i {
        assert(pairs[p].0 != pairs[i].0);
    } else if i < p {
        assert(pairs[i].0 != pairs[p].0);
    }
}

/// Appending a pair with a fresh key adds one entry to the denoted map.
pub proof fn lemma_push_fresh<V>(pairs: Seq<(Seq<char>, V)>, key: Seq<char>, value: V)
    requires
        distinct_keys(pairs),
        !has_key(pairs, key),
    ensures
        distinct_keys(pairs.push((key, value))),
        pairs_to_map(pairs.push((key, value))) == pairs_to_map(pairs).insert(key, value),
{
    let after = pairs.push((key, value));
    assert(distinct_keys(after)) by {
        assert forall|i: int, j: int| 0 <= i < j < after.len() implies (#[trigger] after[i]).0
            != (#[trigger] after[j]).0 by {
            if j < pairs.len() {
                assert(pairs[i].0 != pairs[j].0);
            } else {
                assert(pairs[i].0 != key);
            }
        }
    }
    let m = pairs_to_map(after);
    let expected = pairs_to_map(pairs).insert(key, value);
    assert forall|k: Seq<char>| m.contains_key(k) <==> expected.contains_key(k) by {
        if m.contains_key(k) {
            let p = position_of(after, k);
            if p < pairs.len() {
                assert(pairs[p].0 == k);
            }
        }
        if expected.contains_key(k) {
            if k == key {
                assert(after[pairs.len() as int].0 == k);
            } else {
                let p = position_of(pairs, k);
                assert(after[p].0 == k);
            }
        }
    }
    assert forall|k: Seq<char>| m.contains_key(k) implies m[k] == expected[k] by {
        let p = position_of(after, k);
        lemma_pair_is_entry(after, p);
        if p < pairs.len() {
            assert(pairs[p] == after[p]);
            lemma_pair_is_entry(pairs, p);
        }
    }
    assert(m =~= expected);
}

/// Replacing the value at the position of a key replaces that entry of the
/// denoted map.
pub proof fn lemma_update_existing<V>(pairs: Seq<(Seq<char>, V)>, i: int, value: V)
    requires
        distinct_keys(pairs),
        0 <= i < pairs.len(),
    ensures
        distinct_keys(pairs.update(i, (pairs[i].0, value))),
        pairs_to_map(pairs.update(i, (pairs[i].0, value))) == pairs_to_map(pairs).insert(
            pairs[i].0,
            value,
        ),
{
    let key = pairs[i].0;
    let after = pairs.update(i, (key, value));
    assert forall|a: int| 0 <= a < after.len() implies (#[trigger] after[a]).0 == pairs[a].0 by {}
    assert(distinct_keys(after)) by {
        assert forall|a: int, b: int| 0 <= a < b < after.len() implies (#[trigger] after[a]).0
            != (#[trigger] after[b]).0 by {
            assert(pairs[a].0 != pairs[b].0);
        }
    }
    let m = pairs_to_map(after);
    let expected = pairs_to_map(pairs).insert(key, value);
    assert forall|k: Seq<char>| m.contains_key(k) <==> expected.contains_key(k) by {
        if m.contains_key(k) {
            let p = position_of(after, k);
            assert(pairs[p].0 == k);
        }
        if expected.contains_key(k) {
            if k == key {
                assert(after[i].0 == k);
            } else {
                let p = position_of(pairs, k);
                assert(after[p].0 == k);
            }
        }
    }
    assert forall|k: Seq<char>| m.contains_key(k) implies m[k] == expected[k] by {
        let p = position_of(after, k);
        lemma_pair_is_entry(after, p);
        lemma_pair_is_entry(pairs, p);
    }
    assert(m =~= expected);
}

/// An insertion-ordered map from strings to values of type `V`.
///
/// No key is held twice; inserting under a key that is present replaces the
/// value and keeps the key's position.
#[derive(Debug)]
pub struct StringMap<V> {
    entries: Vec<(String, V)>,
}

impl<V> View for StringMap<V> {
    type V = Map<Seq<char>, V>;

    /// The map from each key's characters to its value.
    open spec fn view(&self) -> Map<Seq<char>, V> {
        pairs_to_map(self.pairs())
    }
}

impl<V> StringMap<V> {
    /// The entries in insertion order, each key taken by its characters.
    pub closed spec fn pairs(&self) -> Seq<(Seq<char>, V)> {
        Seq::new(self.entries@.len(), |i: int| (self.entries@[i].0@, self.entries@[i].1))
    }

    /// Every value of this type holds each key once.
    #[verifier::type_invariant]
    pub open spec fn inv(&self) -> bool {
        distinct_keys(self.pairs())
    }

    /// An empty map.
    pub fn new() -> (map: Self)
        ensures
            map.pairs() == Seq::<(Seq<char>, V)>::empty(),
            map@ == Map::<Seq<char>, V>::empty(),
    {
        let map = StringMap { entries: Vec::new() };
        proof {
            assert(map.pairs() =~= Seq::<(Seq<char>, V)>::empty());
            assert(map@ =~= Map::<Seq<char>, V>::empty());
        }
        map
    }

    /// The number of entries.
    pub fn len(&self) -> (n: usize)
        ensures
            n == self.pairs().len(),
            n == self@.len(),
            self@.dom().finite(),
    {
        proof {
            use_type_invariant(self);
            lemma_map_size(self.pairs());
        }
        self.entries.len()
    }

    /// Whether the map holds no entry.
    pub fn is_empty(&self) -> (empty: bool)
        ensures
            empty == (self.pairs().len() == 0),
            empty == (self@ == Map::<Seq<char>, V>::empty()),
    {
        proof {
            if self.pairs().len() == 0 {
                assert(self@ =~= Map::<Seq<char>, V>::empty());
            } else {
                assert(has_key(self.pairs(), self.pairs()[0].0));
                assert(self@.contains_key(self.pairs()[0].0));
            }
        }
        self.entries.len() == 0
    }

    /// The position of `key` among the entries, if it is present.
    fn find(&self, key: &str) -> (at: Option<usize>)
        ensures
            match at {
                Some(i) => i < self.pairs().len() && self.pairs()[i as int].0 == key@
                    && position_of(self.pairs(), key@) == i,
                None => !has_key(self.pairs(), key@),
            },
    {
        let mut i: usize = 0;
        while i < self.entries.len()
            invariant
                i <= self.entries.len(),
                self.entries@.len() == self.pairs().len(),
                forall|j: int| 0 <= j < i ==> (#[trigger] self.pairs()[j]).0 != key@,
            decreases self.entries.len() - i,
        {
            if str_eq(self.entries[i].0.as_str(), key) {
                proof {
                    use_type_invariant(self);
                    lemma_pair_is_entry(self.pairs(), i as int);
                }
                return Some(i);
            }
            i += 1;
        }
        None
    }

    /// Whether `key` is present.
    pub fn contains_key(&self, key: &str) -> (present: bool)
        ensures
            present == self@.contains_key(key@),
            present == has_key(self.pairs(), key@),
    {
        self.find(key).is_some()
    }

    /// The value stored under `key`, if any.
    pub fn get(&self, key: &str) -> (found: Option<&V>)
        ensures
            found == (if self@.contains_key(key@) {
                Some(&self@[key@])
            } else {
                None
            }),
    {
        match self.find(key) {
            Some(i) => Some(&self.entries[i].1),
            None => None,
        }
    }

    /// The key of the entry at position `i`.
    pub fn key_at(&self, i: usize) -> (key: &String)
        requires
            i < self.pairs().len(),
        ensures
            key@ == self.pairs()[i as int].0,
    {
        &self.entries[i].0
    }

    /// The value of the entry at position `i`.
    pub fn value_at(&self, i: usize) -> (value: &V)
        requires
            i < self.pairs().len(),
        ensures
            *value == self.pairs()[i as int].1,
    {
        &self.entries[i].1
    }

    /// The entries in insertion order, handed over to the caller.
    pub fn into_pairs(self) -> (list: Vec<(String, V)>)
        ensures
            list@.len() == self.pairs().len(),
            forall|i: int|
                0 <= i < list@.len() ==> (#[trigger] list@[i]).0@ == self.pairs()[i].0
                    && list@[i].1 == self.pairs()[i].1,
    {
        self.entries
    }

    /// Stores `value` under `key` and returns the value that it replaces.
    ///
    /// A key that is present keeps its position; a new key goes to the end.
    pub fn insert(&mut self, key: String, value: V) -> (previous: Option<V>)
        ensures
            final(self)@ == old(self)@.insert(key@, value),
            has_key(old(self).pairs(), key@) ==> final(self).pairs() == old(self).pairs().update(
                position_of(old(self).pairs(), key@),
                (key@, value),
            ),
            !has_key(old(self).pairs(), key@) ==> final(self).pairs() == old(self).pairs().push(
                (key@, value),
            ),
            previous == (if old(self)@.contains_key(key@) {
                Some(old(self)@[key@])
            } else {
                None
            }),
    {
        proof {
            use_type_invariant(&*self);
        }
        let at = self.find(key.as_str());
        let ghost before = self.pairs();
        let mut entries: Vec<(String, V)> = Vec::new();
        core::mem::swap(&mut self.entries, &mut entries);
        let previous = match at {
            Some(i) => {
                proof {
                    lemma_update_existing(before, i as int, value);
                }
                let replaced = entries.remove(i);
                entries.insert(i, (key, value));
                Some(replaced.1)
            },
            None => {
                proof {
                    lemma_push_fresh(before, key@, value);
                }
                entries.push((key, value));
                None
            },
        };
        proof {
            let after = Seq::new(entries@.len(), |i: int| (entries@[i].0@, entries@[i].1));
            if at is Some {
                assert(after =~= before.update(at->0 as int, (key@, value)));
            } else {
                assert(after =~= before.push((key@, value)));
            }
        }
        self.entries = entries;
        previous
    }
}

impl StringMap<String> {
    /// The entries in insertion order, keys and values taken by their
    /// characters.
    pub open spec fn text_pairs(&self) -> Seq<(Seq<char>, Seq<char>)> {
        self.pairs().map_values(|p: (Seq<char>, String)| (p.0, p.1@))
    }
}

impl<V: Clone> Clone for StringMap<V> {
    /// A map with the same keys in the same order, each value cloned.
    fn clone(&self) -> (copy: Self)
        ensures
            copy.pairs().len() == self.pairs().len(),
            forall|i: int|
                0 <= i < self.pairs().len() ==> (#[trigger] copy.pairs()[i]).0 == self.pairs()[i].0
                    && cloned(self.pairs()[i].1, copy.pairs()[i].1),
    {
        proof {
            use_type_invariant(self);
        }
        let mut entries: Vec<(String, V)> = Vec::new();
        let mut i: usize = 0;
        while i < self.entries.len()
            invariant
                i <= self.entries.len(),
                entries@.len() == i,
                forall|j: int|
                    0 <= j < i ==> (#[trigger] entries@[j]).0@ == self.entries@[j].0@ && cloned(
                        self.entries@[j].1,
                        entries@[j].1,
                    ),
            decreases self.entries.len() - i,
        {
            let key = self.entries[i].0.clone();
            let value = self.entries[i].1.clone();
            entries.push((key, value));
            i += 1;
        }
        proof {
            let after = Seq::new(entries@.len(), |i: int| (entries@[i].0@, entries@[i].1));
            assert forall|a: int, b: int| 0 <= a < b < after.len() implies (#[trigger] after[a]).0
                != (#[trigger] after[b]).0 by {
                assert(self.pairs()[a].0 != self.pairs()[b].0);
            }
        }
        StringMap { entries }
    }
}

/// With distinct keys, the denoted map is finite and has one entry per pair.
pub proof fn lemma_map_size<V>(pairs: Seq<(Seq<char>, V)>)
    requires
        distinct_keys(pairs),
    ensures
        pairs_to_map(pairs).dom().finite(),
        pairs_to_map(pairs).len() == pairs.len(),
    decreases pairs.len(),
{
    if pairs.len() == 0 {
        assert(pairs_to_map(pairs) =~= Map::<Seq<char>, V>::empty());
    } else {
        let last = pairs.last();
        let front = pairs.drop_last();
        assert forall|i: int, j: int| 0 <= i < j < front.len() implies (#[trigger] front[i]).0 != (
        #[trigger] front[j]).0 by {
            assert(pairs[i].0 != pairs[j].0);
        }
        assert(!has_key(front, last.0)) by {
            if has_key(front, last.0) {
                let p = position_of(front, last.0);
                assert(pairs[p].0 != pairs[pairs.len() - 1].0);
            }
        }
        lemma_map_size(front);
        lemma_push_fresh(front, last.0, last.1);
        assert(front.push((last.0, last.1)) =~= pairs);
        assert(!pairs_to_map(front).contains_key(last.0));
    }
}

} // verus!
