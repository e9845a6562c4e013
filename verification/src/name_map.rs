//! A map from names to values, held as two lists side by side: the names, of
//! which none stands twice, and the value that belongs to each.

use vstd::prelude::*;
use crate::name_set::{lemma_push_unique, lemma_remove_unique};

verus! {

/// The map that a list of distinct keys and the list of their values stand
/// for.
pub open spec fn assoc<V>(keys: Seq<Seq<char>>, vals: Seq<V>) -> Map<Seq<char>, V> {
    Map::new(|k: Seq<char>| keys.contains(k), |k: Seq<char>| vals[keys.index_of(k)])
}

/// Each key of the list maps to the value at its place.
pub proof fn lemma_assoc_at<V>(keys: Seq<Seq<char>>, vals: Seq<V>, i: int)
    requires
        keys.no_duplicates(),
        keys.len() == vals.len(),
        0 <= i < keys.len(),
    ensures
        assoc(keys, vals).dom().contains(keys[i]),
        assoc(keys, vals)[keys[i]] == vals[i],
        keys.index_of(keys[i]) == i,
{
}

/// Appending a fresh key with its value inserts the pair.
pub proof fn lemma_assoc_push<V>(keys: Seq<Seq<char>>, vals: Seq<V>, k: Seq<char>, v: V)
    requires
        keys.no_duplicates(),
        keys.len() == vals.len(),
        !keys.contains(k),
    ensures
        keys.push(k).no_duplicates(),
        assoc(keys.push(k), vals.push(v)) == assoc(keys, vals).insert(k, v),
{
    lemma_push_unique(keys, k);
    let keys2 = keys.push(k);
    let vals2 = vals.push(v);
    assert forall|x: Seq<char>| keys2.contains(x) <==> (keys.contains(x) || x == k) by {
        assert(keys2.to_set().contains(x) <==> keys.to_set().insert(k).contains(x));
    }
    assert forall|x: Seq<char>| keys2.contains(x) implies #[trigger] assoc(keys2, vals2)[x]
        == assoc(keys, vals).insert(k, v)[x] by {
        let j = keys2.index_of(x);
        lemma_assoc_at(keys2, vals2, j);
        if j < keys.len() {
            lemma_assoc_at(keys, vals, j);
        }
    }
}

/// Replacing the value at one place replaces the value of its key.
pub proof fn lemma_assoc_update<V>(keys: Seq<Seq<char>>, vals: Seq<V>, i: int, v: V)
    requires
        keys.no_duplicates(),
        keys.len() == vals.len(),
        0 <= i < keys.len(),
    ensures
        assoc(keys, vals.update(i, v)) == assoc(keys, vals).insert(keys[i], v),
{
    let vals2 = vals.update(i, v);
    assert forall|x: Seq<char>| keys.contains(x) implies #[trigger] assoc(keys, vals2)[x] == assoc(
        keys,
        vals,
    ).insert(keys[i], v)[x] by {
        let j = keys.index_of(x);
        lemma_assoc_at(keys, vals2, j);
        lemma_assoc_at(keys, vals, j);
    }
}

/// Taking out one place removes its key.
pub proof fn lemma_assoc_remove<V>(keys: Seq<Seq<char>>, vals: Seq<V>, i: int)
    requires
        keys.no_duplicates(),
        keys.len() == vals.len(),
        0 <= i < keys.len(),
    ensures
        keys.remove(i).no_duplicates(),
        assoc(keys.remove(i), vals.remove(i)) == assoc(keys, vals).remove(keys[i]),
{
    lemma_remove_unique(keys, i);
    let keys2 = keys.remove(i);
    let vals2 = vals.remove(i);
    assert forall|x: Seq<char>| keys2.contains(x) <==> (keys.contains(x) && x != keys[i]) by {
        assert(keys2.to_set().contains(x) <==> keys.to_set().remove(keys[i]).contains(x));
    }
    assert forall|x: Seq<char>| keys2.contains(x) implies #[trigger] assoc(keys2, vals2)[x]
        == assoc(keys, vals).remove(keys[i])[x] by {
        let j = keys2.index_of(x);
        lemma_assoc_at(keys2, vals2, j);
        if j < i {
            lemma_assoc_at(keys, vals, j);
        } else {
            lemma_assoc_at(keys, vals, j + 1);
        }
    }
}

/// A map from names to values of type `V`.
#[derive(Clone, Debug)]
pub struct NameMap<V> {
    keys: Vec<String>,
    vals: Vec<V>,
}

impl<T> View for NameMap<T> {
    type V = Map<Seq<char>, T>;

    /// The map that is held.
    open spec fn view(&self) -> Map<Seq<char>, T> {
        assoc(self.keys(), self.vals())
    }
}

impl<V> NameMap<V> {
    /// The names in the order in which they are held.
    pub closed spec fn keys(&self) -> Seq<Seq<char>> {
        self.keys.deep_view()
    }

    /// The values, each at the place of its name.
    pub closed spec fn vals(&self) -> Seq<V> {
        self.vals@
    }

    /// Every name has a value, and no name is held twice.
    pub open spec fn wf(&self) -> bool {
        &&& self.keys().len() == self.vals().len()
        &&& self.keys().no_duplicates()
    }

    /// What the two lists say of the map: the pair at each place belongs to
    /// it, and each of its keys stands at some place.
    pub proof fn lemma_view(&self)
        requires
            self.wf(),
        ensures
            forall|i: int|
                0 <= i < self.keys().len() ==> self@.dom().contains(#[trigger] self.keys()[i])
                    && self@[self.keys()[i]] == self.vals()[i],
            forall|k: Seq<char>| #[trigger]
                self@.dom().contains(k) ==> self.keys().contains(k) && 0 <= self.keys().index_of(k)
                    < self.keys().len() && self.keys()[self.keys().index_of(k)] == k,
            self@.dom() == self.keys().to_set(),
            self@.dom().finite(),
            self@.dom().len() == self.keys().len(),
    {
        assert forall|i: int| 0 <= i < self.keys().len() implies self@.dom().contains(
            #[trigger] self.keys()[i],
        ) && self@[self.keys()[i]] == self.vals()[i] by {
            lemma_assoc_at(self.keys(), self.vals(), i);
        }
        self.keys().unique_seq_to_set();
    }

    /// The empty map.
    pub fn new() -> (m: NameMap<V>)
        ensures
            m.wf(),
            m.keys() == Seq::<Seq<char>>::empty(),
            m@ == Map::<Seq<char>, V>::empty(),
    {
        let m = NameMap { keys: Vec::new(), vals: Vec::new() };
        m
    }

    /// The number of names.
    pub fn len(&self) -> (n: usize)
        requires
            self.wf(),
        ensures
            n == self.keys().len(),
            n == self@.dom().len(),
    {
        proof {
            self.lemma_view();
        }
        self.keys.len()
    }

    /// The place at which `key` stands, if the map holds it.
    pub fn position(&self, key: &String) -> (at: Option<usize>)
        requires
            self.wf(),
        ensures
            match at {
                Some(i) => i < self.keys().len() && self.keys()[i as int] == key@
                    && self@.dom().contains(key@) && self@[key@] == self.vals()[i as int],
                None => !self@.dom().contains(key@),
            },
    {
        let n = self.keys.len();
        let mut i: usize = 0;
        while i < n
            invariant
                self.wf(),
                i <= n,
                n == self.keys.len(),
                forall|k: int| 0 <= k < i ==> self.keys()[k] != key@,
            decreases n - i,
        {
            if self.keys[i] == *key {
                proof {
                    lemma_assoc_at(self.keys(), self.vals(), i as int);
                }
                return Some(i);
            }
            i = i + 1;
        }
        None
    }

    /// The name at place `i`.
    pub fn key_at(&self, i: usize) -> (key: &String)
        requires
            i < self.keys().len(),
        ensures
            key@ == self.keys()[i as int],
    {
        &self.keys[i]
    }

    /// The value at place `i`.
    pub fn value_at(&self, i: usize) -> (value: &V)
        requires
            self.wf(),
            i < self.keys().len(),
        ensures
            *value == self.vals()[i as int],
            *value == self@[self.keys()[i as int]],
    {
        proof {
            lemma_assoc_at(self.keys(), self.vals(), i as int);
        }
        &self.vals[i]
    }

    /// The value at place `i`, to be changed where it stands.
    pub fn value_mut(&mut self, i: usize) -> (value: &mut V)
        requires
            old(self).wf(),
            i < old(self).keys().len(),
        ensures
            *value == old(self).vals()[i as int],
            final(self).wf(),
            final(self).keys() == old(self).keys(),
            final(self).vals() == old(self).vals().update(i as int, *final(value)),
            final(self)@ == old(self)@.insert(old(self).keys()[i as int], *final(value)),
    {
        proof {
            let keys = self.keys();
            let vals = self.vals();
            assert forall|v: V| #[trigger]
                assoc(keys, vals.update(i as int, v)) == assoc(keys, vals).insert(
                    keys[i as int],
                    v,
                ) by {
                lemma_assoc_update(keys, vals, i as int, v);
            }
        }
        &mut self.vals[i]
    }

    /// Adds a name that the map lacks, with its value, behind the others.
    pub fn push(&mut self, key: String, value: V)
        requires
            old(self).wf(),
            !old(self)@.dom().contains(key@),
        ensures
            final(self).wf(),
            final(self).keys() == old(self).keys().push(key@),
            final(self).vals() == old(self).vals().push(value),
            final(self)@ == old(self)@.insert(key@, value),
    {
        proof {
            lemma_assoc_push(self.keys(), self.vals(), key@, value);
        }
        let ghost before = self.keys();
        self.keys.push(key);
        self.vals.push(value);
        assert(self.keys() == before.push(key@));
    }

    /// Takes out the name at place `i` and hands back its value.
    pub fn remove_at(&mut self, i: usize) -> (value: V)
        requires
            old(self).wf(),
            i < old(self).keys().len(),
        ensures
            value == old(self).vals()[i as int],
            final(self).wf(),
            final(self).keys() == old(self).keys().remove(i as int),
            final(self).vals() == old(self).vals().remove(i as int),
            final(self)@ == old(self)@.remove(old(self).keys()[i as int]),
    {
        proof {
            lemma_assoc_remove(self.keys(), self.vals(), i as int);
        }
        let ghost before = self.keys();
        self.keys.remove(i);
        let value = self.vals.remove(i);
        assert(self.keys() == before.remove(i as int));
        value
    }
}

} // verus!
