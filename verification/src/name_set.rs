//! A set of names, held as a list in which no name stands twice.

use vstd::prelude::*;

verus! {

/// Removing the one place at which `x` stands takes `x` out of the set of a
/// list without repetitions, and nothing else.
pub proof fn lemma_remove_unique<A>(s: Seq<A>, i: int)
    requires
        s.no_duplicates(),
        0 <= i < s.len(),
    ensures
        s.remove(i).no_duplicates(),
        s.remove(i).to_set() == s.to_set().remove(s[i]),
{
    let r = s.remove(i);
    assert forall|x: A| r.to_set().contains(x) <==> s.to_set().remove(s[i]).contains(x) by {
        if r.contains(x) {
            let j = choose|j: int| 0 <= j < r.len() && r[j] == x;
            if j < i {
                assert(s[j] == x);
            } else {
                assert(s[j + 1] == x);
            }
        }
        if s.contains(x) && x != s[i] {
            let j = choose|j: int| 0 <= j < s.len() && s[j] == x;
            if j < i {
                assert(r[j] == x);
            } else {
                assert(r[j - 1] == x);
            }
        }
    }
    assert(r.to_set() =~= s.to_set().remove(s[i]));
}

/// Appending a name that a list without repetitions lacks keeps it without
/// repetitions and adds the name to its set.
pub proof fn lemma_push_unique<A>(s: Seq<A>, x: A)
    requires
        s.no_duplicates(),
        !s.contains(x),
    ensures
        s.push(x).no_duplicates(),
        s.push(x).to_set() == s.to_set().insert(x),
{
    let p = s.push(x);
    assert forall|y: A| p.to_set().contains(y) <==> s.to_set().insert(x).contains(y) by {
        if p.contains(y) {
            let j = choose|j: int| 0 <= j < p.len() && p[j] == y;
            if j < s.len() {
                assert(s[j] == y);
            }
        }
        if s.contains(y) {
            let j = choose|j: int| 0 <= j < s.len() && s[j] == y;
            assert(p[j] == y);
        }
        if y == x {
            assert(p[s.len() as int] == y);
        }
    }
    assert(p.to_set() =~= s.to_set().insert(x));
}

/// A set of names.
#[derive(Clone, Debug)]
pub struct NameSet {
    names: Vec<String>,
}

impl View for NameSet {
    type V = Set<Seq<char>>;

    /// The names as a set.
    open spec fn view(&self) -> Set<Seq<char>> {
        self.list().to_set()
    }
}

impl NameSet {
    /// The names in the order in which they are held.
    pub closed spec fn list(&self) -> Seq<Seq<char>> {
        self.names.deep_view()
    }

    /// No name is held twice.
    pub open spec fn wf(&self) -> bool {
        self.list().no_duplicates()
    }

    /// The empty set.
    pub fn new() -> (s: NameSet)
        ensures
            s.wf(),
            s.list() == Seq::<Seq<char>>::empty(),
            s@ == Set::<Seq<char>>::empty(),
    {
        let s = NameSet { names: Vec::new() };
        s
    }

    /// The number of names.
    pub fn len(&self) -> (n: usize)
        ensures
            n == self.list().len(),
            self.wf() ==> n == self@.len(),
    {
        proof {
            if self.wf() {
                self.list().unique_seq_to_set();
            }
        }
        self.names.len()
    }

    /// The name at place `i`.
    pub fn get(&self, i: usize) -> (name: &String)
        requires
            i < self.list().len(),
        ensures
            name@ == self.list()[i as int],
    {
        &self.names[i]
    }

    /// The place at which `name` stands, if it is held.
    pub fn position(&self, name: &String) -> (at: Option<usize>)
        ensures
            match at {
                Some(i) => i < self.list().len() && self.list()[i as int] == name@,
                None => !self@.contains(name@),
            },
    {
        let n = self.names.len();
        let mut i: usize = 0;
        while i < n
            invariant
                i <= n,
                n == self.names.len(),
                forall|k: int| 0 <= k < i ==> self.list()[k] != name@,
            decreases n - i,
        {
            if self.names[i] == *name {
                return Some(i);
            }
            i = i + 1;
        }
        None
    }

    /// Whether `name` is held.
    pub fn contains(&self, name: &String) -> (b: bool)
        ensures
            b == self@.contains(name@),
    {
        self.position(name).is_some()
    }

    /// Adds `name`; says whether it was new.
    pub fn insert(&mut self, name: String) -> (added: bool)
        requires
            old(self).wf(),
        ensures
            final(self).wf(),
            final(self)@ == old(self)@.insert(name@),
            added == !old(self)@.contains(name@),
            final(self).list() == if added {
                old(self).list().push(name@)
            } else {
                old(self).list()
            },
    {
        if self.contains(&name) {
            false
        } else {
            proof {
                lemma_push_unique(self.list(), name@);
            }
            let ghost before = self.list();
            self.names.push(name);
            assert(self.list() == before.push(name@));
            true
        }
    }

    /// Takes `name` out; says whether it was held.
    pub fn remove(&mut self, name: &String) -> (removed: bool)
        requires
            old(self).wf(),
        ensures
            final(self).wf(),
            final(self)@ == old(self)@.remove(name@),
            removed == old(self)@.contains(name@),
            final(self).list() == if removed {
                old(self).list().remove(old(self).list().index_of(name@))
            } else {
                old(self).list()
            },
    {
        match self.position(name) {
            Some(i) => {
                proof {
                    lemma_remove_unique(self.list(), i as int);
                }
                let ghost before = self.list();
                self.names.remove(i);
                assert(self.list() == before.remove(i as int));
                true
            },
            None => false,
        }
    }

    /// The names as a list of their own, without repetitions.
    pub fn to_vec(&self) -> (names: Vec<String>)
        ensures
            names.deep_view() == self.list(),
    {
        let n = self.names.len();
        let mut names: Vec<String> = Vec::new();
        let mut i: usize = 0;
        while i < n
            invariant
                i <= n,
                n == self.names.len(),
                names.deep_view() == self.list().take(i as int),
            decreases n - i,
        {
            let ghost before = names.deep_view();
            names.push(self.names[i].clone());
            assert(names.deep_view() == before.push(self.list()[i as int]));
            i = i + 1;
        }
        names
    }
}

} // verus!
