//! The membership index: for each user, the channels that they are in.

use vstd::prelude::*;
use crate::name_map::NameMap;
use crate::name_set::NameSet;

verus! {

/// For each user the set of channels that they are recorded in. A user of
/// whom nothing is recorded is in no channel.
#[derive(Clone, Debug)]
pub struct Membership {
    entries: NameMap<NameSet>,
}

impl Membership {
    /// Each user is held once, and so is each channel of a user.
    pub closed spec fn wf(&self) -> bool {
        &&& self.entries.wf()
        &&& forall|i: int|
            0 <= i < self.entries.keys().len() ==> (#[trigger] self.entries.vals()[i]).wf()
    }

    /// The channels that `name` is recorded in.
    pub closed spec fn channels_of(&self, name: Seq<char>) -> Set<Seq<char>> {
        if self.entries@.dom().contains(name) {
            self.entries@[name]@
        } else {
            Set::empty()
        }
    }

    /// An index in which nobody is recorded.
    pub fn new() -> (index: Membership)
        ensures
            index.wf(),
            forall|name: Seq<char>| #[trigger] index.channels_of(name) == Set::<Seq<char>>::empty(),
    {
        Membership { entries: NameMap::new() }
    }

    /// Records `name` in `channel`.
    pub fn add(&mut self, name: &str, channel: &str)
        requires
            old(self).wf(),
        ensures
            final(self).wf(),
            forall|n: Seq<char>| #[trigger]
                final(self).channels_of(n) == if n == name@ {
                    old(self).channels_of(n).insert(channel@)
                } else {
                    old(self).channels_of(n)
                },
    {
        let key = name.to_owned();
        match self.entries.position(&key) {
            Some(i) => {
                let set = self.entries.value_mut(i);
                set.insert(channel.to_owned());
            },
            None => {
                let mut set = NameSet::new();
                set.insert(channel.to_owned());
                self.entries.push(key, set);
            },
        }
    }

    /// Records `name` in each of `channels`.
    pub fn add_all(&mut self, name: &str, channels: &Vec<String>)
        requires
            old(self).wf(),
        ensures
            final(self).wf(),
            forall|n: Seq<char>| #[trigger]
                final(self).channels_of(n) == if n == name@ {
                    old(self).channels_of(n).union(channels.deep_view().to_set())
                } else {
                    old(self).channels_of(n)
                },
    {
        let count = channels.len();
        let mut i: usize = 0;
        while i < count
            invariant
                self.wf(),
                i <= count,
                count == channels.len(),
                forall|n: Seq<char>| #[trigger]
                    self.channels_of(n) == if n == name@ {
                        old(self).channels_of(n).union(
                            channels.deep_view().take(i as int).to_set(),
                        )
                    } else {
                        old(self).channels_of(n)
                    },
            decreases count - i,
        {
            let ghost all = channels.deep_view();
            self.add(name, channels[i].as_str());
            proof {
                assert(all.take(i + 1) == all.take(i as int).push(all[i as int]));
                all.take(i as int).lemma_push_to_set_commute(all[i as int]);
            }
            i = i + 1;
        }
        assert(channels.deep_view().take(count as int) == channels.deep_view());
    }

    /// The channels that `name` is recorded in, each once.
    pub fn get(&self, name: &str) -> (channels: Vec<String>)
        requires
            self.wf(),
        ensures
            channels.deep_view().no_duplicates(),
            channels.deep_view().to_set() == self.channels_of(name@),
    {
        let key = name.to_owned();
        match self.entries.position(&key) {
            Some(i) => self.entries.value_at(i).to_vec(),
            None => Vec::new(),
        }
    }

    /// Forgets `name`, and hands back the channels that they were recorded
    /// in, each once.
    pub fn take(&mut self, name: &str) -> (channels: Vec<String>)
        requires
            old(self).wf(),
        ensures
            final(self).wf(),
            channels.deep_view().no_duplicates(),
            channels.deep_view().to_set() == old(self).channels_of(name@),
            forall|n: Seq<char>| #[trigger]
                final(self).channels_of(n) == if n == name@ {
                    Set::<Seq<char>>::empty()
                } else {
                    old(self).channels_of(n)
                },
    {
        let key = name.to_owned();
        match self.entries.position(&key) {
            Some(i) => {
                let set = self.entries.remove_at(i);
                set.to_vec()
            },
            None => Vec::new(),
        }
    }
}

} // verus!
