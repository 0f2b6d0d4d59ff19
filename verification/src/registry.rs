//! Values that are registered under a string ID, each ID at most once.
use vstd::prelude::*;

verus! {

/// A table of values, each under an ID of its own.
///
/// Its view is the map from IDs to values.
pub struct Registry<V> {
    entries: Vec<(String, V)>,
}

impl<V> View for Registry<V> {
    type V = Map<Seq<char>, V>;

    closed spec fn view(&self) -> Map<Seq<char>, V> {
        Map::new(|id: Seq<char>| self.holds(id), |id: Seq<char>| self.entries@[self.slot(id)].1)
    }
}

impl<V> Registry<V> {
    #[verifier::type_invariant]
    spec fn ids_are_distinct(self) -> bool {
        forall|i: int, j: int|
            0 <= i < j < self.entries@.len() ==> (#[trigger] self.entries@[i]).0@ != (
            #[trigger] self.entries@[j]).0@
    }

    spec fn holds(self, id: Seq<char>) -> bool {
        exists|i: int| 0 <= i < self.entries@.len() && (#[trigger] self.entries@[i]).0@ == id
    }

    spec fn slot(self, id: Seq<char>) -> int {
        choose|i: int| 0 <= i < self.entries@.len() && (#[trigger] self.entries@[i]).0@ == id
    }

    /// Where the entry with an ID stands.
    fn find(&self, id: &String) -> (found: Option<usize>)
        ensures
            match found {
                Some(i) => i < self.entries@.len() && self.entries@[i as int].0@ == id@,
                None => !self.holds(id@),
            },
    {
        let mut i: usize = 0;
        while i < self.entries.len()
            invariant
                i <= self.entries@.len(),
                forall|j: int| 0 <= j < i ==> (#[trigger] self.entries@[j]).0@ != id@,
            decreases self.entries@.len() - i,
        {
            if self.entries[i].0 == *id {
                return Some(i);
            }
            i = i + 1;
        }
        None
    }

    /// A registry that holds nothing.
    pub fn new() -> (registry: Self)
        ensures
            registry@ == Map::<Seq<char>, V>::empty(),
    {
        let registry = Registry { entries: Vec::new() };
        assert(registry@ =~= Map::<Seq<char>, V>::empty());
        registry
    }

    /// Whether something is registered under an ID.
    pub fn contains(&self, id: &String) -> (found: bool)
        ensures
            found == self@.contains_key(id@),
    {
        self.find(id).is_some()
    }

    /// What is registered under an ID.
    pub fn get(&self, id: &String) -> (value: Option<&V>)
        ensures
            match value {
                Some(v) => self@.contains_key(id@) && *v == self@[id@],
                None => !self@.contains_key(id@),
            },
    {
        proof {
            use_type_invariant(self);
        }
        match self.find(id) {
            Some(i) => {
                assert(self.slot(id@) == i);
                Some(&self.entries[i].1)
            },
            None => None,
        }
    }

    /// Registers a value under an ID that is free. Under an ID that is taken, nothing changes.
    /// Says whether the value was registered.
    pub fn insert(&mut self, id: String, value: V) -> (inserted: bool)
        ensures
            inserted == !old(self)@.contains_key(id@),
            final(self)@ == if inserted {
                old(self)@.insert(id@, value)
            } else {
                old(self)@
            },
    {
        proof {
            use_type_invariant(&*self);
        }
        if self.find(&id).is_some() {
            return false;
        }
        let ghost before = *self;
        let mut entries: Vec<(String, V)> = Vec::new();
        std::mem::swap(&mut entries, &mut self.entries);
        entries.push((id, value));
        self.entries = entries;
        proof {
            let n = before.entries@.len();
            assert(self.entries@[n as int].0@ == id@);
            assert forall|k: Seq<char>| self.holds(k) == (before.holds(k) || k == id@) by {
                if before.holds(k) {
                    let i = before.slot(k);
                    assert(self.entries@[i].0@ == k);
                }
            }
            assert forall|k: Seq<char>| before.holds(k) implies self.slot(k) == before.slot(k) by {
                let i = before.slot(k);
                assert(self.entries@[i].0@ == k);
            }
            assert(self.slot(id@) == n);
            assert(self@ =~= before@.insert(id@, value));
        }
        true
    }

    /// Takes out what is registered under an ID.
    pub fn remove(&mut self, id: &String) -> (removed: Option<V>)
        ensures
            removed == if old(self)@.contains_key(id@) {
                Some(old(self)@[id@])
            } else {
                None
            },
            final(self)@ == old(self)@.remove(id@),
    {
        proof {
            use_type_invariant(&*self);
        }
        let ghost before = *self;
        match self.find(id) {
            Some(i) => {
                assert(before.slot(id@) == i);
                let mut entries: Vec<(String, V)> = Vec::new();
                std::mem::swap(&mut entries, &mut self.entries);
                let (_, value) = entries.remove(i);
                self.entries = entries;
                proof {
                    assert forall|k: Seq<char>| self.holds(k) == (before.holds(k) && k != id@) by {
                        if before.holds(k) && k != id@ {
                            let j = before.slot(k);
                            let moved = if j < i {
                                j
                            } else {
                                j - 1
                            };
                            assert(self.entries@[moved].0@ == k);
                        }
                    }
                    assert forall|k: Seq<char>| self.holds(k) implies self.entries@[self.slot(k)].1
                        == before.entries@[before.slot(k)].1 by {
                        let j = self.slot(k);
                        let source = if j < i {
                            j
                        } else {
                            j + 1
                        };
                        assert(before.entries@[source].0@ == k);
                    }
                    assert(self@ =~= before@.remove(id@));
                }
                Some(value)
            },
            None => {
                assert(self@ =~= before@.remove(id@));
                None
            },
        }
    }

    /// The IDs in use, each once.
    pub fn ids(&self) -> (ids: Vec<String>)
        ensures
            forall|k: Seq<char>|
                self@.contains_key(k) == exists|i: int|
                    0 <= i < ids@.len() && (#[trigger] ids@[i])@ == k,
            forall|i: int, j: int|
                0 <= i < j < ids@.len() ==> (#[trigger] ids@[i])@ != (#[trigger] ids@[j])@,
    {
        proof {
            use_type_invariant(self);
        }
        let mut ids: Vec<String> = Vec::new();
        let mut i: usize = 0;
        while i < self.entries.len()
            invariant
                i <= self.entries@.len(),
                ids@.len() == i,
                forall|j: int|
                    0 <= j < i ==> (#[trigger] ids@[j])@ == self.entries@[j].0@,
            decreases self.entries@.len() - i,
        {
            ids.push(self.entries[i].0.clone());
            i = i + 1;
        }
        proof {
            assert forall|k: Seq<char>|
                self@.contains_key(k) == exists|j: int|
                    0 <= j < ids@.len() && (#[trigger] ids@[j])@ == k by {
                if self.holds(k) {
                    let j = self.slot(k);
                    assert(ids@[j]@ == k);
                }
                if exists|j: int| 0 <= j < ids@.len() && (#[trigger] ids@[j])@ == k {
                    let j = choose|j: int| 0 <= j < ids@.len() && (#[trigger] ids@[j])@ == k;
                    assert(self.entries@[j].0@ == k);
                }
            }
            assert forall|a: int, b: int| 0 <= a < b < ids@.len() implies (#[trigger] ids@[a])@ != (
            #[trigger] ids@[b])@ by {
                assert(self.entries@[a].0@ != self.entries@[b].0@);
            }
        }
        ids
    }
}

} // verus!
