//! The registries of the named resources: from each name to the resource
//! that was registered under it last.

use std::sync::Arc;
use vstd::prelude::*;

verus! {

/// A resource that several owners share.
pub type ThingHolder<T> = Arc<T>;

/// `Arc::clone` gives another pointer to the same value: what it returns is
/// equal to what it was given.
#[verifier::external_body]
pub(crate) fn share<T>(thing: &ThingHolder<T>) -> (shared: ThingHolder<T>)
    ensures
        shared == *thing,
{
    Arc::clone(thing)
}

/// One entry of a registry.
pub struct Entry<T> {
    name: String,
    thing: ThingHolder<T>,
}

/// A registry: resources under their names, no name twice.
pub struct Registry<T> {
    entries: Vec<Entry<T>>,
}

/// The place of `name` among the entries, if it is there.
spec fn place_of<T>(entries: Seq<Entry<T>>, name: Seq<char>) -> int {
    choose|i: int| 0 <= i < entries.len() && (#[trigger] entries[i]).name@ == name
}

impl<T> View for Registry<T> {
    type V = Map<Seq<char>, ThingHolder<T>>;

    closed spec fn view(&self) -> Map<Seq<char>, ThingHolder<T>> {
        Map::new(
            |name: Seq<char>|
                exists|i: int|
                    0 <= i < self.entries@.len() && (#[trigger] self.entries@[i]).name@ == name,
            |name: Seq<char>| self.entries@[place_of(self.entries@, name)].thing,
        )
    }
}

impl<T> Registry<T> {
    /// Whether no name is there twice.
    pub closed spec fn wf(&self) -> bool {
        forall|i: int, j: int|
            0 <= i < j < self.entries@.len() ==> (#[trigger] self.entries@[i]).name@
                != (#[trigger] self.entries@[j]).name@
    }

    /// A registry with nothing in it.
    pub fn new() -> (registry: Registry<T>)
        ensures
            registry@ == Map::<Seq<char>, ThingHolder<T>>::empty(),
            registry.wf(),
    {
        let registry = Registry { entries: Vec::new() };
        proof {
            assert(registry@ =~= Map::<Seq<char>, ThingHolder<T>>::empty());
        }
        registry
    }

    /// The place of the entry with the given name.
    fn find(&self, name: &String) -> (place: Option<usize>)
        requires
            self.wf(),
        ensures
            match place {
                Some(i) => i < self.entries@.len() && self.entries@[i as int].name@ == name@
                    && self@.contains_key(name@) && self@[name@] == self.entries@[i as int].thing,
                None => !self@.contains_key(name@),
            },
    {
        let mut i: usize = 0;
        while i < self.entries.len()
            invariant
                self.wf(),
                i <= self.entries@.len(),
                forall|k: int| 0 <= k < i ==> (#[trigger] self.entries@[k]).name@ != name@,
            decreases self.entries.len() - i,
        {
            if self.entries[i].name == *name {
                proof {
                    let chosen = place_of(self.entries@, name@);
                    assert(self.entries@[i as int].name@ == name@);
                    assert(0 <= chosen < self.entries@.len() && self.entries@[chosen].name@
                        == name@);
                    if chosen < i {
                        assert(self.entries@[chosen].name@ != self.entries@[i as int].name@);
                    }
                    if i < chosen {
                        assert(self.entries@[i as int].name@ != self.entries@[chosen].name@);
                    }
                }
                return Some(i);
            }
            i += 1;
        }
        None
    }

    /// The resource that is registered under `name`, if there is one.
    pub fn get(&self, name: &str) -> (found: Option<ThingHolder<T>>)
        requires
            self.wf(),
        ensures
            found == if self@.contains_key(name@) {
                Some(self@[name@])
            } else {
                None
            },
    {
        let key = String::from_str(name);
        match self.find(&key) {
            Some(i) => Some(share(&self.entries[i].thing)),
            None => None,
        }
    }

    /// Whether a resource is registered under `name`.
    pub fn contains(&self, name: &str) -> (yes: bool)
        requires
            self.wf(),
        ensures
            yes == self@.contains_key(name@),
    {
        let key = String::from_str(name);
        self.find(&key).is_some()
    }

    /// Registers `thing` under `name`. A resource that was registered under
    /// the name before is registered no longer; whoever else holds it keeps
    /// it.
    pub fn insert(&mut self, name: &str, thing: ThingHolder<T>)
        requires
            old(self).wf(),
        ensures
            final(self)@ == old(self)@.insert(name@, thing),
            final(self).wf(),
    {
        let key = String::from_str(name);
        let ghost before = self.entries@;
        match self.find(&key) {
            Some(i) => {
                self.entries.set(i, Entry { name: key, thing });
                proof {
                    assert forall|n: Seq<char>| #[trigger]
                        self@.contains_key(n) <==> old(self)@.insert(name@, thing).contains_key(
                            n,
                        ) by {
                        if self@.contains_key(n) {
                            let k = choose|k: int|
                                0 <= k < self.entries@.len() && (#[trigger] self.entries@[k]).name@
                                    == n;
                            assert(before[k].name@ == n);
                        }
                        if old(self)@.contains_key(n) {
                            let k = choose|k: int|
                                0 <= k < before.len() && (#[trigger] before[k]).name@ == n;
                            assert(self.entries@[k].name@ == n);
                        }
                        if n == name@ {
                            assert(self.entries@[i as int].name@ == n);
                        }
                    }
                    assert forall|n: Seq<char>| self@.contains_key(n) implies #[trigger] self@[n]
                        == old(self)@.insert(name@, thing)[n] by {
                        let now = place_of(self.entries@, n);
                        assert(self.entries@[now].name@ == n);
                        if n != name@ {
                            let was = place_of(before, n);
                            assert(before[now].name@ == n);
                            assert(before[was].name@ == n);
                            assert(was == now);
                        } else {
                            assert(now == i);
                        }
                    }
                    assert(self@ =~= old(self)@.insert(name@, thing));
                }
            },
            None => {
                self.entries.push(Entry { name: key, thing });
                proof {
                    let last = before.len() as int;
                    assert forall|n: Seq<char>| #[trigger]
                        self@.contains_key(n) <==> old(self)@.insert(name@, thing).contains_key(
                            n,
                        ) by {
                        if self@.contains_key(n) {
                            let k = choose|k: int|
                                0 <= k < self.entries@.len() && (#[trigger] self.entries@[k]).name@
                                    == n;
                            if k < last {
                                assert(before[k].name@ == n);
                            }
                        }
                        if old(self)@.contains_key(n) {
                            let k = choose|k: int|
                                0 <= k < before.len() && (#[trigger] before[k]).name@ == n;
                            assert(self.entries@[k].name@ == n);
                        }
                        if n == name@ {
                            assert(self.entries@[last].name@ == n);
                        }
                    }
                    assert forall|n: Seq<char>| self@.contains_key(n) implies #[trigger] self@[n]
                        == old(self)@.insert(name@, thing)[n] by {
                        let now = place_of(self.entries@, n);
                        assert(self.entries@[now].name@ == n);
                        if n != name@ {
                            let was = place_of(before, n);
                            assert(before[now].name@ == n);
                            assert(before[was].name@ == n);
                            assert(was == now);
                        } else {
                            if now < last {
                                assert(before[now].name@ == n);
                            }
                        }
                    }
                    assert(self@ =~= old(self)@.insert(name@, thing));
                }
            },
        }
    }

    /// How many resources are registered.
    pub fn len(&self) -> (count: usize)
        requires
            self.wf(),
        ensures
            count == self@.dom().len(),
            self@.dom().finite(),
    {
        proof {
            self.domain_size();
        }
        self.entries.len()
    }

    /// There are as many names as entries.
    proof fn domain_size(&self)
        requires
            self.wf(),
        ensures
            self@.dom().finite(),
            self@.dom().len() == self.entries@.len(),
    {
        let names = self.entries@.map_values(|e: Entry<T>| e.name@);
        assert(names.no_duplicates());
        assert(names.to_set() =~= self@.dom()) by {
            assert forall|n: Seq<char>| names.to_set().contains(n) <==> self@.dom().contains(
                n,
            ) by {
                if names.to_set().contains(n) {
                    let k = choose|k: int| 0 <= k < names.len() && names[k] == n;
                    assert(self.entries@[k].name@ == n);
                }
                if self@.dom().contains(n) {
                    let k = choose|k: int|
                        0 <= k < self.entries@.len() && (#[trigger] self.entries@[k]).name@ == n;
                    assert(names[k] == n);
                }
            }
        }
        names.unique_seq_to_set();
    }
}

} // verus!
