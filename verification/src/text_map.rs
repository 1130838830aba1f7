//! A map with text keys.

use crate::text::text_eq;
use vstd::prelude::*;

verus! {

/// Values under distinct text keys.
pub struct TextMap<V> {
    entries: Vec<(String, V)>,
}

impl<V> TextMap<V> {
    spec fn place(&self, key: Seq<char>) -> int {
        choose|i: int| 0 <= i < self.entries@.len() && (#[trigger] self.entries@[i]).0@ == key
    }

    spec fn holds(&self, key: Seq<char>) -> bool {
        exists|i: int| 0 <= i < self.entries@.len() && (#[trigger] self.entries@[i]).0@ == key
    }

    pub closed spec fn view(&self) -> Map<Seq<char>, V> {
        Map::new(|key: Seq<char>| self.holds(key), |key: Seq<char>| self.entries@[self.place(key)].1)
    }

    #[verifier::type_invariant]
    spec fn inv(&self) -> bool {
        forall|i: int, j: int|
            0 <= i < j < self.entries@.len() ==> (#[trigger] self.entries@[i]).0@ != (
            #[trigger] self.entries@[j]).0@
    }

    proof fn at(&self, i: int)
        requires
            self.inv(),
            0 <= i < self.entries@.len(),
        ensures
            self@.contains_key(self.entries@[i].0@),
            self@[self.entries@[i].0@] == self.entries@[i].1,
    {
        let key = self.entries@[i].0@;
        assert(self.holds(key));
        let j = self.place(key);
        assert(self.entries@[j].0@ == key);
        assert(j == i);
    }

    pub fn new() -> (r: TextMap<V>)
        ensures
            r@ == Map::<Seq<char>, V>::empty(),
    {
        let r = TextMap { entries: Vec::new() };
        assert(r@ =~= Map::<Seq<char>, V>::empty());
        r
    }

    fn find(&self, key: &str) -> (r: Option<usize>)
        ensures
            r matches Some(i) ==> i < self.entries@.len() && self.entries@[i as int].0@ == key@,
            r is None ==> !self.holds(key@),
    {
        let mut i: usize = 0;
        while i < self.entries.len()
            invariant
                i <= self.entries.len(),
                forall|j: int| 0 <= j < i ==> (#[trigger] self.entries@[j]).0@ != key@,
            decreases self.entries.len() - i,
        {
            if text_eq(self.entries[i].0.as_str(), key) {
                return Some(i);
            }
            i = i + 1;
        }
        None
    }

    pub fn get(&self, key: &str) -> (r: Option<&V>)
        ensures
            match r {
                Some(v) => self@.contains_key(key@) && *v == self@[key@],
                None => !self@.contains_key(key@),
            },
    {
        proof {
            use_type_invariant(self);
        }
        match self.find(key) {
            Some(i) => {
                proof {
                    self.at(i as int);
                }
                Some(&self.entries[i].1)
            },
            None => None,
        }
    }

    /// Stores a value under a key, in place of the one that was there.
    pub fn insert(&mut self, key: String, value: V)
        ensures
            final(self)@ == old(self)@.insert(key@, value),
    {
        proof {
            use_type_invariant(&*self);
        }
        let at = self.find(key.as_str());
        let ghost before = *self;
        let mut entries: Vec<(String, V)> = Vec::new();
        std::mem::swap(&mut entries, &mut self.entries);
        let ghost k = key@;
        match at {
            Some(i) => {
                entries.set(i, (key, value));
            },
            None => {
                entries.push((key, value));
            },
        }
        proof {
            assert forall|i: int, j: int| 0 <= i < j < entries@.len() implies (
            #[trigger] entries@[i]).0@ != (#[trigger] entries@[j]).0@ by {
                if j < before.entries@.len() {
                    assert(before.entries@[i].0@ != before.entries@[j].0@);
                } else {
                    assert(before.entries@[i].0@ != k);
                }
            }
        }
        self.entries = entries;
        proof {
            use_type_invariant(&*self);
            let after = *self;
            assert forall|key: Seq<char>| after@.contains_key(key) == before@.insert(
                k,
                value,
            ).contains_key(key) by {
                if after.holds(key) {
                    let i = after.place(key);
                    if i < before.entries@.len() {
                        assert(before.entries@[i].0@ == key);
                    }
                }
                if before.holds(key) {
                    let i = before.place(key);
                    assert(after.entries@[i].0@ == key);
                }
                if key == k {
                    match at {
                        Some(i) => {
                            assert(after.entries@[i as int].0@ == k);
                        },
                        None => {
                            assert(after.entries@[before.entries@.len() as int].0@ == k);
                        },
                    }
                }
            }
            assert forall|key: Seq<char>| after@.contains_key(key) implies #[trigger] after@[key]
                == before@.insert(k, value)[key] by {
                let i = after.place(key);
                after.at(i);
                if key != k {
                    before.at(i);
                }
            }
            assert(after@ =~= before@.insert(k, value));
        }
    }

    /// Removes a key.
    pub fn remove(&mut self, key: &str)
        ensures
            final(self)@ == old(self)@.remove(key@),
    {
        proof {
            use_type_invariant(&*self);
        }
        let ghost before = *self;
        match self.find(key) {
            Some(at) => {
                let mut entries: Vec<(String, V)> = Vec::new();
                std::mem::swap(&mut entries, &mut self.entries);
                entries.remove(at);
                proof {
                    assert forall|i: int, j: int| 0 <= i < j < entries@.len() implies (
                    #[trigger] entries@[i]).0@ != (#[trigger] entries@[j]).0@ by {
                        let a = if i < at {
                            i
                        } else {
                            i + 1
                        };
                        let b = if j < at {
                            j
                        } else {
                            j + 1
                        };
                        assert(before.entries@[a].0@ != before.entries@[b].0@);
                    }
                }
                self.entries = entries;
                proof {
                    use_type_invariant(&*self);
                    let after = *self;
                    assert forall|k: Seq<char>| after@.contains_key(k) == before@.remove(
                        key@,
                    ).contains_key(k) by {
                        if after.holds(k) {
                            let i = after.place(k);
                            let a = if i < at {
                                i
                            } else {
                                i + 1
                            };
                            assert(before.entries@[a].0@ == k);
                            assert(before.entries@[a].0@ != before.entries@[at as int].0@);
                        }
                        if before.holds(k) && k != key@ {
                            let i = before.place(k);
                            let a = if i < at {
                                i
                            } else {
                                i - 1
                            };
                            assert(after.entries@[a].0@ == k);
                        }
                    }
                    assert forall|k: Seq<char>| after@.contains_key(k) implies #[trigger] after@[k]
                        == before@.remove(key@)[k] by {
                        let i = after.place(k);
                        after.at(i);
                        let a = if i < at {
                            i
                        } else {
                            i + 1
                        };
                        before.at(a);
                    }
                    assert(after@ =~= before@.remove(key@));
                }
            },
            None => {
                assert(self@.remove(key@) =~= self@);
            },
        }
    }
}

} // verus!
