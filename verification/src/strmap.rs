//! A string-keyed lookup table stored as a vector of pairs with pairwise
//! distinct keys, viewed as a `Map` from key characters to the values'
//! views. The registry uses it for the per-host, per-method and exact-path
//! tables; the order of the entries carries no meaning.
use vstd::prelude::*;

verus! {

/// A map from strings to values of `V`, backed by a vector of pairs whose
/// keys are pairwise distinct.
pub struct StrMap<V> {
    entries: Vec<(String, V)>,
}

impl<V: View> View for StrMap<V> {
    type V = Map<Seq<char>, <V as View>::V>;

    closed spec fn view(&self) -> Map<Seq<char>, <V as View>::V> {
        Map::new(|k: Seq<char>| self.has_key(k), |k: Seq<char>| self.entries@[self.index_of(k)].1@)
    }
}

impl<V> StrMap<V> {
    #[verifier::type_invariant]
    spec fn inv(&self) -> bool {
        forall|i: int, j: int|
            0 <= i < j < self.entries@.len() ==> self.entries@[i].0@ != self.entries@[j].0@
    }
}

impl<V: View> StrMap<V> {
    spec fn has_key(&self, k: Seq<char>) -> bool {
        exists|i: int| 0 <= i < self.entries@.len() && self.entries@[i].0@ == k
    }

    spec fn index_of(&self, k: Seq<char>) -> int {
        choose|i: int| 0 <= i < self.entries@.len() && self.entries@[i].0@ == k
    }

    proof fn lemma_entry(&self, i: int)
        requires
            self.inv(),
            0 <= i < self.entries@.len(),
        ensures
            self@.contains_key(self.entries@[i].0@),
            self@[self.entries@[i].0@] == self.entries@[i].1@,
            self.index_of(self.entries@[i].0@) == i,
    {
        let k = self.entries@[i].0@;
        assert(self.has_key(k));
        let j = self.index_of(k);
        assert(0 <= j < self.entries@.len() && self.entries@[j].0@ == k);
        if i != j {
            assert(false);
        }
    }

    /// The empty map.
    pub fn new() -> (r: Self)
        ensures
            r@ == Map::<Seq<char>, <V as View>::V>::empty(),
    {
        let r = StrMap { entries: Vec::new() };
        proof {
            assert(r@ =~= Map::<Seq<char>, <V as View>::V>::empty());
        }
        r
    }

    fn find(&self, key: &String) -> (r: Option<usize>)
        ensures
            r matches Some(i) ==> i < self.entries@.len() && self.entries@[i as int].0@ == key@,
            r is None ==> !self.has_key(key@),
    {
        let n = self.entries.len();
        let mut i: usize = 0;
        while i < n
            invariant
                n == self.entries@.len(),
                i <= n,
                forall|j: int| 0 <= j < i ==> self.entries@[j].0@ != key@,
            decreases n - i,
        {
            let e: &(String, V) = &self.entries[i];
            if e.0 == *key {
                return Some(i);
            }
            i += 1;
        }
        None
    }

    /// The value registered under `key`, if any.
    pub fn get<'a>(&'a self, key: &String) -> (r: Option<&'a V>)
        ensures
            r matches Some(v) ==> self@.contains_key(key@) && v@ == self@[key@],
            r is None ==> !self@.contains_key(key@),
    {
        proof {
            use_type_invariant(self);
        }
        match self.find(key) {
            Some(i) => {
                proof {
                    self.lemma_entry(i as int);
                }
                Some(&self.entries[i].1)
            },
            None => None,
        }
    }

    /// Remove and return the value registered under `key`, if any.
    pub fn take(&mut self, key: &String) -> (r: Option<V>)
        ensures
            final(self)@ == old(self)@.remove(key@),
            r matches Some(v) ==> old(self)@.contains_key(key@) && v@ == old(self)@[key@],
            r is None ==> !old(self)@.contains_key(key@),
    {
        proof {
            use_type_invariant(&*self);
        }
        match self.find(key) {
            Some(i) => {
                proof {
                    self.lemma_entry(i as int);
                }
                let ghost prev = *self;
                let mut entries: Vec<(String, V)> = Vec::new();
                core::mem::swap(&mut entries, &mut self.entries);
                let e = entries.remove(i);
                proof {
                    prev.entries@.remove_ensures(i as int);
                    assert forall|j1: int, j2: int|
                        0 <= j1 < j2 < entries@.len() implies entries@[j1].0@
                        != entries@[j2].0@ by {
                        let o1: int = if j1 < i {
                            j1
                        } else {
                            j1 + 1
                        };
                        let o2: int = if j2 < i {
                            j2
                        } else {
                            j2 + 1
                        };
                        assert(entries@[j1] == prev.entries@[o1] && entries@[j2]
                            == prev.entries@[o2]);
                    }
                }
                core::mem::swap(&mut entries, &mut self.entries);
                proof {
                    self.lemma_take_view(prev, i as int, key@);
                }
                Some(e.1)
            },
            None => {
                proof {
                    assert(!self@.contains_key(key@));
                    assert(self@ =~= self@.remove(key@));
                }
                None
            },
        }
    }

    proof fn lemma_take_view(&self, prev: Self, i: int, k: Seq<char>)
        requires
            prev.inv(),
            self.inv(),
            0 <= i < prev.entries@.len(),
            prev.entries@[i].0@ == k,
            self.entries@ == prev.entries@.remove(i),
        ensures
            self@ == prev@.remove(k),
    {
        let oe = prev.entries@;
        let ne = self.entries@;
        oe.remove_ensures(i);
        assert(forall|j: int| 0 <= j < i ==> #[trigger] ne[j] == oe[j]);
        assert(forall|j: int| i <= j < ne.len() ==> #[trigger] ne[j] == oe[j + 1]);
        assert forall|k2: Seq<char>| #[trigger] self.has_key(k2) implies prev.has_key(k2) && k2
            != k by {
            let j = choose|j: int| 0 <= j < ne.len() && ne[j].0@ == k2;
            let o: int = if j < i {
                j
            } else {
                j + 1
            };
            assert(oe[o].0@ == k2);
            assert(o != i);
        }
        assert forall|k2: Seq<char>| prev.has_key(k2) && k2 != k implies #[trigger] self.has_key(
            k2,
        ) by {
            let o = choose|o: int| 0 <= o < oe.len() && oe[o].0@ == k2;
            assert(o != i);
            let j: int = if o < i {
                o
            } else {
                o - 1
            };
            assert(ne[j].0@ == k2);
        }
        assert forall|k2: Seq<char>| #[trigger] self.has_key(k2) implies self@[k2] == prev@[k2] by {
            let j = self.index_of(k2);
            self.lemma_entry(j);
            let o: int = if j < i {
                j
            } else {
                j + 1
            };
            assert(oe[o].0@ == k2);
            prev.lemma_entry(o);
            assert(self@[k2] == ne[j].1@ && prev@[k2] == oe[o].1@);
        }
        assert(self@ =~= prev@.remove(k));
    }

    /// Register `v` under a key not yet present.
    pub fn insert(&mut self, key: String, v: V)
        requires
            !old(self)@.contains_key(key@),
        ensures
            final(self)@ == old(self)@.insert(key@, v@),
    {
        proof {
            use_type_invariant(&*self);
        }
        let ghost prev = *self;
        let ghost kv = key@;
        let ghost vv = v@;
        let mut entries: Vec<(String, V)> = Vec::new();
        core::mem::swap(&mut entries, &mut self.entries);
        entries.push((key, v));
        proof {
            let oe = prev.entries@;
            assert(!prev.has_key(kv));
            assert(forall|j: int| 0 <= j < oe.len() ==> #[trigger] entries@[j] == oe[j]);
            assert(entries@[oe.len() as int].0@ == kv);
            assert forall|j1: int, j2: int| 0 <= j1 < j2 < entries@.len() implies entries@[j1].0@
                != entries@[j2].0@ by {
                if j2 == oe.len() {
                    assert(entries@[j1] == oe[j1]);
                }
            }
        }
        core::mem::swap(&mut entries, &mut self.entries);
        proof {
            let oe = prev.entries@;
            let ne = self.entries@;
            assert(forall|j: int| 0 <= j < oe.len() ==> #[trigger] ne[j] == oe[j]);
            assert(ne[oe.len() as int].0@ == kv && ne[oe.len() as int].1@ == vv);
            assert forall|k2: Seq<char>| #[trigger] self.has_key(k2) implies self@[k2]
                == prev@.insert(kv, vv)[k2] && (prev.has_key(k2) || k2 == kv) by {
                let j = self.index_of(k2);
                self.lemma_entry(j);
                if j < oe.len() {
                    prev.lemma_entry(j);
                    assert(k2 != kv);
                } else {
                    assert(k2 == kv);
                }
            }
            assert forall|k2: Seq<char>| prev.has_key(k2) implies #[trigger] self.has_key(k2) by {
                let o = choose|o: int| 0 <= o < oe.len() && oe[o].0@ == k2;
                assert(ne[o].0@ == k2);
            }
            assert(self.has_key(kv));
            assert(self@ =~= prev@.insert(kv, vv));
        }
    }

    /// Register `v` under `key`, replacing any earlier value: the
    /// last registration wins.
    pub fn set(&mut self, key: String, v: V)
        ensures
            final(self)@ == old(self)@.insert(key@, v@),
    {
        let _removed = self.take(&key);
        self.insert(key, v);
        proof {
            assert(self@ =~= old(self)@.insert(key@, v@));
        }
    }
}

} // verus!
