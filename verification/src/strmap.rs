//! An association from string keys to values, modelled in specifications as
//! a mathematical `Map` from the key's characters to the value.

use vstd::prelude::*;

verus! {

/// The characters of the key stored at position `i` of `s`.
pub open spec fn entry_key<V>(s: Seq<(String, V)>, i: int) -> Seq<char> {
    s[i].0@
}

/// A key-value store with pairwise-distinct string keys.
pub struct StrMap<V> {
    entries: Vec<(String, V)>,
}

impl<V> StrMap<V> {
    /// The stored keys are pairwise distinct.
    pub closed spec fn wf(self) -> bool {
        forall|i: int, j: int|
            #![trigger entry_key(self.entries@, i), entry_key(self.entries@, j)]
            0 <= i < j < self.entries@.len() ==> entry_key(self.entries@, i) != entry_key(
                self.entries@,
                j,
            )
    }

    /// The association as a mathematical map.
    pub closed spec fn as_map(self) -> Map<Seq<char>, V> {
        Map::new(
            |k: Seq<char>|
                exists|i: int|
                    0 <= i < self.entries@.len() && #[trigger] entry_key(self.entries@, i) == k,
            |k: Seq<char>|
                {
                    let i = choose|i: int|
                        0 <= i < self.entries@.len() && #[trigger] entry_key(self.entries@, i)
                            == k;
                    self.entries@[i].1
                },
        )
    }

    /// Each stored entry is visible in the map under its own key.
    proof fn lemma_as_map_entries(self)
        requires
            self.wf(),
        ensures
            forall|i: int|
                0 <= i < self.entries@.len() ==> self.as_map().contains_key(
                    #[trigger] entry_key(self.entries@, i),
                ) && self.as_map()[entry_key(self.entries@, i)] == self.entries@[i].1,
    {
        assert forall|i: int| 0 <= i < self.entries@.len() implies self.as_map().contains_key(
            #[trigger] entry_key(self.entries@, i),
        ) && self.as_map()[entry_key(self.entries@, i)] == self.entries@[i].1 by {
            let k = entry_key(self.entries@, i);
            assert(self.as_map().contains_key(k));
            let j = choose|j: int|
                0 <= j < self.entries@.len() && #[trigger] entry_key(self.entries@, j) == k;
            if j != i {
                assert(entry_key(self.entries@, if i < j { i } else { j }) != entry_key(
                    self.entries@,
                    if i < j { j } else { i },
                ));
            }
        }
    }

    /// An empty association.
    pub fn new() -> (r: StrMap<V>)
        ensures
            r.wf(),
            r.as_map() == Map::<Seq<char>, V>::empty(),
    {
        let r = StrMap { entries: Vec::new() };
        proof {
            assert(r.as_map() =~= Map::<Seq<char>, V>::empty());
        }
        r
    }

    /// Whether `key` is present.
    pub fn contains_key(&self, key: &String) -> (r: bool)
        ensures
            r == self.as_map().contains_key(key@),
    {
        let n = self.entries.len();
        let mut i: usize = 0;
        while i < n
            invariant
                n == self.entries@.len(),
                i <= n,
                forall|j: int| 0 <= j < i ==> entry_key(self.entries@, j) != key@,
            decreases n - i,
        {
            if self.entries[i].0 == *key {
                proof {
                    assert(entry_key(self.entries@, i as int) == key@);
                }
                return true;
            }
            i = i + 1;
        }
        false
    }

    /// The value stored under `key`, if any.
    pub fn get(&self, key: &String) -> (r: Option<&V>)
        requires
            self.wf(),
        ensures
            match r {
                Some(v) => self.as_map().contains_key(key@) && *v == self.as_map()[key@],
                None => !self.as_map().contains_key(key@),
            },
    {
        let n = self.entries.len();
        let mut i: usize = 0;
        while i < n
            invariant
                n == self.entries@.len(),
                i <= n,
                forall|j: int| 0 <= j < i ==> entry_key(self.entries@, j) != key@,
            decreases n - i,
        {
            if self.entries[i].0 == *key {
                proof {
                    assert(entry_key(self.entries@, i as int) == key@);
                    self.lemma_as_map_entries();
                }
                return Some(&self.entries[i].1);
            }
            i = i + 1;
        }
        None
    }

    /// Stores `value` under `key`, overwriting any previous value.
    pub fn insert(&mut self, key: String, value: V)
        requires
            old(self).wf(),
        ensures
            final(self).wf(),
            final(self).as_map() == old(self).as_map().insert(key@, value),
    {
        let ghost s0 = self.entries@;
        let n = self.entries.len();
        let mut i: usize = 0;
        while i < n
            invariant
                n == s0.len(),
                self.entries@ == s0,
                i <= n,
                forall|j: int| 0 <= j < i ==> entry_key(s0, j) != key@,
            decreases n - i,
        {
            if self.entries[i].0 == key {
                proof {
                    assert(entry_key(s0, i as int) == key@);
                }
                self.entries.set(i, (key, value));
                proof {
                    let s1 = self.entries@;
                    let mt = old(self).as_map().insert(key@, value);
                    assert forall|j: int| 0 <= j < s1.len() implies #[trigger] entry_key(s1, j)
                        == entry_key(s0, j) by {}
                    assert forall|a: int, b: int|
                        #![trigger entry_key(s1, a), entry_key(s1, b)]
                        0 <= a < b < s1.len() implies entry_key(s1, a) != entry_key(s1, b) by {
                        assert(entry_key(s0, a) != entry_key(s0, b));
                    }
                    old(self).lemma_as_map_entries();
                    self.lemma_as_map_entries();
                    assert forall|k: Seq<char>| self.as_map().contains_key(k)
                        == mt.contains_key(k) by {
                        if self.as_map().contains_key(k) {
                            let j = choose|j: int|
                                0 <= j < s1.len() && #[trigger] entry_key(s1, j) == k;
                            assert(entry_key(s0, j) == k);
                        }
                        if mt.contains_key(k) {
                            if k == key@ {
                                assert(entry_key(s1, i as int) == k);
                            } else {
                                let j = choose|j: int|
                                    0 <= j < s0.len() && #[trigger] entry_key(s0, j) == k;
                                assert(entry_key(s1, j) == k);
                            }
                        }
                    }
                    assert forall|k: Seq<char>| self.as_map().contains_key(k) implies self.as_map()[k]
                        == mt[k] by {
                        let j = choose|j: int|
                            0 <= j < s1.len() && #[trigger] entry_key(s1, j) == k;
                        assert(self.as_map()[entry_key(s1, j)] == s1[j].1);
                        if k == key@ {
                            if j != i as int {
                                assert(entry_key(s0, if j < i { j } else { i as int })
                                    != entry_key(s0, if j < i { i as int } else { j }));
                            }
                            assert(s1[j].1 == value);
                        } else {
                            assert(j != i as int);
                            assert(entry_key(s0, j) == k);
                            assert(old(self).as_map()[entry_key(s0, j)] == s0[j].1);
                            assert(s1[j].1 == s0[j].1);
                        }
                    }
                    assert(self.as_map() =~= mt);
                }
                return;
            }
            i = i + 1;
        }
        self.entries.push((key, value));
        proof {
            let s1 = self.entries@;
            let mt = old(self).as_map().insert(key@, value);
            assert forall|j: int| 0 <= j < s0.len() implies #[trigger] entry_key(s1, j)
                == entry_key(s0, j) by {}
            assert(entry_key(s1, s0.len() as int) == key@);
            assert forall|a: int, b: int|
                #![trigger entry_key(s1, a), entry_key(s1, b)]
                0 <= a < b < s1.len() implies entry_key(s1, a) != entry_key(s1, b) by {
                if b < s0.len() {
                    assert(entry_key(s0, a) != entry_key(s0, b));
                }
            }
            old(self).lemma_as_map_entries();
            self.lemma_as_map_entries();
            assert forall|k: Seq<char>| self.as_map().contains_key(k) == mt.contains_key(k) by {
                if self.as_map().contains_key(k) {
                    let j = choose|j: int| 0 <= j < s1.len() && #[trigger] entry_key(s1, j) == k;
                    if j < s0.len() {
                        assert(entry_key(s0, j) == k);
                    }
                }
                if mt.contains_key(k) && k != key@ {
                    let j = choose|j: int| 0 <= j < s0.len() && #[trigger] entry_key(s0, j) == k;
                    assert(entry_key(s1, j) == k);
                }
            }
            assert forall|k: Seq<char>| self.as_map().contains_key(k) implies self.as_map()[k]
                == mt[k] by {
                let j = choose|j: int| 0 <= j < s1.len() && #[trigger] entry_key(s1, j) == k;
                assert(self.as_map()[entry_key(s1, j)] == s1[j].1);
                if k == key@ {
                    if j != s0.len() as int {
                        assert(entry_key(s0, j) == key@);
                        assert(false);
                    }
                    assert(s1[j].1 == value);
                } else {
                    assert(j != s0.len() as int);
                    assert(entry_key(s0, j) == k);
                    assert(old(self).as_map()[entry_key(s0, j)] == s0[j].1);
                }
            }
            assert(self.as_map() =~= mt);
        }
    }

    /// Removes and returns the value stored under `key`, if any.
    pub fn remove(&mut self, key: &String) -> (r: Option<V>)
        requires
            old(self).wf(),
        ensures
            final(self).wf(),
            final(self).as_map() == old(self).as_map().remove(key@),
            r is Some <==> old(self).as_map().contains_key(key@),
            r is Some ==> r->0 == old(self).as_map()[key@],
    {
        let ghost s0 = self.entries@;
        let n = self.entries.len();
        let mut i: usize = 0;
        while i < n
            invariant
                n == s0.len(),
                self.entries@ == s0,
                i <= n,
                forall|j: int| 0 <= j < i ==> entry_key(s0, j) != key@,
            decreases n - i,
        {
            if self.entries[i].0 == *key {
                proof {
                    assert(entry_key(s0, i as int) == key@);
                    old(self).lemma_as_map_entries();
                }
                let e = self.entries.remove(i);
                proof {
                    let s1 = self.entries@;
                    let mt = old(self).as_map().remove(key@);
                    assert forall|j: int| 0 <= j < s1.len() implies #[trigger] entry_key(s1, j)
                        == entry_key(s0, if j < i { j } else { j + 1 }) by {}
                    assert forall|a: int, b: int|
                        #![trigger entry_key(s1, a), entry_key(s1, b)]
                        0 <= a < b < s1.len() implies entry_key(s1, a) != entry_key(s1, b) by {
                        let a0: int = if a < i { a } else { a + 1 };
                        let b0: int = if b < i { b } else { b + 1 };
                        assert(entry_key(s1, a) == entry_key(s0, a0));
                        assert(entry_key(s1, b) == entry_key(s0, b0));
                        assert(entry_key(s0, a0) != entry_key(s0, b0));
                    }
                    self.lemma_as_map_entries();
                    assert forall|k: Seq<char>| self.as_map().contains_key(k)
                        == mt.contains_key(k) by {
                        if self.as_map().contains_key(k) {
                            let j = choose|j: int|
                                0 <= j < s1.len() && #[trigger] entry_key(s1, j) == k;
                            let j0: int = if j < i { j } else { j + 1 };
                            assert(entry_key(s0, j0) == k);
                            assert(j0 != i);
                            if entry_key(s0, j0) == key@ {
                                assert(entry_key(s0, if j0 < i { j0 } else { i as int })
                                    != entry_key(s0, if j0 < i { i as int } else { j0 }));
                            }
                        }
                        if mt.contains_key(k) {
                            let j0 = choose|j0: int|
                                0 <= j0 < s0.len() && #[trigger] entry_key(s0, j0) == k;
                            assert(j0 != i);
                            if j0 < i {
                                assert(entry_key(s1, j0) == k);
                            } else {
                                assert(entry_key(s1, j0 - 1) == entry_key(s0, j0));
                            }
                        }
                    }
                    assert forall|k: Seq<char>| self.as_map().contains_key(k) implies self.as_map()[k]
                        == mt[k] by {
                        let j = choose|j: int|
                            0 <= j < s1.len() && #[trigger] entry_key(s1, j) == k;
                        let j0: int = if j < i { j } else { j + 1 };
                        assert(self.as_map()[entry_key(s1, j)] == s1[j].1);
                        assert(entry_key(s0, j0) == k);
                        assert(old(self).as_map()[entry_key(s0, j0)] == s0[j0].1);
                        assert(s1[j].1 == s0[j0].1);
                        assert(j0 != i);
                        if entry_key(s0, j0) == key@ {
                            assert(entry_key(s0, if j0 < i { j0 } else { i as int })
                                != entry_key(s0, if j0 < i { i as int } else { j0 }));
                        }
                    }
                    assert(self.as_map() =~= mt);
                }
                return Some(e.1);
            }
            i = i + 1;
        }
        proof {
            assert(self.as_map() =~= old(self).as_map().remove(key@));
        }
        None
    }
}

} // verus!
