//! An insertion-ordered set of addresses with offset/limit pagination,
//! independently instantiable per scope (global, or one instance per owner).

use vstd::prelude::*;

verus! {

/// The views of a sequence of owned strings.
pub open spec fn addr_view(s: Seq<String>) -> Seq<Seq<char>> {
    s.map_values(|x: String| x@)
}

/// One page of a sequence: skip `start_page * page_size` elements, then
/// yield up to `page_size`. A page beyond the range, or a zero page size,
/// yields the empty sequence.
pub open spec fn page_of<T>(s: Seq<T>, start_page: nat, page_size: nat) -> Seq<T> {
    let lo = start_page * page_size;
    if page_size == 0 || lo >= s.len() {
        Seq::empty()
    } else if lo + page_size <= s.len() {
        s.subrange(lo as int, (lo + page_size) as int)
    } else {
        s.subrange(lo as int, s.len() as int)
    }
}

/// Membership in a sequence extended by one element.
pub proof fn lemma_push_contains<T>(s: Seq<T>, e: T)
    ensures
        forall|x: T| #[trigger] s.contains(x) ==> s.push(e).contains(x),
        s.push(e).contains(e),
        forall|x: T| #[trigger] s.push(e).contains(x) ==> (s.contains(x) || x == e),
{
    assert forall|x: T| #[trigger] s.contains(x) implies s.push(e).contains(x) by {
        let i = choose|i: int| 0 <= i < s.len() && s[i] == x;
        assert(s.push(e)[i] == x);
    }
    assert(s.push(e)[s.len() as int] == e);
    assert forall|x: T| #[trigger] s.push(e).contains(x) implies (s.contains(x) || x == e) by {
        let i = choose|i: int| 0 <= i < s.push(e).len() && s.push(e)[i] == x;
        if i < s.len() {
            assert(s[i] == x);
        }
    }
}

/// Membership in a duplicate-free sequence with one element removed.
pub proof fn lemma_remove_at_contains<T>(s: Seq<T>, i: int)
    requires
        0 <= i < s.len(),
        forall|a: int, b: int| #![trigger s[a], s[b]] 0 <= a < b < s.len() ==> s[a] != s[b],
    ensures
        forall|x: T| #[trigger] s.remove(i).contains(x) ==> (s.contains(x) && x != s[i]),
        forall|x: T| #[trigger] s.contains(x) && x != s[i] ==> s.remove(i).contains(x),
{
    let s1 = s.remove(i);
    assert forall|x: T| #[trigger] s1.contains(x) implies (s.contains(x) && x != s[i]) by {
        let j = choose|j: int| 0 <= j < s1.len() && s1[j] == x;
        let j0: int = if j < i { j } else { j + 1 };
        assert(s[j0] == x);
        if x == s[i] {
            assert(j0 != i);
            assert(s[if j0 < i { j0 } else { i }] != s[if j0 < i { i } else { j0 }]);
        }
    }
    assert forall|x: T| #[trigger] s.contains(x) && x != s[i] implies s1.contains(x) by {
        let j0 = choose|j0: int| 0 <= j0 < s.len() && s[j0] == x;
        assert(j0 != i);
        if j0 < i {
            assert(s1[j0] == x);
        } else {
            assert(s1[j0 - 1] == x);
        }
    }
}

/// An ordered set of addresses: enumeration order is insertion order, and
/// no address occurs twice.
pub struct AddrIndex {
    items: Vec<String>,
}

impl View for AddrIndex {
    type V = Seq<Seq<char>>;

    closed spec fn view(&self) -> Seq<Seq<char>> {
        addr_view(self.items@)
    }
}

impl AddrIndex {
    /// No address occurs twice.
    pub open spec fn wf(self) -> bool {
        forall|i: int, j: int|
            #![trigger self@[i], self@[j]]
            0 <= i < j < self@.len() ==> self@[i] != self@[j]
    }

    /// An empty index.
    pub fn new() -> (r: AddrIndex)
        ensures
            r.wf(),
            r@ == Seq::<Seq<char>>::empty(),
    {
        let r = AddrIndex { items: Vec::new() };
        proof {
            assert(r@ =~= Seq::<Seq<char>>::empty());
        }
        r
    }

    /// Whether `addr` is a member.
    pub fn contains(&self, addr: &String) -> (r: bool)
        ensures
            r == self@.contains(addr@),
    {
        let n = self.items.len();
        let mut i: usize = 0;
        while i < n
            invariant
                i <= n,
                forall|j: int| 0 <= j < i ==> self@[j] != addr@,
            decreases n - i,
        {
            if self.items[i] == *addr {
                proof {
                    assert(self@[i as int] == addr@);
                }
                return true;
            }
            i = i + 1;
        }
        proof {
            assert forall|j: int| 0 <= j < self@.len() implies self@[j] != addr@ by {}
        }
        false
    }

    /// Adds `addr` at the end; a second insertion of the same address
    /// leaves the index unchanged.
    pub fn insert(&mut self, addr: String)
        requires
            old(self).wf(),
        ensures
            final(self).wf(),
            old(self)@.contains(addr@) ==> final(self)@ == old(self)@,
            !old(self)@.contains(addr@) ==> final(self)@ == old(self)@.push(addr@),
    {
        if self.contains(&addr) {
            return;
        }
        self.items.push(addr);
        proof {
            assert(self@ =~= old(self)@.push(addr@));
            assert forall|i: int, j: int|
                #![trigger self@[i], self@[j]]
                0 <= i < j < self@.len() implies self@[i] != self@[j] by {
                if j < old(self)@.len() {
                    assert(old(self)@[i] != old(self)@[j]);
                } else {
                    assert(self@[j] == addr@);
                    assert(old(self)@.contains(addr@) == false);
                    assert(self@[i] == old(self)@[i]);
                }
            }
        }
    }

    /// Removes `addr` if present, keeping the order of the rest.
    pub fn remove(&mut self, addr: &String)
        requires
            old(self).wf(),
        ensures
            final(self).wf(),
            !final(self)@.contains(addr@),
            !old(self)@.contains(addr@) ==> final(self)@ == old(self)@,
            old(self)@.contains(addr@) ==> final(self)@ == old(self)@.remove(
                old(self)@.index_of(addr@),
            ),
    {
        let n = self.items.len();
        let mut i: usize = 0;
        while i < n
            invariant
                n == self.items@.len(),
                self.items@ == old(self).items@,
                i <= n,
                forall|j: int| 0 <= j < i ==> self@[j] != addr@,
            decreases n - i,
        {
            if self.items[i] == *addr {
                proof {
                    let s0 = self@;
                    assert(s0[i as int] == addr@);
                    assert(s0.contains(addr@));
                    let f = s0.index_of(addr@);
                    assert(0 <= f < s0.len() && s0[f] == addr@);
                    if f != i as int {
                        let a = if f < i as int { f } else { i as int };
                        let b = if f < i as int { i as int } else { f };
                        assert(old(self)@[a] == addr@ && old(self)@[b] == addr@);
                        assert(old(self)@[a] != old(self)@[b]);
                    }
                    assert(f == i as int);
                }
                self.items.remove(i);
                proof {
                    let s0 = old(self)@;
                    let s1 = self@;
                    assert(s1 =~= s0.remove(i as int));
                    assert forall|a: int, b: int|
                        #![trigger s1[a], s1[b]]
                        0 <= a < b < s1.len() implies s1[a] != s1[b] by {
                        let a0: int = if a < i { a } else { a + 1 };
                        let b0: int = if b < i { b } else { b + 1 };
                        assert(s1[a] == s0[a0]);
                        assert(s1[b] == s0[b0]);
                        assert(s0[a0] != s0[b0]);
                    }
                    assert forall|a: int| 0 <= a < s1.len() implies s1[a] != addr@ by {
                        let a0: int = if a < i { a } else { a + 1 };
                        assert(s1[a] == s0[a0]);
                        if s0[a0] == addr@ {
                            assert(a0 != i);
                            assert(s0[if a0 < i { a0 } else { i as int }] != s0[if a0 < i {
                                i as int
                            } else {
                                a0
                            }]);
                        }
                    }
                    assert(!s1.contains(addr@));
                }
                return;
            }
            i = i + 1;
        }
        proof {
            assert forall|j: int| 0 <= j < self@.len() implies self@[j] != addr@ by {}
            assert(!self@.contains(addr@));
            assert(self@ == old(self)@);
        }
    }

    /// One page of the members, in insertion order.
    pub fn page(&self, start_page: u32, page_size: u32) -> (r: Vec<String>)
        ensures
            addr_view(r@) == page_of(self@, start_page as nat, page_size as nat),
    {
        let mut r: Vec<String> = Vec::new();
        let len = self.items.len();
        proof {
            assert((start_page as int) * (page_size as int) <= 0xffff_ffff * 0xffff_ffff)
                by (nonlinear_arith)
                requires
                    0 <= start_page as int <= 0xffff_ffff,
                    0 <= page_size as int <= 0xffff_ffff,
            ;
        }
        let lo64: u64 = (start_page as u64) * (page_size as u64);
        if page_size == 0 || lo64 >= len as u64 {
            proof {
                assert(addr_view(r@) =~= page_of(self@, start_page as nat, page_size as nat));
            }
            return r;
        }
        let lo: usize = lo64 as usize;
        let hi: usize = if (len as u64) - lo64 >= page_size as u64 {
            lo + page_size as usize
        } else {
            len
        };
        let mut i: usize = lo;
        while i < hi
            invariant
                lo <= i <= hi <= len,
                len == self.items@.len(),
                addr_view(r@) == self@.subrange(lo as int, i as int),
            decreases hi - i,
        {
            let s: &String = &self.items[i];
            r.push(s.clone());
            i = i + 1;
            proof {
                assert(addr_view(r@) =~= self@.subrange(lo as int, i as int));
            }
        }
        proof {
            assert(addr_view(r@) =~= page_of(self@, start_page as nat, page_size as nat));
        }
        r
    }
}

} // verus!
