//! The coordinator's state: configuration, the single pending password
//! slot, the record store, the lifecycle indices (global and per-owner),
//! and the viewing-key store. The state is an explicitly constructed
//! object; the platform persists it between calls.

use vstd::prelude::*;
use crate::factory::structs::StoreOffspringInfo;
use crate::factory::structs::CodeInfo;
use crate::index::{lemma_push_contains, lemma_remove_at_contains, AddrIndex};
use crate::strmap::StrMap;
use crate::viewing_keys::ViewingKeys;

verus! {

/// One registered offspring: its display record and its owner.
#[derive(Debug, PartialEq, Eq)]
pub struct RegisteredOffspring {
    /// The owner this offspring belongs to.
    pub owner: String,
    /// The stored display record.
    pub info: StoreOffspringInfo,
}

impl Clone for RegisteredOffspring {
    fn clone(&self) -> (r: Self)
        ensures
            r == *self,
    {
        RegisteredOffspring { owner: self.owner.clone(), info: self.info.clone() }
    }
}

/// The whole coordinator state.
pub struct FactoryState {
    /// The admin identity; only it may change configuration.
    pub admin: String,
    /// Whether offspring creation is stopped.
    pub stopped: bool,
    /// The current offspring template version.
    pub offspring_code: CodeInfo,
    /// The generator seed, advanced on each creation.
    pub prng_seed: Vec<u8>,
    /// The single pending one-time password slot: at most one outstanding.
    pub pending_password: Option<Vec<u8>>,
    /// All registered offspring, keyed by their address.
    pub records: StrMap<RegisteredOffspring>,
    /// The active offspring addresses, in registration order.
    pub active: AddrIndex,
    /// The inactive offspring addresses, in deactivation order.
    pub inactive: AddrIndex,
    /// Each owner's active offspring addresses.
    pub owners_active: StrMap<AddrIndex>,
    /// Each owner's inactive offspring addresses.
    pub owners_inactive: StrMap<AddrIndex>,
    /// The per-identity viewing keys.
    pub viewing_keys: ViewingKeys,
}

impl FactoryState {
    /// All registered offspring as a map from address to record.
    pub open spec fn records_map(self) -> Map<Seq<char>, RegisteredOffspring> {
        self.records.as_map()
    }

    /// Whether an offspring is registered under `addr`.
    pub open spec fn registered(self, addr: Seq<char>) -> bool {
        self.records_map().contains_key(addr)
    }

    /// The active addresses of `owner`'s scoped index, in insertion order;
    /// an owner with no index has no entries.
    pub open spec fn owner_active(self, owner: Seq<char>) -> Seq<Seq<char>> {
        if self.owners_active.as_map().contains_key(owner) {
            self.owners_active.as_map()[owner]@
        } else {
            Seq::empty()
        }
    }

    /// The inactive addresses of `owner`'s scoped index.
    pub open spec fn owner_inactive(self, owner: Seq<char>) -> Seq<Seq<char>> {
        if self.owners_inactive.as_map().contains_key(owner) {
            self.owners_inactive.as_map()[owner]@
        } else {
            Seq::empty()
        }
    }

    /// Membership in `owner`'s active index.
    pub open spec fn owner_active_has(self, owner: Seq<char>, addr: Seq<char>) -> bool {
        self.owner_active(owner).contains(addr)
    }

    /// Membership in `owner`'s inactive index.
    pub open spec fn owner_inactive_has(self, owner: Seq<char>, addr: Seq<char>) -> bool {
        self.owner_inactive(owner).contains(addr)
    }

    /// The pending one-time password, as bytes.
    pub open spec fn pending(self) -> Option<Seq<u8>> {
        match self.pending_password {
            Some(p) => Some(p@),
            None => None,
        }
    }

    /// The registry invariant. Every index is duplicate-free; a registered
    /// address is in exactly one of the global active/inactive indices and
    /// exactly one of its owner's scoped indices, consistently; indices
    /// reference only registered addresses; records are keyed by their own
    /// address.
    pub open spec fn wf(self) -> bool {
        &&& self.records.wf()
        &&& self.active.wf()
        &&& self.inactive.wf()
        &&& self.owners_active.wf()
        &&& self.owners_inactive.wf()
        &&& self.viewing_keys.wf()
        &&& forall|o: Seq<char>|
            self.owners_active.as_map().contains_key(o) ==> (
            #[trigger] self.owners_active.as_map()[o]).wf()
        &&& forall|o: Seq<char>|
            self.owners_inactive.as_map().contains_key(o) ==> (
            #[trigger] self.owners_inactive.as_map()[o]).wf()
        &&& forall|a: Seq<char>|
            #[trigger] self.registered(a) ==> self.records_map()[a].info.contract.address@ == a
        &&& forall|a: Seq<char>| #[trigger] self.active@.contains(a) ==> self.registered(a)
        &&& forall|a: Seq<char>| #[trigger] self.inactive@.contains(a) ==> self.registered(a)
        &&& forall|a: Seq<char>|
            #[trigger] self.registered(a) ==> (self.active@.contains(a) <==> !self.inactive@.contains(
                a,
            ))
        &&& forall|a: Seq<char>|
            #[trigger] self.registered(a) ==> (self.active@.contains(a)
                <==> self.owner_active_has(self.records_map()[a].owner@, a))
        &&& forall|a: Seq<char>|
            #[trigger] self.registered(a) ==> (self.inactive@.contains(a)
                <==> self.owner_inactive_has(self.records_map()[a].owner@, a))
        &&& forall|o: Seq<char>, a: Seq<char>|
            #[trigger] self.owner_active_has(o, a) ==> self.registered(a)
                && self.records_map()[a].owner@ == o
        &&& forall|o: Seq<char>, a: Seq<char>|
            #[trigger] self.owner_inactive_has(o, a) ==> self.registered(a)
                && self.records_map()[a].owner@ == o
    }

    /// Index consistency: a registered address is in the global active
    /// index exactly when it is in its owner's scoped active index, and
    /// likewise for the inactive side.
    pub proof fn lemma_index_consistency(self, addr: Seq<char>)
        requires
            self.wf(),
            self.registered(addr),
        ensures
            self.active@.contains(addr) <==> self.owner_active_has(
                self.records_map()[addr].owner@,
                addr,
            ),
            self.inactive@.contains(addr) <==> self.owner_inactive_has(
                self.records_map()[addr].owner@,
                addr,
            ),
            self.active@.contains(addr) <==> !self.inactive@.contains(addr),
    {
    }

    /// The registry invariant does not depend on the configuration
    /// fields: it carries over to any state with the same record store and
    /// indices and a well-formed viewing-key store.
    pub proof fn lemma_wf_same_registry(s0: FactoryState, s1: FactoryState)
        requires
            s0.wf(),
            s1.records == s0.records,
            s1.active == s0.active,
            s1.inactive == s0.inactive,
            s1.owners_active == s0.owners_active,
            s1.owners_inactive == s0.owners_inactive,
            s1.viewing_keys.wf(),
        ensures
            s1.wf(),
    {
        assert forall|o: Seq<char>|
            s1.owners_active.as_map().contains_key(o) implies (#[trigger] s1.owners_active
            .as_map()[o]).wf() by {
            assert(s0.owners_active.as_map()[o].wf());
        }
        assert forall|o: Seq<char>|
            s1.owners_inactive.as_map().contains_key(o) implies (#[trigger] s1.owners_inactive
            .as_map()[o]).wf() by {
            assert(s0.owners_inactive.as_map()[o].wf());
        }
        assert forall|a: Seq<char>| #[trigger] s1.registered(a) implies s1.records_map()[a]
            .info.contract.address@ == a by {
            assert(s0.registered(a));
        }
        assert forall|a: Seq<char>| #[trigger] s1.active@.contains(a) implies s1.registered(a) by {
            assert(s0.active@.contains(a));
            assert(s0.registered(a));
        }
        assert forall|a: Seq<char>| #[trigger] s1.inactive@.contains(a) implies s1.registered(
            a,
        ) by {
            assert(s0.inactive@.contains(a));
            assert(s0.registered(a));
        }
        assert forall|a: Seq<char>| #[trigger] s1.registered(a) implies (s1.active@.contains(a)
            <==> !s1.inactive@.contains(a)) by {
            assert(s0.registered(a));
        }
        assert forall|a: Seq<char>| #[trigger] s1.registered(a) implies (s1.active@.contains(a)
            <==> s1.owner_active_has(s1.records_map()[a].owner@, a)) by {
            assert(s0.registered(a));
            let o = s0.records_map()[a].owner@;
            assert(s1.owner_active(o) == s0.owner_active(o));
            assert(s0.active@.contains(a) <==> s0.owner_active_has(o, a));
        }
        assert forall|a: Seq<char>| #[trigger] s1.registered(a) implies (s1.inactive@.contains(a)
            <==> s1.owner_inactive_has(s1.records_map()[a].owner@, a)) by {
            assert(s0.registered(a));
            let o = s0.records_map()[a].owner@;
            assert(s1.owner_inactive(o) == s0.owner_inactive(o));
            assert(s0.inactive@.contains(a) <==> s0.owner_inactive_has(o, a));
        }
        assert forall|o: Seq<char>, a: Seq<char>| #[trigger] s1.owner_active_has(o, a) implies
            s1.registered(a) && s1.records_map()[a].owner@ == o by {
            assert(s1.owner_active(o) == s0.owner_active(o));
            assert(s0.owner_active_has(o, a));
            assert(s0.registered(a));
        }
        assert forall|o: Seq<char>, a: Seq<char>| #[trigger] s1.owner_inactive_has(o, a) implies
            s1.registered(a) && s1.records_map()[a].owner@ == o by {
            assert(s1.owner_inactive(o) == s0.owner_inactive(o));
            assert(s0.owner_inactive_has(o, a));
            assert(s0.registered(a));
        }
    }

    /// Registers a fresh offspring: stores its record and adds its address
    /// to the global and owner-scoped active indices. Nothing else
    /// changes.
    pub fn add_active(&mut self, rec: RegisteredOffspring)
        requires
            old(self).wf(),
            !old(self).registered(rec.info.contract.address@),
        ensures
            final(self).wf(),
            final(self).records_map() == old(self).records_map().insert(
                rec.info.contract.address@,
                rec,
            ),
            final(self).active@ == old(self).active@.push(rec.info.contract.address@),
            final(self).owner_active(rec.owner@) == old(self).owner_active(rec.owner@).push(
                rec.info.contract.address@,
            ),
            forall|o: Seq<char>|
                o != rec.owner@ ==> final(self).owner_active(o) == old(self).owner_active(o),
            forall|o: Seq<char>| final(self).owner_inactive(o) == old(self).owner_inactive(o),
            final(self).inactive == old(self).inactive,
            final(self).admin == old(self).admin,
            final(self).stopped == old(self).stopped,
            final(self).offspring_code == old(self).offspring_code,
            final(self).prng_seed == old(self).prng_seed,
            final(self).pending_password == old(self).pending_password,
            final(self).viewing_keys == old(self).viewing_keys,
    {
        let ghost addr_v = rec.info.contract.address@;
        let ghost owner_v = rec.owner@;
        let addr = rec.info.contract.address.clone();
        let owner = rec.owner.clone();
        proof {
            assert(!old(self).active@.contains(addr_v));
            assert(!old(self).inactive@.contains(addr_v));
            lemma_push_contains(old(self).active@, addr_v);
            lemma_push_contains(old(self).owner_active(owner_v), addr_v);
        }
        self.records.insert(addr.clone(), rec);
        self.active.insert(addr.clone());
        let mut lst = match self.owners_active.remove(&owner) {
            Some(l) => l,
            None => AddrIndex::new(),
        };
        proof {
            assert(lst@ == old(self).owner_active(owner_v));
            assert(lst.wf());
            assert(!old(self).owner_active_has(owner_v, addr_v));
            assert(!lst@.contains(addr_v));
        }
        lst.insert(addr);
        self.owners_active.insert(owner, lst);
        proof {
            let s0 = *old(self);
            let s1 = *self;
            assert(s1.active@ == s0.active@.push(addr_v));
            assert(s1.owner_active(owner_v) == s0.owner_active(owner_v).push(addr_v));
            assert forall|o: Seq<char>| o != owner_v implies s1.owner_active(o) == s0.owner_active(
                o,
            ) by {}
            assert forall|o: Seq<char>| s1.owner_inactive(o) == s0.owner_inactive(o) by {}
            // membership characterizations
            assert forall|a: Seq<char>| #[trigger] s1.active@.contains(a) implies (
            s0.active@.contains(a) || a == addr_v) by {}
            assert forall|a: Seq<char>| s0.active@.contains(a) || a == addr_v implies
                s1.active@.contains(a) by {}
            assert forall|o: Seq<char>, a: Seq<char>| #[trigger] s1.owner_active_has(o, a) implies (
            s0.owner_active_has(o, a) || (o == owner_v && a == addr_v)) by {
                if o == owner_v {
                    assert(s1.owner_active(o).contains(a));
                }
            }
            assert forall|o: Seq<char>, a: Seq<char>|
                s0.owner_active_has(o, a) || (o == owner_v && a == addr_v) implies #[trigger] s1
                .owner_active_has(o, a) by {}
            assert forall|o: Seq<char>, a: Seq<char>| #[trigger] s1.owner_inactive_has(o, a) implies
                s0.owner_inactive_has(o, a) by {}
            assert forall|o: Seq<char>, a: Seq<char>| s0.owner_inactive_has(o, a) implies #[trigger] s1
                .owner_inactive_has(o, a) by {}
            // the invariant, conjunct by conjunct
            assert forall|o: Seq<char>|
                s1.owners_active.as_map().contains_key(o) implies (#[trigger] s1.owners_active
                .as_map()[o]).wf() by {
                if o != owner_v {
                    assert(s1.owners_active.as_map()[o] == s0.owners_active.as_map()[o]);
                }
            }
            assert forall|o: Seq<char>|
                s1.owners_inactive.as_map().contains_key(o) implies (#[trigger] s1.owners_inactive
                .as_map()[o]).wf() by {
                assert(s1.owners_inactive.as_map()[o] == s0.owners_inactive.as_map()[o]);
            }
            assert forall|a: Seq<char>| #[trigger] s1.registered(a) implies s1.records_map()[a]
                .info.contract.address@ == a by {
                if a != addr_v {
                    assert(s0.registered(a));
                }
            }
            assert forall|a: Seq<char>| #[trigger] s1.active@.contains(a) implies s1.registered(
                a,
            ) by {
                if a != addr_v {
                    assert(s0.active@.contains(a));
                    assert(s0.registered(a));
                }
            }
            assert forall|a: Seq<char>| #[trigger] s1.inactive@.contains(a) implies s1.registered(
                a,
            ) by {
                assert(s0.inactive@.contains(a));
                assert(s0.registered(a));
            }
            assert forall|a: Seq<char>| #[trigger] s1.registered(a) implies (s1.active@.contains(a)
                <==> !s1.inactive@.contains(a)) by {
                if a == addr_v {
                    assert(s1.active@.contains(a));
                    assert(!s0.inactive@.contains(a));
                } else {
                    assert(s0.registered(a));
                }
            }
            assert forall|a: Seq<char>| #[trigger] s1.registered(a) implies (s1.active@.contains(a)
                <==> s1.owner_active_has(s1.records_map()[a].owner@, a)) by {
                if a == addr_v {
                    assert(s1.records_map()[a].owner@ == owner_v);
                    assert(s1.owner_active(owner_v).contains(addr_v));
                    assert(s1.owner_active_has(owner_v, addr_v));
                } else {
                    assert(s0.registered(a));
                    assert(s1.records_map()[a] == s0.records_map()[a]);
                    let o = s0.records_map()[a].owner@;
                    assert(s0.active@.contains(a) <==> s0.owner_active_has(o, a));
                }
            }
            assert forall|a: Seq<char>| #[trigger] s1.registered(a) implies (s1.inactive@.contains(
                a,
            ) <==> s1.owner_inactive_has(s1.records_map()[a].owner@, a)) by {
                if a == addr_v {
                    assert(!s1.inactive@.contains(a));
                    assert(!s0.owner_inactive_has(owner_v, addr_v));
                    assert(s1.records_map()[a].owner@ == owner_v);
                } else {
                    assert(s0.registered(a));
                    assert(s1.records_map()[a] == s0.records_map()[a]);
                    let o = s0.records_map()[a].owner@;
                    assert(s0.inactive@.contains(a) <==> s0.owner_inactive_has(o, a));
                }
            }
            assert forall|o: Seq<char>, a: Seq<char>| #[trigger] s1.owner_active_has(o, a) implies
                s1.registered(a) && s1.records_map()[a].owner@ == o by {
                if o == owner_v && a == addr_v {
                } else {
                    assert(s0.owner_active_has(o, a));
                    assert(s0.registered(a));
                    assert(a != addr_v);
                }
            }
            assert forall|o: Seq<char>, a: Seq<char>| #[trigger] s1.owner_inactive_has(o, a) implies
                s1.registered(a) && s1.records_map()[a].owner@ == o by {
                assert(s0.owner_inactive_has(o, a));
                assert(s0.registered(a));
                assert(a != addr_v);
            }
            assert(s1.wf());
        }
    }

    /// Moves a registered, active offspring to the inactive side of both
    /// the global and its owner's scoped indices. Nothing else changes.
    pub fn move_to_inactive(&mut self, addr: &String)
        requires
            old(self).wf(),
            old(self).active@.contains(addr@),
        ensures
            final(self).wf(),
            final(self).records_map() == old(self).records_map(),
            final(self).active@ == old(self).active@.remove(old(self).active@.index_of(addr@)),
            !final(self).active@.contains(addr@),
            final(self).inactive@ == old(self).inactive@.push(addr@),
            ({
                let o = old(self).records_map()[addr@].owner@;
                &&& final(self).owner_active(o) == old(self).owner_active(o).remove(
                    old(self).owner_active(o).index_of(addr@),
                )
                &&& final(self).owner_inactive(o) == old(self).owner_inactive(o).push(addr@)
                &&& forall|o2: Seq<char>|
                    o2 != o ==> final(self).owner_active(o2) == old(self).owner_active(o2)
                        && final(self).owner_inactive(o2) == old(self).owner_inactive(o2)
            }),
            final(self).admin == old(self).admin,
            final(self).stopped == old(self).stopped,
            final(self).offspring_code == old(self).offspring_code,
            final(self).prng_seed == old(self).prng_seed,
            final(self).pending_password == old(self).pending_password,
            final(self).viewing_keys == old(self).viewing_keys,
    {
        let ghost addr_v = addr@;
        let ghost s0 = *old(self);
        proof {
            assert(s0.registered(addr_v));
        }
        let rec_owner: String = match self.records.get(addr) {
            Some(r) => r.owner.clone(),
            None => {
                // unreachable: an active address is always registered
                proof {
                    assert(false);
                }
                String::new()
            },
        };
        let ghost owner_v = rec_owner@;
        proof {
            assert(owner_v == s0.records_map()[addr_v].owner@);
            assert(s0.owner_active_has(owner_v, addr_v));
            assert(!s0.inactive@.contains(addr_v));
            assert(!s0.owner_inactive_has(owner_v, addr_v));
            // global active removal
            let i = s0.active@.index_of(addr_v);
            assert(0 <= i < s0.active@.len() && s0.active@[i] == addr_v);
            lemma_remove_at_contains(s0.active@, i);
            // owner active removal
            let j = s0.owner_active(owner_v).index_of(addr_v);
            assert(0 <= j < s0.owner_active(owner_v).len() && s0.owner_active(owner_v)[j]
                == addr_v);
            lemma_remove_at_contains(s0.owner_active(owner_v), j);
            lemma_push_contains(s0.inactive@, addr_v);
            lemma_push_contains(s0.owner_inactive(owner_v), addr_v);
        }
        self.active.remove(addr);
        self.inactive.insert(addr.clone());
        let mut lst = match self.owners_active.remove(&rec_owner) {
            Some(l) => l,
            None => AddrIndex::new(),
        };
        proof {
            assert(lst@ == s0.owner_active(owner_v));
            assert(lst.wf());
        }
        lst.remove(addr);
        self.owners_active.insert(rec_owner.clone(), lst);
        let mut ilst = match self.owners_inactive.remove(&rec_owner) {
            Some(l) => l,
            None => AddrIndex::new(),
        };
        proof {
            assert(ilst@ == s0.owner_inactive(owner_v));
            assert(ilst.wf());
            assert(!ilst@.contains(addr_v));
        }
        ilst.insert(addr.clone());
        self.owners_inactive.insert(rec_owner, ilst);
        proof {
            let s1 = *self;
            assert(s1.active@ == s0.active@.remove(s0.active@.index_of(addr_v)));
            assert(s1.inactive@ == s0.inactive@.push(addr_v));
            assert(s1.owner_active(owner_v) == s0.owner_active(owner_v).remove(
                s0.owner_active(owner_v).index_of(addr_v),
            ));
            assert(s1.owner_inactive(owner_v) == s0.owner_inactive(owner_v).push(addr_v));
            assert forall|o2: Seq<char>| o2 != owner_v implies s1.owner_active(o2)
                == s0.owner_active(o2) && s1.owner_inactive(o2) == s0.owner_inactive(o2) by {}
            // membership characterizations
            assert forall|a: Seq<char>| #[trigger] s1.active@.contains(a) implies (
            s0.active@.contains(a) && a != addr_v) by {}
            assert forall|a: Seq<char>| s0.active@.contains(a) && a != addr_v implies
                s1.active@.contains(a) by {}
            assert forall|a: Seq<char>| #[trigger] s1.inactive@.contains(a) implies (
            s0.inactive@.contains(a) || a == addr_v) by {}
            assert forall|a: Seq<char>| s0.inactive@.contains(a) || a == addr_v implies
                s1.inactive@.contains(a) by {}
            assert forall|o2: Seq<char>, a: Seq<char>| #[trigger] s1.owner_active_has(o2, a) implies (
            s0.owner_active_has(o2, a) && !(o2 == owner_v && a == addr_v)) by {
                if o2 == owner_v {
                    assert(s1.owner_active(o2).contains(a));
                }
            }
            assert forall|o2: Seq<char>, a: Seq<char>|
                s0.owner_active_has(o2, a) && !(o2 == owner_v && a == addr_v) implies #[trigger] s1
                .owner_active_has(o2, a) by {
                if o2 == owner_v {
                    if a == addr_v {
                    } else {
                        assert(s1.owner_active(o2).contains(a));
                    }
                }
            }
            assert forall|o2: Seq<char>, a: Seq<char>| #[trigger] s1.owner_inactive_has(o2, a) implies (
            s0.owner_inactive_has(o2, a) || (o2 == owner_v && a == addr_v)) by {
                if o2 == owner_v {
                    assert(s1.owner_inactive(o2).contains(a));
                }
            }
            assert forall|o2: Seq<char>, a: Seq<char>|
                s0.owner_inactive_has(o2, a) || (o2 == owner_v && a == addr_v) implies #[trigger] s1
                .owner_inactive_has(o2, a) by {}
            // the invariant, conjunct by conjunct
            assert forall|o2: Seq<char>|
                s1.owners_active.as_map().contains_key(o2) implies (#[trigger] s1.owners_active
                .as_map()[o2]).wf() by {
                if o2 != owner_v {
                    assert(s1.owners_active.as_map()[o2] == s0.owners_active.as_map()[o2]);
                }
            }
            assert forall|o2: Seq<char>|
                s1.owners_inactive.as_map().contains_key(o2) implies (#[trigger] s1.owners_inactive
                .as_map()[o2]).wf() by {
                if o2 != owner_v {
                    assert(s1.owners_inactive.as_map()[o2] == s0.owners_inactive.as_map()[o2]);
                }
            }
            assert forall|a: Seq<char>| #[trigger] s1.registered(a) implies s1.records_map()[a]
                .info.contract.address@ == a by {
                assert(s0.registered(a));
            }
            assert forall|a: Seq<char>| #[trigger] s1.active@.contains(a) implies s1.registered(
                a,
            ) by {
                assert(s0.active@.contains(a));
                assert(s0.registered(a));
            }
            assert forall|a: Seq<char>| #[trigger] s1.inactive@.contains(a) implies s1.registered(
                a,
            ) by {
                if a == addr_v {
                    assert(s0.registered(a));
                } else {
                    assert(s0.inactive@.contains(a));
                    assert(s0.registered(a));
                }
            }
            assert forall|a: Seq<char>| #[trigger] s1.registered(a) implies (s1.active@.contains(a)
                <==> !s1.inactive@.contains(a)) by {
                assert(s0.registered(a));
                if a == addr_v {
                    assert(!s1.active@.contains(a));
                    assert(s1.inactive@.contains(a));
                }
            }
            assert forall|a: Seq<char>| #[trigger] s1.registered(a) implies (s1.active@.contains(a)
                <==> s1.owner_active_has(s1.records_map()[a].owner@, a)) by {
                assert(s0.registered(a));
                let o = s0.records_map()[a].owner@;
                assert(s1.records_map()[a] == s0.records_map()[a]);
                if a == addr_v {
                    assert(o == owner_v);
                    assert(!s1.active@.contains(a));
                    assert(!s1.owner_active_has(o, a));
                } else {
                    assert(s0.active@.contains(a) <==> s0.owner_active_has(o, a));
                }
            }
            assert forall|a: Seq<char>| #[trigger] s1.registered(a) implies (s1.inactive@.contains(
                a,
            ) <==> s1.owner_inactive_has(s1.records_map()[a].owner@, a)) by {
                assert(s0.registered(a));
                let o = s0.records_map()[a].owner@;
                assert(s1.records_map()[a] == s0.records_map()[a]);
                if a == addr_v {
                    assert(o == owner_v);
                    assert(s1.inactive@.contains(a));
                    assert(s1.owner_inactive_has(o, a));
                } else {
                    assert(s0.inactive@.contains(a) <==> s0.owner_inactive_has(o, a));
                }
            }
            assert forall|o2: Seq<char>, a: Seq<char>| #[trigger] s1.owner_active_has(o2, a) implies
                s1.registered(a) && s1.records_map()[a].owner@ == o2 by {
                assert(s0.owner_active_has(o2, a));
                assert(s0.registered(a));
            }
            assert forall|o2: Seq<char>, a: Seq<char>| #[trigger] s1.owner_inactive_has(o2, a) implies
                s1.registered(a) && s1.records_map()[a].owner@ == o2 by {
                if o2 == owner_v && a == addr_v {
                    assert(s0.registered(a));
                } else {
                    assert(s0.owner_inactive_has(o2, a));
                    assert(s0.registered(a));
                }
            }
            assert(s1.wf());
        }
    }
}

} // verus!
