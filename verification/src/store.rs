//! The sequential core of the record store: the authoritative id-to-record
//! mapping and the identifier counter, with full functional contracts.
//!
//! The records live in a hash table keyed by identifier, so every operation in
//! a critical section is constant-time bookkeeping, except the full copy that
//! [`StoreState::get_all`] makes. The state is modelled as a finite map from
//! identifiers to record values ([`StoreState::mapping`]). Identifiers are
//! unique by construction, start at 1, and are always strictly below the
//! counter, so a deleted identifier is never reissued.

use std::collections::HashMap;
use vstd::prelude::*;

use crate::pet::{Pet, PetView};

verus! {

broadcast use vstd::std_specs::hash::group_hash_axioms;

/// The store state proper: the current records, keyed by their identifiers,
/// and the identifier counter.
///
/// The counter starts at 1 and strictly exceeds every identifier ever issued,
/// so additions never reuse an identifier, even after deletions.
pub struct StoreState {
    pets: HashMap<u64, Pet>,
    next_id: u64,
}

/// The effect of a successful addition: the returned record `p` carries the
/// identifier the counter held before the call and was not previously present;
/// the counter advances by one; the record enters the mapping.
pub open spec fn add_transition(pre: StoreState, post: StoreState, p: PetView) -> bool {
    &&& p.id == pre.counter()
    &&& !pre.contains_id(p.id)
    &&& post.counter() == pre.counter() + 1
    &&& post.mapping() == pre.mapping().insert(p.id, p)
}

/// The effect of an update with replacement record `p`: when `p.id` is present
/// the entry is replaced in place (`found`), otherwise nothing changes. The
/// counter never moves.
pub open spec fn update_transition(
    pre: StoreState,
    post: StoreState,
    p: PetView,
    found: bool,
) -> bool {
    &&& post.counter() == pre.counter()
    &&& found == pre.contains_id(p.id)
    &&& if found {
        post.mapping() == pre.mapping().insert(p.id, p)
    } else {
        post == pre
    }
}

/// The effect of a deletion: when `id` is present its record leaves the
/// mapping (`found`), otherwise nothing changes. The counter never moves.
pub open spec fn delete_transition(
    pre: StoreState,
    post: StoreState,
    id: u64,
    found: bool,
) -> bool {
    &&& post.counter() == pre.counter()
    &&& found == pre.contains_id(id)
    &&& if found {
        post.mapping() == pre.mapping().remove(id)
    } else {
        post == pre
    }
}

/// Every entry of a well-formed store's mapping carries its own key as its
/// record identifier, and every key is at least 1 and below the counter.
pub proof fn lemma_mapping_key(s: StoreState, id: u64)
    requires
        s.wf(),
    ensures
        s.contains_id(id) ==> s.mapping()[id].id == id && 1 <= id < s.counter(),
{
}

impl StoreState {
    /// The authoritative id-to-record mapping.
    pub closed spec fn mapping(&self) -> Map<u64, PetView> {
        Map::new(
            |id: u64| self.pets@.dom().contains(id),
            |id: u64| self.pets@[id]@,
        )
    }

    /// The identifier the next addition will issue.
    pub closed spec fn counter(&self) -> u64 {
        self.next_id
    }

    /// Whether a record is currently stored under `id`.
    pub open spec fn contains_id(&self, id: u64) -> bool {
        self.mapping().dom().contains(id)
    }

    /// The record currently stored under `id`, if any.
    pub open spec fn spec_get(&self, id: u64) -> Option<PetView> {
        if self.contains_id(id) {
            Some(self.mapping()[id])
        } else {
            None
        }
    }

    /// Well-formedness: every record sits under its own identifier, which is
    /// at least 1 and strictly below the counter.
    pub open spec fn wf(&self) -> bool {
        &&& forall|id: u64| #[trigger]
            self.contains_id(id) ==> self.mapping()[id].id == id && 1 <= id < self.counter()
        &&& self.counter() >= 1
    }

    /// A fresh store: no records, counter at 1.
    pub fn empty() -> (s: StoreState)
        ensures
            s.wf(),
            s.mapping() == Map::<u64, PetView>::empty(),
            s.counter() == 1,
    {
        let s = StoreState { pets: HashMap::new(), next_id: 1 };
        proof {
            assert(s.mapping() =~= Map::<u64, PetView>::empty());
        }
        s
    }

    /// Whether the identifier space is used up; while false, additions are
    /// always possible.
    pub fn counter_exhausted(&self) -> (b: bool)
        ensures
            b == (self.counter() == u64::MAX),
    {
        self.next_id == u64::MAX
    }

    /// Allocates the next identifier, advances the counter, and stores a new
    /// record with the given attributes, returning a copy of it.
    pub fn add(&mut self, name: String, species: String, age: u32) -> (pet: Pet)
        requires
            old(self).wf(),
            old(self).counter() < u64::MAX,
        ensures
            final(self).wf(),
            add_transition(*old(self), *final(self), pet@),
            pet@ == (PetView {
                id: old(self).counter(),
                name: name@,
                species: species@,
                age,
            }),
    {
        let id = self.next_id;
        self.next_id = self.next_id + 1;
        let pet = Pet::new(id, name, species, age);
        let stored = pet.clone();
        self.pets.insert(id, stored);
        proof {
            let pre = *old(self);
            assert(self.mapping() =~= pre.mapping().insert(id, pet@));
            assert forall|k: u64| #[trigger]
                self.contains_id(k) implies self.mapping()[k].id == k && 1 <= k
                < self.counter() by {
                if k != id {
                    assert(pre.contains_id(k));
                }
            }
        }
        pet
    }

    /// Returns a copy of the record stored under `id`, or nothing when no such
    /// record exists. Mutates neither the mapping nor the counter.
    pub fn get(&self, id: u64) -> (r: Option<Pet>)
        requires
            self.wf(),
        ensures
            match r {
                Some(p) => self.spec_get(id) == Some(p@),
                None => self.spec_get(id) is None,
            },
    {
        match self.pets.get(&id) {
            Some(p) => Some(p.clone()),
            None => None,
        }
    }

    /// Returns a copy of every record currently stored, in unspecified order:
    /// one record for each identifier in the mapping, each found in the
    /// mapping under its own identifier, with no identifier repeated or left
    /// out.
    #[verifier::loop_isolation(false)]
    pub fn get_all(&self) -> (r: Vec<Pet>)
        requires
            self.wf(),
        ensures
            r@.len() == self.mapping().dom().len(),
            forall|i: int|
                0 <= i < r@.len() ==> self.spec_get((#[trigger] r@[i])@.id) == Some(r@[i]@),
            forall|i: int, j: int| 0 <= i < j < r@.len() ==> r@[i]@.id != r@[j]@.id,
            forall|id: u64| #[trigger]
                self.contains_id(id) ==> exists|i: int|
                    0 <= i < r@.len() && (#[trigger] r@[i])@.id == id,
    {
        let ghost m = self.pets@;
        proof {
            assert(self.mapping().dom() =~= m.dom());
        }
        let mut out: Vec<Pet> = Vec::new();
        for pair in it: self.pets.iter()
            invariant
                out@.len() == it.index(),
                it.seq().no_duplicates(),
                forall|k: int|
                    0 <= k < it.seq().len() ==> m.contains_key(*(#[trigger] it.seq()[k]).0)
                        && m[*it.seq()[k].0] == *it.seq()[k].1,
                forall|k: int|
                    0 <= k < out@.len() ==> (#[trigger] out@[k])@ == (*it.seq()[k].1)@
                        && out@[k]@.id == *it.seq()[k].0,
                forall|i: int, j: int| 0 <= i < j < out@.len() ==> out@[i]@.id != out@[j]@.id,
                forall|k: int|
                    0 <= k < out@.len() ==> m.contains_key((#[trigger] out@[k])@.id)
                        && m[out@[k]@.id]@ == out@[k]@,
                forall|id: u64| #[trigger]
                    m.contains_key(id) ==> (exists|k: int|
                        0 <= k < out@.len() && (#[trigger] out@[k])@.id == id) || (exists|k: int|
                        it.index() <= k < it.seq().len() && *(#[trigger] it.seq()[k]).0 == id),
        {
            let ghost out0 = out@;
            proof {
                let v = it.seq();
                let idx = it.index() as int;
                assert(pair == v[idx]);
                assert(m.contains_key(*v[idx].0) && m[*v[idx].0] == *v[idx].1);
                assert(self.contains_id(*v[idx].0));
                assert((*v[idx].1)@.id == *v[idx].0);
                assert forall|k: int| 0 <= k < out0.len() implies out0[k]@.id != (*v[idx].1)@.id by {
                    if out0[k]@.id == (*v[idx].1)@.id {
                        assert(*v[k].0 == *v[idx].0);
                        assert(*v[k].1 == m[*v[k].0]);
                        assert(v[k] == v[idx]);
                    }
                }
            }
            out.push(pair.1.clone());
            proof {
                let v = it.seq();
                let idx = it.index() as int;
                assert(out@ == out0.push(out@[idx]));
                assert(out@[idx]@.id == *v[idx].0);
                assert forall|id: u64| #[trigger] m.contains_key(id) implies (exists|k: int|
                    0 <= k < out@.len() && (#[trigger] out@[k])@.id == id) || (exists|k: int|
                    idx + 1 <= k < v.len() && *(#[trigger] v[k]).0 == id) by {
                    if exists|k: int| idx <= k < v.len() && *(#[trigger] v[k]).0 == id {
                        let k = choose|k: int| idx <= k < v.len() && *(#[trigger] v[k]).0 == id;
                        if k == idx {
                            assert(0 <= idx < out@.len() && out@[idx]@.id == id);
                        }
                    } else {
                        let k = choose|k: int| 0 <= k < out0.len() && (#[trigger] out0[k])@.id
                            == id;
                        assert(0 <= k < out@.len() && out@[k]@.id == id);
                    }
                }
            }
        }
        proof {
            assert(out@.len() == m.dom().len());
            assert forall|i: int|
                0 <= i < out@.len() implies self.spec_get((#[trigger] out@[i])@.id) == Some(
                out@[i]@,
            ) by {
                assert(m.contains_key(out@[i]@.id));
                assert(self.contains_id(out@[i]@.id));
            }
        }
        out
    }

    /// Replaces all three attributes of the record stored under `id`, keeping
    /// its identity, and returns a copy of the new state; returns nothing and
    /// changes nothing when `id` is absent.
    pub fn update(&mut self, id: u64, name: String, species: String, age: u32) -> (r: Option<
        Pet,
    >)
        requires
            old(self).wf(),
        ensures
            final(self).wf(),
            update_transition(
                *old(self),
                *final(self),
                (PetView { id, name: name@, species: species@, age }),
                r is Some,
            ),
            r matches Some(p) ==> p@ == (PetView { id, name: name@, species: species@, age }),
    {
        if self.pets.contains_key(&id) {
            let pet = Pet::new(id, name, species, age);
            let stored = pet.clone();
            self.pets.insert(id, stored);
            proof {
                let pre = *old(self);
                assert(self.mapping() =~= pre.mapping().insert(id, pet@));
                assert forall|k: u64| #[trigger]
                    self.contains_id(k) implies self.mapping()[k].id == k && 1 <= k
                    < self.counter() by {
                    if k != id {
                        assert(pre.contains_id(k));
                    } else {
                        assert(pre.contains_id(id));
                    }
                }
            }
            Some(pet)
        } else {
            None
        }
    }

    /// Removes the record stored under `id` and reports whether one was there;
    /// changes nothing when `id` is absent. The identifier is never reissued:
    /// the counter does not move.
    pub fn delete(&mut self, id: u64) -> (r: bool)
        requires
            old(self).wf(),
        ensures
            final(self).wf(),
            delete_transition(*old(self), *final(self), id, r),
    {
        if self.pets.contains_key(&id) {
            self.pets.remove(&id);
            proof {
                let pre = *old(self);
                assert(self.mapping() =~= pre.mapping().remove(id));
                assert forall|k: u64| #[trigger]
                    self.contains_id(k) implies self.mapping()[k].id == k && 1 <= k
                    < self.counter() by {
                    assert(pre.contains_id(k));
                }
            }
            true
        } else {
            false
        }
    }
}

} // verus!
