//! The concurrent record store: the sequential core behind a verified
//! reader-writer lock, shared by reference among concurrent callers.
//!
//! The lock predicate keeps every state that any caller can observe
//! well-formed ([`StoreState::wf`]): identifiers unique, at least 1 and
//! strictly below the counter. A reader therefore never sees a record without
//! its identifier having been counted out, and never sees two records sharing
//! an identifier. Mutations take the write side, so identifier allocation and
//! insertion are one atomic step to every other caller.
//!
//! Absence of a targeted record is the expected, recoverable outcome and is
//! reported in the `Ok` value (`None` or `false`). The `Err` branch is the
//! store-level fault. The lock cannot be poisoned (it is not a panicking
//! primitive), so the one fault left is exhaustion of the identifier space,
//! upon which an addition fails rather than ever reissuing an identifier.

use vstd::prelude::*;
use vstd::rwlock::{RwLock, RwLockPredicate};

use crate::pet::{Pet, PetView};
use crate::store::{lemma_mapping_key, StoreState};

verus! {

/// The invariant every state stored in the lock satisfies.
pub struct StorePred {}

impl RwLockPredicate<StoreState> for StorePred {
    open spec fn inv(self, v: StoreState) -> bool {
        v.wf()
    }
}

/// A record store shared by concurrent callers: all operations take `&self`
/// and serialize through the internal lock.
pub struct PetStorage {
    lock: RwLock<StoreState, StorePred>,
}

impl PetStorage {
    /// A fresh, empty store whose first addition will issue identifier 1.
    pub fn new() -> (s: PetStorage) {
        PetStorage { lock: RwLock::new(StoreState::empty(), Ghost(StorePred {})) }
    }

    /// Adds a record with the given attributes under a freshly issued
    /// identifier and returns a copy of it.
    ///
    /// Fails only on the store-level fault of identifier-space exhaustion
    /// (after `u64::MAX - 1` additions); it never reports a spurious success.
    pub fn add_pet(&self, name: String, species: String, age: u32) -> (r: Result<Pet, String>)
        ensures
            r matches Ok(p) ==> p@.name == name@ && p@.species == species@ && p@.age == age
                && 1 <= p@.id,
            r matches Err(m) ==> m@ == "store fault: identifier space exhausted"@,
    {
        let (mut st, wh) = self.lock.acquire_write();
        if st.counter_exhausted() {
            wh.release_write(st);
            Err("store fault: identifier space exhausted".to_owned())
        } else {
            let pet = st.add(name, species, age);
            wh.release_write(st);
            Ok(pet)
        }
    }

    /// Returns a copy of the record stored under `id`, `Ok(None)` when no such
    /// record exists. Read-only: mutates neither the mapping nor the counter.
    pub fn get_pet(&self, id: u64) -> (r: Result<Option<Pet>, String>)
        ensures
            r is Ok,
            r matches Ok(o) && o matches Some(p) ==> p@.id == id && 1 <= p@.id,
    {
        let rh = self.lock.acquire_read();
        let found = rh.borrow().get(id);
        proof {
            lemma_mapping_key(rh.view(), id);
        }
        rh.release_read();
        Ok(found)
    }

    /// Returns a copy of every record in the current state of the mapping, in
    /// unspecified order; the identifiers of the returned records are unique.
    /// Read-only.
    pub fn get_all_pets(&self) -> (r: Result<Vec<Pet>, String>)
        ensures
            r is Ok,
            r matches Ok(v) ==> (forall|i: int, j: int|
                0 <= i < j < v@.len() ==> (#[trigger] v@[i])@.id != (#[trigger] v@[j])@.id),
            r matches Ok(v) ==> (forall|i: int| 0 <= i < v@.len() ==> 1 <= (#[trigger] v@[i])@.id),
    {
        let rh = self.lock.acquire_read();
        let all = rh.borrow().get_all();
        proof {
            let st = rh.view();
            assert forall|i: int| 0 <= i < all@.len() implies 1 <= (#[trigger] all@[i])@.id by {
                lemma_mapping_key(st, all@[i]@.id);
            }
        }
        rh.release_read();
        Ok(all)
    }

    /// Replaces all three attributes of the record stored under `id` and
    /// returns a copy of the new state; `Ok(None)` and no change when `id` is
    /// absent. The record's identity never changes.
    pub fn update_pet(&self, id: u64, name: String, species: String, age: u32) -> (r: Result<
        Option<Pet>,
        String,
    >)
        ensures
            r is Ok,
            r matches Ok(o) && o matches Some(p) ==> p@ == (PetView {
                id,
                name: name@,
                species: species@,
                age,
            }),
    {
        let (mut st, wh) = self.lock.acquire_write();
        let updated = st.update(id, name, species, age);
        wh.release_write(st);
        Ok(updated)
    }

    /// Removes the record stored under `id`, returning whether one was there;
    /// `Ok(false)` and no change when `id` is absent. The identifier is never
    /// reissued by a later addition.
    pub fn delete_pet(&self, id: u64) -> (r: Result<bool, String>)
        ensures
            r is Ok,
    {
        let (mut st, wh) = self.lock.acquire_write();
        let removed = st.delete(id);
        wh.release_write(st);
        Ok(removed)
    }
}

impl Default for PetStorage {
    fn default() -> Self {
        PetStorage::new()
    }
}

} // verus!
