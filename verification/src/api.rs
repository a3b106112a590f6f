//! The request bodies of the HTTP layer and the state it shares between
//! handlers. The transport itself lives outside the library; it hands these
//! plain values in and takes records back.

use vstd::prelude::*;

use crate::storage::PetStorage;

verus! {

/// Body of a creation request: the three attributes of the record to add.
pub struct CreatePetRequest {
    pub name: String,
    pub species: String,
    pub age: u32,
}

/// Body of an update request: the replacement attributes for a stored record.
pub struct UpdatePetRequest {
    pub name: String,
    pub species: String,
    pub age: u32,
}

/// The state shared by all request handlers: the one record store, created at
/// process start and alive for the process lifetime.
pub struct AppState {
    pub storage: PetStorage,
}

} // verus!
