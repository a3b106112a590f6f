//! The record type held by the store: an identifier assigned by the store and
//! three caller-chosen attributes.

use vstd::prelude::*;

verus! {

/// Mathematical value of a [`Pet`]: the identifier and the three attributes,
/// with the text fields as character sequences.
#[verifier::ext_equal]
pub ghost struct PetView {
    pub id: u64,
    pub name: Seq<char>,
    pub species: Seq<char>,
    pub age: u32,
}

/// A stored record: the identity field `id` is assigned by the store and never
/// changes after creation; `name`, `species` and `age` are replaced wholesale
/// by an update.
#[derive(Debug)]
pub struct Pet {
    pub id: u64,
    pub name: String,
    pub species: String,
    pub age: u32,
}

impl View for Pet {
    type V = PetView;

    open spec fn view(&self) -> PetView {
        PetView { id: self.id, name: self.name@, species: self.species@, age: self.age }
    }
}

impl Pet {
    /// Builds a record from an identifier and the three attributes.
    pub fn new(id: u64, name: String, species: String, age: u32) -> (pet: Pet)
        ensures
            pet@ == (PetView { id, name: name@, species: species@, age }),
    {
        Pet { id, name, species, age }
    }
}

impl Clone for Pet {
    fn clone(&self) -> (r: Self)
        ensures
            r@ == self@,
    {
        Pet {
            id: self.id,
            name: self.name.clone(),
            species: self.species.clone(),
            age: self.age,
        }
    }
}

impl PartialEq for Pet {
    fn eq(&self, other: &Pet) -> (r: bool) {
        self.id == other.id && self.name == other.name && self.species == other.species
            && self.age == other.age
    }
}

impl vstd::std_specs::cmp::PartialEqSpecImpl for Pet {
    open spec fn obeys_eq_spec() -> bool {
        true
    }

    open spec fn eq_spec(&self, other: &Pet) -> bool {
        self@ == other@
    }
}

} // verus!
