use pet_store::pet::Pet;
use pet_store::storage::PetStorage;

// Start empty; add two records, read them all back, replace the first one's
// attributes, delete it, and check every step's result, including that the
// second deletion of the same identifier reports absence.
#[test]
fn scenario_full_lifecycle() {
    let storage = PetStorage::new();

    let first = storage
        .add_pet("Fluffy".to_string(), "Cat".to_string(), 3)
        .unwrap();
    assert_eq!(first.id, 1);
    let second = storage
        .add_pet("Buddy".to_string(), "Dog".to_string(), 5)
        .unwrap();
    assert_eq!(second.id, 2);

    let mut all = storage.get_all_pets().unwrap();
    all.sort_by_key(|p| p.id);
    assert_eq!(all.len(), 2);
    assert_eq!(all[0], Pet::new(1, "Fluffy".to_string(), "Cat".to_string(), 3));
    assert_eq!(all[1], Pet::new(2, "Buddy".to_string(), "Dog".to_string(), 5));

    let updated = storage
        .update_pet(1, "Fluffy Jr.".to_string(), "Cat".to_string(), 4)
        .unwrap();
    assert_eq!(
        updated,
        Some(Pet::new(1, "Fluffy Jr.".to_string(), "Cat".to_string(), 4))
    );

    assert!(storage.delete_pet(1).unwrap());
    assert!(storage.get_pet(1).unwrap().is_none());

    let remaining = storage.get_all_pets().unwrap();
    assert_eq!(remaining.len(), 1);
    assert_eq!(
        remaining[0],
        Pet::new(2, "Buddy".to_string(), "Dog".to_string(), 5)
    );

    assert!(!storage.delete_pet(1).unwrap());
}

// A run of additions into a fresh store issues exactly the identifiers 1..=n,
// with no duplicates and no gaps, and get_all returns one record per addition.
#[test]
fn scenario_many_adds_issue_dense_ids() {
    let storage = PetStorage::new();
    let n: u64 = 100;
    for i in 0..n {
        let pet = storage
            .add_pet(format!("pet-{i}"), "Hamster".to_string(), 1)
            .unwrap();
        assert_eq!(pet.id, i + 1);
    }

    let all = storage.get_all_pets().unwrap();
    assert_eq!(all.len() as u64, n);
    let mut ids: Vec<u64> = all.iter().map(|p| p.id).collect();
    ids.sort_unstable();
    let expected: Vec<u64> = (1..=n).collect();
    assert_eq!(ids, expected);
}

// Identifiers never issued are absent, including 0 and anything at or above
// the counter.
#[test]
fn get_unissued_id_is_absent() {
    let storage = PetStorage::new();
    assert!(storage.get_pet(0).unwrap().is_none());
    assert!(storage.get_pet(1).unwrap().is_none());
    storage
        .add_pet("Fluffy".to_string(), "Cat".to_string(), 3)
        .unwrap();
    assert!(storage.get_pet(0).unwrap().is_none());
    assert!(storage.get_pet(2).unwrap().is_none());
    assert!(storage.get_pet(u64::MAX).unwrap().is_none());
}

// An update of an absent identifier reports absence and leaves the stored
// records untouched.
#[test]
fn update_absent_id_changes_nothing() {
    let storage = PetStorage::new();
    storage
        .add_pet("Fluffy".to_string(), "Cat".to_string(), 3)
        .unwrap();

    let before = storage.get_all_pets().unwrap();
    let updated = storage
        .update_pet(7, "Ghost".to_string(), "Dog".to_string(), 9)
        .unwrap();
    assert!(updated.is_none());
    let after = storage.get_all_pets().unwrap();
    assert_eq!(before, after);
}

// A successful update replaces all three attributes of exactly the targeted
// record, keeps its identity, and leaves the other records unchanged.
#[test]
fn update_changes_only_target() {
    let storage = PetStorage::new();
    storage
        .add_pet("Fluffy".to_string(), "Cat".to_string(), 3)
        .unwrap();
    storage
        .add_pet("Buddy".to_string(), "Dog".to_string(), 5)
        .unwrap();

    let updated = storage
        .update_pet(2, "Rex".to_string(), "Lizard".to_string(), 7)
        .unwrap()
        .unwrap();
    assert_eq!(updated, Pet::new(2, "Rex".to_string(), "Lizard".to_string(), 7));
    assert_eq!(
        storage.get_pet(2).unwrap().unwrap(),
        Pet::new(2, "Rex".to_string(), "Lizard".to_string(), 7)
    );
    assert_eq!(
        storage.get_pet(1).unwrap().unwrap(),
        Pet::new(1, "Fluffy".to_string(), "Cat".to_string(), 3)
    );
}

// A deletion of an absent identifier reports false and changes nothing.
#[test]
fn delete_absent_id_changes_nothing() {
    let storage = PetStorage::new();
    storage
        .add_pet("Fluffy".to_string(), "Cat".to_string(), 3)
        .unwrap();

    let before = storage.get_all_pets().unwrap();
    assert!(!storage.delete_pet(5).unwrap());
    let after = storage.get_all_pets().unwrap();
    assert_eq!(before, after);
}

// A deleted identifier is never reissued: additions after the deletion keep
// counting upward.
#[test]
fn deleted_id_is_never_reissued() {
    let storage = PetStorage::new();
    let first = storage
        .add_pet("Fluffy".to_string(), "Cat".to_string(), 3)
        .unwrap();
    assert!(storage.delete_pet(first.id).unwrap());

    let second = storage
        .add_pet("Buddy".to_string(), "Dog".to_string(), 5)
        .unwrap();
    assert_ne!(second.id, first.id);
    assert_eq!(second.id, 2);
    assert!(storage.get_pet(first.id).unwrap().is_none());
}

// A fresh store holds nothing.
#[test]
fn fresh_store_is_empty() {
    let storage = PetStorage::new();
    let all = storage.get_all_pets().unwrap();
    assert!(all.is_empty());
}
