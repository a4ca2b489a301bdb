use nokden::{EngineError, Storage};

#[test]
fn add_returns_strictly_increasing_indices() {
    let mut storage: Storage<u32> = Storage::new();
    let first = storage.add(10);
    let second = storage.add(20);
    let third = storage.add(30);
    assert_eq!(first.index(), 0);
    assert_eq!(second.index(), 1);
    assert_eq!(third.index(), 2);
    assert!(first.index() < second.index());
    assert!(second.index() < third.index());
}

#[test]
fn read_returns_value_last_written() {
    let mut storage: Storage<u32> = Storage::new();
    let first = storage.add(10);
    let second = storage.add(20);
    assert_eq!(*storage.read(&first), 10);
    assert_eq!(*storage.read(&second), 20);
    storage.write(&first, 11);
    assert_eq!(*storage.read(&first), 11);
    assert_eq!(*storage.read(&second), 20);
    storage.write(&first, 12);
    assert_eq!(*storage.read(&first), 12);
}

#[test]
fn duplicate_aliases_the_same_slot() {
    let mut storage: Storage<String> = Storage::new();
    let original = storage.add(String::from("shared"));
    let alias = storage.duplicate(&original);
    assert_eq!(alias.index(), original.index());
    assert_eq!(*storage.read(&alias), *storage.read(&original));
    storage.write(&alias, String::from("through alias"));
    assert_eq!(*storage.read(&original), "through alias");
    storage.write(&original, String::from("through original"));
    assert_eq!(*storage.read(&alias), "through original");
}

#[test]
fn duplicate_counts_shared_ownership() {
    let mut storage: Storage<u32> = Storage::new();
    let original = storage.add(1);
    let other = storage.add(2);
    assert_eq!(storage.usage_of(&original), 1);
    let alias = storage.duplicate(&original);
    assert_eq!(storage.usage_of(&original), 2);
    assert_eq!(storage.usage_of(&alias), 2);
    assert_eq!(storage.usage_of(&other), 1);
}

#[test]
fn write_does_not_disturb_other_slots() {
    let mut storage: Storage<u32> = Storage::new();
    let first = storage.add(1);
    let second = storage.add(2);
    let third = storage.add(3);
    storage.write(&second, 99);
    assert_eq!(*storage.read(&first), 1);
    assert_eq!(*storage.read(&second), 99);
    assert_eq!(*storage.read(&third), 3);
}

#[test]
fn remove_is_unsupported_and_leaves_storage_untouched() {
    let mut storage: Storage<u32> = Storage::new();
    let handle = storage.add(7);
    let other = storage.add(8);
    let result = storage.remove(handle);
    assert_eq!(result, Err(EngineError::Unsupported));
    assert_eq!(storage.len(), 2);
    assert_eq!(*storage.read(&other), 8);
}

#[test]
fn all_iterates_in_insertion_order() {
    let mut storage: Storage<u32> = Storage::new();
    storage.add(5);
    storage.add(6);
    storage.add(7);
    let values: Vec<u32> = storage.all().iter().copied().collect();
    assert_eq!(values, vec![5, 6, 7]);
    assert_eq!(storage.len(), 3);
}
