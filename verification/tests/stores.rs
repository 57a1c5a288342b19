use bevy_node_plumber::keyed::KeyedStore;
use bevy_node_plumber::named::NamedStore;

#[test]
fn keyed_store_starts_empty() {
    let store: KeyedStore<u32> = KeyedStore::new();
    assert_eq!(store.len(), 0);
    assert!(!store.contains_key(0));
    assert!(store.get(7).is_none());
    assert_eq!(store.slot_of(7), None);
}

#[test]
fn keyed_store_finds_what_was_inserted() {
    let mut store: KeyedStore<&'static str> = KeyedStore::new();
    store.insert(10, "ten");
    store.insert(u64::MAX, "max");
    store.insert(0, "zero");
    assert_eq!(store.len(), 3);
    assert_eq!(store.get(10), Some(&"ten"));
    assert_eq!(store.get(u64::MAX), Some(&"max"));
    assert_eq!(store.get(0), Some(&"zero"));
    assert_eq!(store.get(11), None);
    assert!(store.contains_key(0));
    assert!(!store.contains_key(1));
}

#[test]
fn keyed_store_keeps_slots_in_order_of_arrival() {
    let mut store: KeyedStore<u32> = KeyedStore::new();
    store.insert(30, 3);
    store.insert(10, 1);
    store.insert(20, 2);
    assert_eq!(store.key_at(0), 30);
    assert_eq!(store.key_at(1), 10);
    assert_eq!(store.key_at(2), 20);
    assert_eq!(*store.value_at(0), 3);
    assert_eq!(*store.value_at(1), 1);
    assert_eq!(*store.value_at(2), 2);
    assert_eq!(store.slot_of(10), Some(1));
    assert_eq!(store.slot_of(20), Some(2));
    assert_eq!(store.slot_of(30), Some(0));
}

#[test]
fn keyed_store_insert_replaces_in_place() {
    let mut store: KeyedStore<u32> = KeyedStore::new();
    store.insert(1, 100);
    store.insert(2, 200);
    store.insert(1, 111);
    assert_eq!(store.len(), 2);
    assert_eq!(store.get(1), Some(&111));
    assert_eq!(store.get(2), Some(&200));
    assert_eq!(store.key_at(0), 1);
    assert_eq!(store.slot_of(1), Some(0));
}

#[test]
fn keyed_store_changes_values_by_slot() {
    let mut store: KeyedStore<u32> = KeyedStore::new();
    store.insert(5, 50);
    store.insert(6, 60);
    store.set_value_at(1, 61);
    *store.value_mut_at(0) += 1;
    assert_eq!(store.get(5), Some(&51));
    assert_eq!(store.get(6), Some(&61));
}

#[test]
fn named_store_starts_empty() {
    let store: NamedStore<u32> = NamedStore::new();
    assert_eq!(store.len(), 0);
    assert!(!store.contains_key(&"a".to_string()));
}

#[test]
fn named_store_finds_what_was_inserted() {
    let mut store: NamedStore<u32> = NamedStore::new();
    store.insert("a".to_string(), 1);
    store.insert("b".to_string(), 2);
    assert!(store.contains_key(&"a".to_string()));
    assert!(store.contains_key(&"b".to_string()));
    assert!(!store.contains_key(&"c".to_string()));
    assert_eq!(store.len(), 2);
    assert_eq!(store.name_at(0), "a");
    assert_eq!(store.name_at(1), "b");
    assert_eq!(*store.value_at(0), Some(1));
    assert_eq!(*store.value_at(1), Some(2));
}

#[test]
fn named_store_insert_replaces_by_name() {
    let mut store: NamedStore<u32> = NamedStore::new();
    store.insert("a".to_string(), 1);
    store.insert("a".to_string(), 2);
    assert_eq!(store.len(), 1);
    assert_eq!(*store.value_at(0), Some(2));
    assert_eq!(store.remove(&"a".to_string()), Some(2));
}

#[test]
fn named_store_removes_once() {
    let mut store: NamedStore<u32> = NamedStore::new();
    store.insert("a".to_string(), 1);
    store.insert("b".to_string(), 2);
    assert_eq!(store.remove(&"a".to_string()), Some(1));
    assert_eq!(store.remove(&"a".to_string()), None);
    assert!(!store.contains_key(&"a".to_string()));
    assert!(store.contains_key(&"b".to_string()));
    assert_eq!(store.remove(&"missing".to_string()), None);
    assert_eq!(store.remove(&"b".to_string()), Some(2));
}

#[test]
fn named_store_takes_a_name_back_after_removal() {
    let mut store: NamedStore<u32> = NamedStore::new();
    store.insert("a".to_string(), 1);
    assert_eq!(store.remove(&"a".to_string()), Some(1));
    store.insert("a".to_string(), 3);
    assert!(store.contains_key(&"a".to_string()));
    assert_eq!(store.remove(&"a".to_string()), Some(3));
    assert_eq!(store.len(), 2);
    assert_eq!(*store.value_at(0), None);
}
