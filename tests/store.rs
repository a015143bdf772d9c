use cellbook::store::{clear, list, load_value, remove_value, store_value, Store};

#[test]
fn test_store_and_load() {
    let mut store = Store::new();
    store_value(&mut store, "test_bytes", vec![1, 2, 3, 4], "test");
    let loaded = load_value(&store, "test_bytes").unwrap();
    assert_eq!(loaded.0, vec![1, 2, 3, 4]);
    assert_eq!(loaded.1, "test");
}

#[test]
fn test_remove() {
    let mut store = Store::new();
    store_value(&mut store, "test_remove", vec![5, 6], "test");
    let removed = remove_value(&mut store, "test_remove").unwrap();
    assert_eq!(removed.0, vec![5, 6]);
    assert!(load_value(&store, "test_remove").is_none());
}

#[test]
fn test_not_found() {
    let store = Store::new();
    let result = load_value(&store, "nonexistent_key");
    assert!(result.is_none());
}

#[test]
fn store_replaces_value_under_same_key() {
    let mut store = Store::new();
    store_value(&mut store, "k", vec![1], "a");
    store_value(&mut store, "k", vec![2, 3], "b");
    assert_eq!(load_value(&store, "k"), Some((vec![2, 3], "b".to_string())));
    assert_eq!(list(&store).len(), 1);
}

#[test]
fn list_is_a_snapshot_of_keys_and_tags() {
    let mut store = Store::new();
    store_value(&mut store, "a", vec![1], "ta");
    store_value(&mut store, "b", vec![2], "tb");
    let mut items = list(&store);
    items.sort();
    assert_eq!(items, vec![("a".to_string(), "ta".to_string()), ("b".to_string(), "tb".to_string())]);
    store_value(&mut store, "c", vec![3], "tc");
    assert_eq!(items.len(), 2);
}

#[test]
fn remove_missing_key_gives_none_and_clear_empties() {
    let mut store = Store::new();
    assert!(remove_value(&mut store, "missing").is_none());
    store_value(&mut store, "a", vec![], "t");
    clear(&mut store);
    assert!(list(&store).is_empty());
    assert!(load_value(&store, "a").is_none());
}
