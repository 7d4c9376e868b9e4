use std::collections::HashMap;
use std::sync::Arc;

use servicelib::datasource::grpc::CallbackStore;

#[test]
fn operations_match_hash_map() {
    let mut store = CallbackStore::new();
    let mut reference = HashMap::new();
    let mut seed = 13_u64;
    for value in 0..10_000 {
        seed = seed.wrapping_mul(6364136223846793005).wrapping_add(1);
        let id = if seed % 7 == 0 {
            String::new()
        } else {
            (seed % 11).to_string()
        };
        match seed >> 32 & 3 {
            0 | 1 => assert_eq!(store.insert(id.clone(), value), reference.insert(id, value)),
            2 => assert_eq!(store.remove(&id), reference.remove(&id)),
            _ => assert_eq!(store.get(&id), reference.get(&id)),
        }
    }
}

#[test]
fn single_id_stays_inline_and_lookup_survives_removal() {
    let mut store = CallbackStore::new();
    store.insert(String::new(), Arc::new(1));
    store.insert(String::new(), Arc::new(2));
    assert!(matches!(store, CallbackStore::Inline(_)));
    let retained = store.get("").unwrap().clone();
    assert_eq!(*store.remove("").unwrap(), 2);
    assert!(store.remove("").is_none());
    assert_eq!(*retained, 2);
    store.insert("a".into(), Arc::new(3));
    store.insert("b".into(), Arc::new(4));
    assert!(matches!(store, CallbackStore::Many(_)));
    assert_eq!(**store.get("a").unwrap(), 3);
}

#[test]
fn store_with_many_ids_never_goes_back_inline() {
    let mut store = CallbackStore::new();
    store.insert("a".to_owned(), 1);
    store.insert("b".to_owned(), 2);
    assert_eq!(store.remove("a"), Some(1));
    assert_eq!(store.remove("b"), Some(2));
    assert!(matches!(store, CallbackStore::Many(_)));
    assert_eq!(store.get("a"), None);
    assert_eq!(store.insert("grüße".to_owned(), 3), None);
    assert_eq!(store.insert("grüße".to_owned(), 4), Some(3));
}
