//! The storage engine: query and mutation behaviour, key allocation, and
//! the no-reuse guarantee across a wipe.

use canister_storage::api_error::ApiErrorKind;
use canister_storage::id_iter::{IDIterStorage, IdStore};
use canister_storage::models::topic::{Topic, TopicFilter, TopicKind};
use canister_storage::storage::{
    GenericStorage, Storage, StorageInsertable, StorageInsertableByKey, StorageQueryable,
    StorageUpdateable,
};

fn store() -> GenericStorage<u64, String> {
    GenericStorage::new("things")
}

#[test]
fn fresh_store_is_empty() {
    let s = store();
    assert_eq!(s.size(), 0);
    assert_eq!(s.name(), "things");
}

#[test]
fn insert_then_get_round_trips() {
    let mut s = store();
    let (key, stored) = s.insert_by_key(7, String::from("seven")).unwrap();
    assert_eq!(key, 7);
    assert_eq!(stored, "seven");
    let (k, v) = s.get(7).unwrap();
    assert_eq!(k, 7);
    assert_eq!(v, "seven");
}

#[test]
fn get_absent_key_is_not_found() {
    let s = store();
    let err = s.get(42).unwrap_err();
    assert_eq!(err.kind, ApiErrorKind::NotFound);
    assert_eq!(err.method_name.as_deref(), Some("get"));
    assert_eq!(err.info.as_deref(), Some("things"));
}

#[test]
fn get_opt_never_fails() {
    let mut s = store();
    assert!(s.get_opt(1).is_none());
    s.insert_by_key(1, String::from("one")).unwrap();
    let (k, v) = s.get_opt(1).unwrap();
    assert_eq!((k, v.as_str()), (1, "one"));
}

#[test]
fn update_absent_key_is_not_found_and_leaves_store_unchanged() {
    let mut s = store();
    s.insert_by_key(1, String::from("one")).unwrap();
    let before = s.size();
    let err = s.update(9, String::from("nine")).unwrap_err();
    assert_eq!(err.kind, ApiErrorKind::NotFound);
    assert_eq!(err.message.as_deref(), Some("Key does not exist"));
    assert_eq!(s.size(), before);
    assert_eq!(s.get(1).unwrap().1, "one");
    assert!(s.get_opt(9).is_none());
}

#[test]
fn update_present_key_replaces_the_value() {
    let mut s = store();
    s.insert_by_key(1, String::from("one")).unwrap();
    let (k, v) = s.update(1, String::from("uno")).unwrap();
    assert_eq!((k, v.as_str()), (1, "uno"));
    assert_eq!(s.get(1).unwrap().1, "uno");
    assert_eq!(s.size(), 1);
}

#[test]
fn upsert_on_absent_key_behaves_like_insert_by_key() {
    let mut left = store();
    let mut right = store();
    let up = left.upsert(5, String::from("five")).unwrap();
    let ins = right.insert_by_key(5, String::from("five")).unwrap();
    assert_eq!(up, ins);
    assert_eq!(left.get_all(), right.get_all());
}

#[test]
fn upsert_on_present_key_fully_replaces() {
    let mut s = store();
    s.insert_by_key(5, String::from("five")).unwrap();
    let (k, v) = s.upsert(5, String::from("cinq")).unwrap();
    assert_eq!((k, v.as_str()), (5, "cinq"));
    assert_eq!(s.size(), 1);
    assert_eq!(s.get(5).unwrap().1, "cinq");
}

#[test]
fn insert_by_key_rejects_a_duplicate() {
    let mut s = store();
    s.insert_by_key(3, String::from("three")).unwrap();
    let err = s.insert_by_key(3, String::from("again")).unwrap_err();
    assert_eq!(err.kind, ApiErrorKind::Duplicate);
    assert_eq!(err.message.as_deref(), Some("Key already exists"));
    assert_eq!(s.get(3).unwrap().1, "three");
}

#[test]
fn remove_absent_key_is_not_found() {
    let mut s = store();
    let err = s.remove(4).unwrap_err();
    assert_eq!(err.kind, ApiErrorKind::NotFound);
    assert_eq!(err.method_name.as_deref(), Some("remove"));
}

#[test]
fn remove_many_skips_absent_keys_and_never_errors() {
    let mut s = store();
    s.insert_by_key(1, String::from("one")).unwrap();
    s.insert_by_key(2, String::from("two")).unwrap();
    s.insert_by_key(3, String::from("three")).unwrap();
    s.remove_many(vec![2, 99, 1]);
    assert_eq!(s.size(), 1);
    assert!(s.contains_key(3));
    assert!(!s.contains_key(1));
    assert!(!s.contains_key(2));
}

#[test]
fn get_many_skips_absent_keys() {
    let mut s = store();
    s.insert_by_key(1, String::from("one")).unwrap();
    s.insert_by_key(3, String::from("three")).unwrap();
    let found = s.get_many(vec![3, 2, 1]);
    assert_eq!(found.len(), 2);
    assert_eq!(found[0].0, 3);
    assert_eq!(found[0].1, "three");
    assert_eq!(found[1].0, 1);
    assert_eq!(found[1].1, "one");
}

#[test]
fn get_all_returns_entries_ascending_by_key() {
    let mut s = store();
    s.insert_by_key(5, String::from("five")).unwrap();
    s.insert_by_key(3, String::from("three")).unwrap();
    s.insert_by_key(4, String::from("four")).unwrap();
    let all = s.get_all();
    let keys: Vec<u64> = all.iter().map(|e| e.0).collect();
    assert_eq!(keys, vec![3, 4, 5]);
}

#[test]
fn find_returns_the_match_with_the_lowest_key() {
    let mut s: GenericStorage<u64, Topic> = GenericStorage::new("topics");
    s.insert_by_key(5, Topic::new(TopicKind::Tag, String::from("hiking"))).unwrap();
    s.insert_by_key(3, Topic::new(TopicKind::Tag, String::from("sailing"))).unwrap();
    let found = s.find(&TopicFilter::Kind(TopicKind::Tag)).unwrap();
    assert_eq!(found.0, 3);
}

#[test]
fn filter_returns_matches_ascending_by_key() {
    let mut s: GenericStorage<u64, Topic> = GenericStorage::new("topics");
    s.insert_by_key(9, Topic::new(TopicKind::Tag, String::from("a"))).unwrap();
    s.insert_by_key(2, Topic::new(TopicKind::Tag, String::from("b"))).unwrap();
    s.insert_by_key(7, Topic::new(TopicKind::Skill, String::from("c"))).unwrap();
    let tags = s.filter(&TopicFilter::Kind(TopicKind::Tag));
    let keys: Vec<u64> = tags.iter().map(|e| e.0).collect();
    assert_eq!(keys, vec![2, 9]);
}

#[test]
fn auto_keyed_lifecycle_never_reuses_a_key() {
    let mut s: GenericStorage<u64, String> = GenericStorage::new("records");
    let mut ids = IdStore::new();

    let (k1, _) = s.insert(&mut ids, String::from("V1")).unwrap();
    assert_eq!(k1, 1);
    assert_eq!(s.size(), 1);

    let (k2, _) = s.insert(&mut ids, String::from("V2")).unwrap();
    assert_eq!(k2, 2);
    assert_eq!(s.size(), 2);

    s.remove(1).unwrap();
    assert_eq!(s.size(), 1);
    let err = s.get(1).unwrap_err();
    assert_eq!(err.kind, ApiErrorKind::NotFound);

    s.clear();
    assert_eq!(s.size(), 0);

    let (k3, _) = s.insert(&mut ids, String::from("V3")).unwrap();
    assert_eq!(k3, 3);
    assert_eq!(s.size(), 1);
}

#[test]
fn allocator_bootstraps_from_the_largest_existing_key() {
    let mut s: GenericStorage<u64, String> = GenericStorage::new("seeded");
    s.insert_by_key(10, String::from("pre")).unwrap();
    s.insert_by_key(4, String::from("existing")).unwrap();
    assert_eq!(s.get_last_key(), 10);
    let mut ids = IdStore::new();
    let (k, _) = s.insert(&mut ids, String::from("fresh")).unwrap();
    assert_eq!(k, 11);
}

#[test]
fn clear_keeps_the_name() {
    let mut s = store();
    s.insert_by_key(1, String::from("one")).unwrap();
    s.clear();
    assert_eq!(s.name(), "things");
    assert_eq!(s.size(), 0);
}
