//! The id allocator: strictly increasing ids per kind, independence across
//! kinds, and the rejected overflow.

use canister_storage::api_error::ApiErrorKind;
use canister_storage::id_iter::{IDIterStorage, IdStore};

#[test]
fn fresh_allocator_has_no_counters() {
    let ids = IdStore::new();
    assert_eq!(ids.name(), "id_iter_storage");
    assert!(ids.get("group").is_none());
    assert!(ids.get_all().is_empty());
}

#[test]
fn next_is_strictly_increasing_per_kind() {
    let mut ids = IdStore::new();
    let mut previous: u64 = 0;
    for _ in 0..10 {
        let id = ids.next("group", 0).unwrap();
        assert!(id > previous);
        previous = id;
    }
    assert_eq!(previous, 10);
    assert_eq!(ids.get("group"), Some(10));
}

#[test]
fn kinds_do_not_disturb_each_other() {
    let mut ids = IdStore::new();
    let g1 = ids.next("group", 0).unwrap();
    let e1 = ids.next("event", 0).unwrap();
    let g2 = ids.next("group", 0).unwrap();
    let e2 = ids.next("event", 0).unwrap();
    let g3 = ids.next("group", 0).unwrap();
    assert_eq!((g1, g2, g3), (1, 2, 3));
    assert_eq!((e1, e2), (1, 2));
}

#[test]
fn seed_is_only_used_before_the_first_issue() {
    let mut ids = IdStore::new();
    let first = ids.next("group", 7).unwrap();
    assert_eq!(first, 8);
    // later calls ignore the seed, even a smaller or larger one
    let second = ids.next("group", 0).unwrap();
    assert_eq!(second, 9);
    let third = ids.next("group", 1000).unwrap();
    assert_eq!(third, 10);
}

#[test]
fn counter_overflow_is_rejected_and_nothing_changes() {
    let mut ids = IdStore::new();
    let err = ids.next("group", u64::MAX).unwrap_err();
    assert_eq!(err.kind, ApiErrorKind::Unexpected);
    assert_eq!(err.method_name.as_deref(), Some("next"));
    assert!(ids.get("group").is_none());
}

#[test]
fn get_all_lists_every_kind_ascending() {
    let mut ids = IdStore::new();
    ids.next("group", 0).unwrap();
    ids.next("event", 0).unwrap();
    ids.next("group", 0).unwrap();
    let all = ids.get_all();
    assert_eq!(all.len(), 2);
    assert_eq!(all[0].0, "event");
    assert_eq!(all[0].1, 1);
    assert_eq!(all[1].0, "group");
    assert_eq!(all[1].1, 2);
}
