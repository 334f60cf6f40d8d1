//! Case-insensitive text handling and the filter combinators.

use canister_storage::filter::{matches_all, Filter};
use canister_storage::models::group_with_members::{GroupFilter, GroupWithMembers, PostGroup};
use canister_storage::models::support::{Asset, Location, PrivacyType};
use canister_storage::principal::PrincipalId;
use canister_storage::storage::{GenericStorage, StorageInsertableByKey, StorageQueryable};
use canister_storage::text::{contains_ci, eq_str, le_ci, str_len};

fn caller() -> PrincipalId {
    PrincipalId::from_bytes(vec![1, 2, 3])
}

fn post_group(name: &str) -> PostGroup {
    PostGroup {
        name: String::from(name),
        description: String::new(),
        website: String::new(),
        matrix_space_id: String::new(),
        location: Location::Unset,
        privacy: PrivacyType::Public,
        privacy_gated_type_amount: None,
        image: Asset::Unset,
        banner_image: Asset::Unset,
        tags: vec![],
    }
}

#[test]
fn case_insensitive_substring_filter_matches_only_alice() {
    let mut store: GenericStorage<u64, GroupWithMembers> = GenericStorage::new("group");
    let names = ["Alice", "bob", "Charlie"];
    let mut key: u64 = 1;
    for name in names {
        let group = GroupWithMembers::from_post(post_group(name), caller(), 100);
        store.insert_by_key(key, group).unwrap();
        key += 1;
    }
    let matching = store.filter(&GroupFilter::Name(String::from("ali")));
    assert_eq!(matching.len(), 1);
    assert_eq!(matching[0].0, 1);
    assert_eq!(matching[0].1.metadata.name, "Alice");
}

#[test]
fn find_returns_the_first_match_in_storage_order() {
    let mut store: GenericStorage<u64, GroupWithMembers> = GenericStorage::new("group");
    store.insert_by_key(1, GroupWithMembers::from_post(post_group("climbers"), caller(), 1)).unwrap();
    store.insert_by_key(2, GroupWithMembers::from_post(post_group("Club"), caller(), 2)).unwrap();
    store.insert_by_key(3, GroupWithMembers::from_post(post_group("book club"), caller(), 3)).unwrap();
    let found = store.find(&GroupFilter::Name(String::from("cl"))).unwrap();
    assert_eq!(found.0, 1);
    assert!(store.find(&GroupFilter::Name(String::from("zzz"))).is_none());
}

#[test]
fn a_filter_list_is_a_logical_and() {
    let alice = GroupWithMembers::from_post(post_group("Alice"), caller(), 100);
    let both = vec![
        GroupFilter::Name(String::from("ali")),
        GroupFilter::Ids(vec![1, 2]),
    ];
    assert!(matches_all(&both, &1, &alice));
    let conflicting = vec![
        GroupFilter::Name(String::from("ali")),
        GroupFilter::Ids(vec![2]),
    ];
    assert!(!matches_all(&conflicting, &1, &alice));
    let empty: Vec<GroupFilter> = vec![];
    assert!(matches_all(&empty, &1, &alice));
}

#[test]
fn any_filter_passes_everything() {
    let alice = GroupWithMembers::from_post(post_group("Alice"), caller(), 100);
    assert!(GroupFilter::Any.matches(&1, &alice));
}

#[test]
fn eq_str_compares_lower_cased_strings() {
    assert!(eq_str("Alice", "aLiCe"));
    assert!(!eq_str("Alice", "Bob"));
    assert!(eq_str("", ""));
}

#[test]
fn contains_ci_finds_lower_cased_substrings() {
    assert!(contains_ci("Alice", "ali"));
    assert!(contains_ci("Alice", "LICE"));
    assert!(!contains_ci("bob", "ali"));
    assert!(contains_ci("anything", ""));
}

#[test]
fn le_ci_orders_lower_cased_strings() {
    assert!(le_ci("Apple", "banana"));
    assert!(!le_ci("cherry", "Banana"));
    assert!(le_ci("same", "SAME"));
    // lower-casing changes the order here: without it, the upper-case
    // letter would sort first
    assert!(!le_ci("Zebra", "apple"));
    assert!(le_ci("apple", "Zebra"));
}

#[test]
fn str_len_counts_user_perceived_characters() {
    assert_eq!(str_len(""), 0);
    assert_eq!(str_len("abc"), 3);
    // a letter with a combining accent is one perceived character
    assert_eq!(str_len("e\u{301}"), 1);
    assert_eq!(str_len("a\u{310}e\u{301}o\u{308}\u{332}"), 3);
}
