//! The entity records: constructors, role handling, reference lists,
//! sorting and the error taxonomy.

use canister_storage::api_error::{ApiError, ApiErrorKind};
use canister_storage::date_range::DateRange;
use canister_storage::guards::is_not_anonymous;
use canister_storage::models::boosted::{Boost, BoostedSort};
use canister_storage::models::event_with_attendees::{EventWithAttendees, PostEvent};
use canister_storage::models::friend_request::{FriendRequest, FriendRequestResponse};
use canister_storage::models::group_with_members::{GroupSort, GroupWithMembers, PostGroup};
use canister_storage::models::member::Join;
use canister_storage::models::members::Members;
use canister_storage::models::subject::{Subject, SubjectType};
use canister_storage::models::support::{Asset, InviteType, Location, PrivacyType, RelationType};
use canister_storage::models::topic::{Topic, TopicKind};
use canister_storage::principal::PrincipalId;
use canister_storage::sort_direction::SortDirection;
use canister_storage::sorter::Sorter;

fn pid(tag: u8) -> PrincipalId {
    PrincipalId::from_bytes(vec![tag, tag, tag])
}

fn post_group(name: &str) -> PostGroup {
    PostGroup {
        name: String::from(name),
        description: String::from("a group"),
        website: String::new(),
        matrix_space_id: String::new(),
        location: Location::Unset,
        privacy: PrivacyType::Public,
        privacy_gated_type_amount: None,
        image: Asset::Unset,
        banner_image: Asset::Unset,
        tags: vec![4, 5],
    }
}

#[test]
fn boost_lifecycle() {
    let mut boost = Boost::new(Subject::Group(3), 60, pid(1), 12, 1000);
    assert_eq!(boost.created_at, 1000);
    assert_eq!(boost.updated_at, 1000);
    assert!(boost.notification_id.is_none());
    boost.update(120, 2000);
    assert_eq!(boost.seconds, 120);
    assert_eq!(boost.updated_at, 2000);
    assert_eq!(boost.created_at, 1000);
    boost.set_notification_id(8);
    assert_eq!(boost.notification_id, Some(8));
    boost.remove_notification_id();
    assert!(boost.notification_id.is_none());
}

#[test]
fn subjects_expose_type_and_id() {
    assert_eq!(Subject::Group(9).get_type(), SubjectType::Group);
    assert_eq!(Subject::Group(9).get_id(), 9);
    assert_eq!(Subject::Event(4).get_id(), 4);
    assert_eq!(Subject::Profile(pid(1)).get_type(), SubjectType::Profile);
    assert_eq!(Subject::Profile(pid(1)).get_id(), 0);
}

#[test]
fn join_role_assignment_only_accepts_assignable_roles() {
    let mut join = Join::new(10);
    assert!(join.has_member_role());
    join.set_role(String::from("admin"), 20);
    assert!(join.has_admin_role());
    assert!(!join.has_member_role());
    assert_eq!(join.updated_at, 20);
    // the owner role is never assigned this way
    join.set_role(String::from("owner"), 30);
    assert!(join.has_admin_role());
    assert!(!join.has_owner_role());
    assert_eq!(join.updated_at, 20);
}

#[test]
fn members_set_owner_demotes_the_previous_owner() {
    let alice = pid(1);
    let bob = pid(2);
    let mut members = Members::new_with_owner(alice.clone(), 5);
    // bob joins as a plain member
    let mut group = GroupWithMembers::from_post(post_group("hikers"), alice.clone(), 5);
    group.add_member(bob.clone(), 6);
    group.set_owner(bob.clone(), 7);
    assert_eq!(group.owner.as_bytes(), bob.as_bytes());
    let roster = group.get_members();
    assert_eq!(roster.len(), 2);
    // the previous owner no longer holds the owner role
    members.set_owner(bob.clone(), 7);
    assert!(!members.members[0].1.has_owner_role());
}

#[test]
fn group_tracks_events_and_special_members() {
    let alice = pid(1);
    let mut group = GroupWithMembers::from_post(post_group("hikers"), alice, 5);
    group.add_event(10);
    group.add_event(11);
    group.add_event(10);
    assert_eq!(group.get_event_ids(), vec![10, 11, 10]);
    group.remove_event(10);
    assert_eq!(group.get_event_ids(), vec![11]);

    let banned = pid(9);
    assert!(!group.is_banned_member(banned.clone()));
    group.add_special_member(banned.clone(), RelationType::Blocked);
    assert!(group.is_banned_member(banned.clone()));
    group.remove_special_member(banned.clone());
    assert!(!group.is_banned_member(banned));
}

#[test]
fn group_invites_convert_to_memberships() {
    let alice = pid(1);
    let carol = pid(3);
    let mut group = GroupWithMembers::from_post(post_group("hikers"), alice, 5);
    group.add_invite(carol.clone(), InviteType::OwnerRequest, Some(4), 6);
    assert_eq!(group.get_invites().len(), 1);
    group.convert_invite_to_member(carol.clone(), 7);
    assert!(group.get_invites().is_empty());
    assert_eq!(group.get_members().len(), 2);
}

#[test]
fn group_roles_start_with_the_protected_defaults() {
    let group = GroupWithMembers::from_post(post_group("hikers"), pid(1), 5);
    let roles = group.get_roles();
    let names: Vec<&str> = roles.iter().map(|r| r.name.as_str()).collect();
    assert_eq!(names, vec!["owner", "admin", "moderator", "member"]);
    assert!(roles.iter().all(|r| r.protected));
    assert!(group.get_role_permissions(String::from("owner")).is_empty());
    assert!(group.get_role_permissions(String::from("unknown")).is_empty());
}

#[test]
fn event_date_range_spans_all_dates() {
    let event = PostEvent {
        name: String::from("meetup"),
        description: String::new(),
        date: DateRange::new(100, 200),
        privacy: PrivacyType::Public,
        website: String::new(),
        location: Location::Unset,
        image: Asset::Unset,
        banner_image: Asset::Unset,
        group_id: Some(1),
        metadata: None,
        tags: vec![],
    };
    let mut event = EventWithAttendees::from_post(event, pid(1), 50);
    event.dates.push(DateRange::new(50, 120));
    event.dates.push(DateRange::new(150, 400));
    let total = event.get_total_date_range(0);
    assert_eq!(total.start_date(), 50);
    assert_eq!(total.end_date(), 400);
}

#[test]
fn sorting_is_stable_for_equal_entries() {
    // two boosts share a creation time; the sort keeps their input order
    let entries = vec![
        (1u64, Boost::new(Subject::Group(1), 10, pid(1), 1, 100)),
        (2u64, Boost::new(Subject::Group(2), 10, pid(1), 1, 50)),
        (3u64, Boost::new(Subject::Group(3), 10, pid(1), 1, 100)),
    ];
    let sorted = BoostedSort::CreatedAt(SortDirection::Asc).sort(entries);
    let keys: Vec<u64> = sorted.iter().map(|e| e.0).collect();
    assert_eq!(keys, vec![2, 1, 3]);
}

#[test]
fn boosts_sort_by_creation_time_in_both_directions() {
    let entries = vec![
        (1u64, Boost::new(Subject::Group(1), 10, pid(1), 1, 300)),
        (2u64, Boost::new(Subject::Group(2), 10, pid(1), 1, 100)),
        (3u64, Boost::new(Subject::Group(3), 10, pid(1), 1, 200)),
    ];
    let ascending = BoostedSort::CreatedAt(SortDirection::Asc).sort(entries.clone());
    let keys: Vec<u64> = ascending.iter().map(|e| e.0).collect();
    assert_eq!(keys, vec![2, 3, 1]);
    let descending = BoostedSort::CreatedAt(SortDirection::Desc).sort(entries);
    let keys: Vec<u64> = descending.iter().map(|e| e.0).collect();
    assert_eq!(keys, vec![1, 3, 2]);
}

#[test]
fn groups_sort_by_name_case_insensitively() {
    let caller = pid(1);
    let entries = vec![
        (1u64, GroupWithMembers::from_post(post_group("banana"), caller.clone(), 1)),
        (2u64, GroupWithMembers::from_post(post_group("Apple"), caller.clone(), 2)),
        (3u64, GroupWithMembers::from_post(post_group("cherry"), caller, 3)),
    ];
    let sorted = GroupSort::Name(SortDirection::Asc).sort(entries);
    let names: Vec<&str> = sorted.iter().map(|e| e.1.metadata.name.as_str()).collect();
    assert_eq!(names, vec!["Apple", "banana", "cherry"]);
}

#[test]
fn friend_request_response_copies_the_request() {
    let request = FriendRequest::new(pid(1), pid(2), String::from("hi"), 77);
    let response = FriendRequestResponse::new(5, request);
    assert_eq!(response.id, 5);
    assert_eq!(response.message, "hi");
    assert_eq!(response.created_at, 77);
}

#[test]
fn topics_render_their_kind() {
    let topic = Topic::new(TopicKind::Skill, String::from("sailing"));
    assert_eq!(topic.kind.to_text(), "Skill");
    assert_eq!(topic.value, "sailing");
}

#[test]
fn date_range_bounds_are_inclusive() {
    let range = DateRange::new(10, 20);
    assert!(range.is_within(10));
    assert!(range.is_within(20));
    assert!(!range.is_within(9));
    assert!(!range.is_within(21));
    assert!(range.is_after_start_date(10));
    assert!(!range.is_after_start_date(9));
}

#[test]
fn error_enrichment_is_builder_style() {
    let err = ApiError::not_found().add_method_name("get").add_info("group").add_message(
        "Key does not exist",
    );
    assert_eq!(err.kind, ApiErrorKind::NotFound);
    assert_eq!(err.method_name.as_deref(), Some("get"));
    assert_eq!(err.info.as_deref(), Some("group"));
    assert_eq!(err.to_text(), "not_found: Key does not exist");
    assert_eq!(ApiError::unexpected().to_text(), "unexpected");
}

#[test]
fn the_anonymous_caller_is_turned_away() {
    let named = pid(4);
    assert!(is_not_anonymous(&named).is_ok());
    let anonymous = PrincipalId::anonymous();
    let message = is_not_anonymous(&anonymous).unwrap_err();
    assert_eq!(message, "unauthorized: Anonymous principal");
}
