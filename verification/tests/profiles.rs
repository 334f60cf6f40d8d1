//! Profiles: reference lists, referrals, updates, notifications and the
//! page envelope.

use canister_storage::models::notification::{
    Notification, NotificationFilter, NotificationType, RelationNotificationType,
};
use canister_storage::filter::Filter;
use canister_storage::models::profile_with_refs::{PostProfile, ProfileResponse, ProfileWithRefs,
    UpdateProfile};
use canister_storage::models::subject::Subject;
use canister_storage::models::support::{Asset, Privacy};
use canister_storage::paged::PagedResponse;
use canister_storage::principal::PrincipalId;

fn pid(tag: u8) -> PrincipalId {
    PrincipalId::from_bytes(vec![tag])
}

fn post_profile(username: &str) -> PostProfile {
    PostProfile {
        username: String::from(username),
        display_name: String::from(username),
        first_name: String::new(),
        last_name: String::new(),
        privacy: Privacy::default(),
        extra: String::new(),
        referrer: None,
    }
}

#[test]
fn profile_tracks_groups_events_and_subjects() {
    let mut profile = ProfileWithRefs::from_post(post_profile("alice"), 10);
    profile.add_group(1);
    profile.add_group(2);
    assert!(profile.is_group_member(1));
    assert_eq!(profile.get_group_ids(), vec![1, 2]);
    profile.remove_group(1);
    assert!(!profile.is_group_member(1));

    profile.add_event(7);
    assert!(profile.is_event_attendee(7));
    assert_eq!(profile.get_event_ids(), vec![7]);
    profile.remove_event(7);
    assert!(!profile.is_event_attendee(7));

    let starred = Subject::Group(2);
    profile.references.starred.push(starred.clone());
    assert!(profile.is_starred(&starred));
    assert!(!profile.is_pinned(&starred));
    profile.remove_starred(&starred);
    assert!(!profile.is_starred(&starred));
}

#[test]
fn referrals_expire_after_a_week() {
    let week: u64 = 604800000000000;
    let mut profile = ProfileWithRefs::from_post(post_profile("alice"), 10);
    let friend = pid(2);
    assert!(!profile.is_referral_exists(friend.clone()));
    profile.add_referral(friend.clone(), 1000);
    assert!(profile.is_referral_exists(friend.clone()));
    assert!(!profile.is_referral_expired(friend.clone(), 1000 + week));
    assert!(profile.is_referral_expired(friend.clone(), 1001 + week));
    profile.remove_referral(friend.clone());
    assert!(!profile.is_referral_exists(friend));
}

#[test]
fn profile_update_keeps_username_and_creation_time() {
    let profile = ProfileWithRefs::from_post(post_profile("alice"), 10);
    let updated = profile.update(
        UpdateProfile {
            display_name: String::from("Alice A."),
            first_name: String::from("Alice"),
            last_name: String::from("Anders"),
            privacy: Privacy::default(),
            about: String::from("hi"),
            email: None,
            date_of_birth: 5,
            city: String::new(),
            state_or_province: String::new(),
            country: String::new(),
            profile_image: Asset::Unset,
            banner_image: Asset::Unset,
            skills: vec![],
            interests: vec![],
            causes: vec![],
            website: String::new(),
            extra: Some(String::from("x")),
        },
        99,
    );
    assert_eq!(updated.metadata.username, "alice");
    assert_eq!(updated.metadata.display_name, "Alice A.");
    assert_eq!(updated.metadata.email, "");
    assert_eq!(updated.created_on, 10);
    assert_eq!(updated.updated_on, 99);
}

#[test]
fn profile_response_flattens_the_record() {
    let profile = ProfileWithRefs::from_post(post_profile("alice"), 10);
    let response = ProfileResponse::new(pid(1), profile);
    assert_eq!(response.username, "alice");
    assert_eq!(response.created_on, 10);
    assert!(response.wallets.is_empty());
    let ok = response.to_result().unwrap();
    assert_eq!(ok.username, "alice");
}

#[test]
fn notifications_record_their_processing() {
    let sender = pid(3);
    let processed_by = pid(4);
    let payload = NotificationType::Relation(RelationNotificationType::FriendRemove(pid(5)));
    let mut notification = Notification::new(payload, true, sender, 50);
    assert!(notification.is_actionable);
    assert!(notification.processed_by.is_none());

    let replacement = NotificationType::Relation(RelationNotificationType::FriendRemove(pid(5)));
    notification.mark_as_accepted(true, replacement, processed_by, 60);
    assert!(!notification.is_actionable);
    assert_eq!(notification.is_accepted, Some(true));
    assert_eq!(notification.updated_at, 60);
    assert_eq!(notification.created_at, 50);

    notification.set_metadata(String::from("extra"), 70);
    assert_eq!(notification.metadata.as_deref(), Some("extra"));

    // a type filter passes notifications of the same class only
    let type_filter = NotificationFilter::Type(NotificationType::Relation(
        RelationNotificationType::FriendRequestReminder(1),
    ));
    assert!(type_filter.matches(&1, &notification));
    let other_filter = NotificationFilter::Type(NotificationType::Group(
        canister_storage::models::notification::GroupNotificationType::GroupReminder(1),
    ));
    assert!(!other_filter.matches(&1, &notification));
}

#[test]
fn page_envelope_reports_remaining_pages() {
    let page: PagedResponse<u64> = PagedResponse::new(0, 10, 25, vec![1, 2, 3]);
    assert!(page.has_next());
    let page: PagedResponse<u64> = PagedResponse::new(1, 10, 25, vec![]);
    assert!(page.has_next());
    let page: PagedResponse<u64> = PagedResponse::new(2, 10, 25, vec![]);
    assert!(!page.has_next());
    let page: PagedResponse<u64> = PagedResponse::new(0, 10, 10, vec![]);
    assert!(!page.has_next());
}
