//! Notifications: typed announcements delivered to profiles.

use vstd::prelude::*;

use crate::assoc::{has_key_view, key_in_vec};
use crate::filter::Filter;
use crate::models::friend_request::FriendRequestResponse;
use crate::models::responses::{InviteAttendeeResponse, InviteMemberResponse,
    JoinedAttendeeResponse, JoinedMemberResponse, TransactionCompleteData, TransactionData,
    UserNotificationData};
use crate::principal::PrincipalId;
use crate::sort_direction::SortDirection;
use crate::sorter::{sort_entries, EntryOrder, Sorter};

verus! {

/// What a relation notification announces.
#[derive(Clone, Debug)]
pub enum RelationNotificationType {
    FriendRequest(FriendRequestResponse),
    FriendRequestAccept(FriendRequestResponse),
    FriendRequestDecline(FriendRequestResponse),
    FriendRequestRemove(u64),
    FriendRemove(PrincipalId),
    BlockUser(PrincipalId),
    FriendRequestReminder(u64),
}

/// What a group notification announces.
#[derive(Clone, Debug)]
pub enum GroupNotificationType {
    JoinGroupUserRequest(InviteMemberResponse),
    JoinGroupUserRequestAccept(InviteMemberResponse),
    JoinGroupUserRequestDecline(InviteMemberResponse),
    JoinGroupOwnerRequest(InviteMemberResponse),
    JoinGroupOwnerRequestAccept(InviteMemberResponse),
    JoinGroupOwnerRequestDecline(InviteMemberResponse),
    RoleAssignByOwner(JoinedMemberResponse),
    RemoveInviteByOwner(InviteMemberResponse),
    RemoveMemberByOwner(JoinedMemberResponse),
    UserLeaveGroup(u64),
    UserJoinGroup(u64),
    GroupReminder(u64),
}

/// What an event notification announces.
#[derive(Clone, Debug)]
pub enum EventNotificationType {
    JoinEventUserRequest(InviteAttendeeResponse),
    JoinEventUserRequestAccept(InviteAttendeeResponse),
    JoinEventUserRequestDecline(InviteAttendeeResponse),
    JoinEventOwnerRequest(InviteAttendeeResponse),
    JoinEventOwnerRequestAccept(InviteAttendeeResponse),
    JoinEventOwnerRequestDecline(InviteAttendeeResponse),
    RoleAssignByOwner(JoinedAttendeeResponse),
    RemoveInviteByOwner(InviteAttendeeResponse),
    RemoveAttendeeByOwner(JoinedAttendeeResponse),
    UserJoinEvent(u64, u64),
    UserLeaveEvent(u64, u64),
    EventReminder(u64),
}

/// What a transaction notification announces.
#[derive(Clone, Debug)]
pub enum TransactionNotificationType {
    SingleTransaction(TransactionData),
    TransactionsComplete(TransactionCompleteData),
}

/// What a multisig notification announces.
#[derive(Clone, Debug)]
pub enum MultisigNotificationType {
    WhitelistNotice(PrincipalId, u64),
    NewProposal(PrincipalId, u64, u64),
    ProposalAccept(PrincipalId, u64, u64),
    ProposalDecline(PrincipalId, u64, u64),
    ProposalStatusUpdate(PrincipalId, u64, u64),
}

/// The class of a notification, with its payload.
#[derive(Clone, Debug)]
pub enum NotificationType {
    Relation(RelationNotificationType),
    Group(GroupNotificationType),
    Event(EventNotificationType),
    Transaction(TransactionNotificationType),
    Multisig(MultisigNotificationType),
}

/// Whether two notification types belong to the same class.
pub open spec fn same_type_class(a: &NotificationType, b: &NotificationType) -> bool {
    match (a, b) {
        (NotificationType::Relation(_), NotificationType::Relation(_)) => true,
        (NotificationType::Group(_), NotificationType::Group(_)) => true,
        (NotificationType::Event(_), NotificationType::Event(_)) => true,
        (NotificationType::Transaction(_), NotificationType::Transaction(_)) => true,
        (NotificationType::Multisig(_), NotificationType::Multisig(_)) => true,
        _ => false,
    }
}

/// A notification: its typed payload, whether the receiver can still act
/// on it, and who processed it.
#[derive(Clone, Debug)]
pub struct Notification {
    pub notification_type: NotificationType,
    pub is_actionable: bool,
    pub processed_by: Option<PrincipalId>,
    pub is_accepted: Option<bool>,
    pub metadata: Option<String>,
    pub sender: PrincipalId,
    pub created_at: u64,
    pub updated_at: u64,
}

impl Notification {
    /// A fresh notification from `sender`.
    pub fn new(notification_type: NotificationType, is_actionable: bool, sender: PrincipalId, now: u64) -> (r:
        Self)
        ensures
            r == (Notification {
                notification_type,
                is_actionable,
                processed_by: None,
                is_accepted: None,
                metadata: None,
                sender,
                created_at: now,
                updated_at: now,
            }),
    {
        Notification {
            notification_type,
            is_actionable,
            processed_by: None,
            is_accepted: None,
            metadata: None,
            sender,
            created_at: now,
            updated_at: now,
        }
    }

    /// Record the processing decision: accepted or declined by
    /// `processed_by`, no longer actionable, with the payload replaced.
    pub fn mark_as_accepted(
        &mut self,
        is_accepted: bool,
        notification_type: NotificationType,
        processed_by: PrincipalId,
        now: u64,
    )
        ensures
            *final(self) == (Notification {
                notification_type,
                is_actionable: false,
                processed_by: Some(processed_by),
                is_accepted: Some(is_accepted),
                updated_at: now,
                ..*old(self)
            }),
    {
        self.is_accepted = Some(is_accepted);
        self.is_actionable = false;
        self.processed_by = Some(processed_by);
        self.updated_at = now;
        self.notification_type = notification_type;
    }

    /// Replace the free-form payload.
    pub fn set_metadata(&mut self, metadata: String, now: u64)
        ensures
            *final(self) == (Notification {
                metadata: Some(metadata),
                updated_at: now,
                ..*old(self)
            }),
    {
        self.metadata = Some(metadata);
        self.updated_at = now;
    }

    /// Replace the actionable flag.
    pub fn set_is_actionable(&mut self, is_actionable: bool, now: u64)
        ensures
            *final(self) == (Notification { is_actionable, updated_at: now, ..*old(self) }),
    {
        self.is_actionable = is_actionable;
        self.updated_at = now;
    }
}

/// Order over notifications.
#[derive(Clone, Debug)]
pub enum NotificationSort {
    CreatedOn(SortDirection),
    UpdatedOn(SortDirection),
}

impl Default for NotificationSort {
    /// The default order is by creation time, ascending.
    fn default() -> (r: Self)
        ensures
            r == NotificationSort::CreatedOn(SortDirection::Asc),
    {
        NotificationSort::CreatedOn(SortDirection::Asc)
    }
}

impl EntryOrder<u64, Notification> for NotificationSort {
    open spec fn le_spec(&self, a: &(u64, Notification), b: &(u64, Notification)) -> bool {
        match self {
            NotificationSort::CreatedOn(SortDirection::Asc) => a.1.created_at <= b.1.created_at,
            NotificationSort::CreatedOn(SortDirection::Desc) => b.1.created_at <= a.1.created_at,
            NotificationSort::UpdatedOn(SortDirection::Asc) => a.1.updated_at <= b.1.updated_at,
            NotificationSort::UpdatedOn(SortDirection::Desc) => b.1.updated_at <= a.1.updated_at,
        }
    }

    proof fn le_total(&self, a: &(u64, Notification), b: &(u64, Notification)) {
    }

    proof fn le_trans(
        &self,
        a: &(u64, Notification),
        b: &(u64, Notification),
        c: &(u64, Notification),
    ) {
    }

    fn le(&self, a: &(u64, Notification), b: &(u64, Notification)) -> (r: bool) {
        match self {
            NotificationSort::CreatedOn(SortDirection::Asc) => a.1.created_at <= b.1.created_at,
            NotificationSort::CreatedOn(SortDirection::Desc) => b.1.created_at <= a.1.created_at,
            NotificationSort::UpdatedOn(SortDirection::Asc) => a.1.updated_at <= b.1.updated_at,
            NotificationSort::UpdatedOn(SortDirection::Desc) => b.1.updated_at <= a.1.updated_at,
        }
    }
}

impl Sorter<u64, Notification> for NotificationSort {
    fn sort(&self, entries: Vec<(u64, Notification)>) -> (r: Vec<(u64, Notification)>) {
        sort_entries(self, entries)
    }
}

/// Predicates over notifications. `Any` passes everything; `Type` passes
/// the notifications of the same class as its payload.
#[derive(Clone, Debug)]
pub enum NotificationFilter {
    Any,
    Ids(Vec<u64>),
    Type(NotificationType),
    Actionable(bool),
    ProcessedBy(PrincipalId),
    Sender(PrincipalId),
}

impl Default for NotificationFilter {
    /// The default filter passes everything.
    fn default() -> (r: Self)
        ensures
            r is Any,
    {
        NotificationFilter::Any
    }
}

impl Filter<u64, Notification> for NotificationFilter {
    open spec fn matches_spec(&self, id: &u64, notification: &Notification) -> bool {
        match self {
            NotificationFilter::Any => true,
            NotificationFilter::Ids(ids) => has_key_view(ids@, id@),
            NotificationFilter::Type(filter) => same_type_class(
                filter,
                &notification.notification_type,
            ),
            NotificationFilter::Actionable(actionable) => notification.is_actionable
                == *actionable,
            NotificationFilter::ProcessedBy(processed_by) => {
                notification.processed_by matches Some(p) && p@ == processed_by@
            },
            NotificationFilter::Sender(sender) => notification.sender@ == sender@,
        }
    }

    fn matches(&self, id: &u64, notification: &Notification) -> (r: bool) {
        match self {
            NotificationFilter::Any => true,
            NotificationFilter::Ids(ids) => key_in_vec(ids, id),
            NotificationFilter::Type(filter) => {
                match (filter, &notification.notification_type) {
                    (NotificationType::Relation(_), NotificationType::Relation(_)) => true,
                    (NotificationType::Group(_), NotificationType::Group(_)) => true,
                    (NotificationType::Event(_), NotificationType::Event(_)) => true,
                    (NotificationType::Transaction(_), NotificationType::Transaction(_)) => true,
                    (NotificationType::Multisig(_), NotificationType::Multisig(_)) => true,
                    _ => false,
                }
            },
            NotificationFilter::Actionable(actionable) => notification.is_actionable
                == *actionable,
            NotificationFilter::ProcessedBy(processed_by) => {
                match &notification.processed_by {
                    Some(p) => p.eq_principal(processed_by),
                    None => false,
                }
            },
            NotificationFilter::Sender(sender) => notification.sender.eq_principal(sender),
        }
    }
}

/// A notification as returned to callers, with its key and the caller's
/// per-user state.
#[derive(Clone, Debug)]
pub struct NotificationResponse {
    pub id: Option<u64>,
    pub notification: Notification,
    pub user_data: Option<UserNotificationData>,
}

impl NotificationResponse {
    /// The response for a stored notification.
    pub fn new(
        id: Option<u64>,
        notification: Notification,
        user_data: Option<UserNotificationData>,
    ) -> (r: Self)
        ensures
            r == (NotificationResponse { id, notification, user_data }),
    {
        NotificationResponse { id, notification, user_data }
    }
}

} // verus!
