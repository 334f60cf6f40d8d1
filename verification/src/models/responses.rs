//! Response payloads describing members, attendees, notifications and
//! transactions, as they cross the process boundary.

use vstd::prelude::*;

use crate::models::member::Invite;
use crate::models::support::InviteType;
use crate::principal::PrincipalId;

verus! {

/// A joined group member, with the roles held.
#[derive(Clone, Debug)]
pub struct JoinedMemberResponse {
    pub group_id: u64,
    pub principal: PrincipalId,
    pub roles: Vec<String>,
}

/// An invited group member, with the pending invite.
#[derive(Clone, Debug)]
pub struct InviteMemberResponse {
    pub group_id: u64,
    pub principal: PrincipalId,
    pub invite: Invite,
}

/// A joined event attendee.
#[derive(Clone, Debug)]
pub struct JoinedAttendeeResponse {
    pub event_id: u64,
    pub principal: PrincipalId,
}

/// An invited event attendee.
#[derive(Clone, Debug)]
pub struct InviteAttendeeResponse {
    pub event_id: u64,
    pub principal: PrincipalId,
    pub invite_type: InviteType,
}

/// One transfer announced by a transaction notification.
#[derive(Clone, Debug)]
pub struct TransactionData {
    pub sender: PrincipalId,
    pub receiver: PrincipalId,
    pub amount: u64,
    pub block_height: u64,
}

/// The summary announced when a batch of transfers completes.
#[derive(Clone, Debug)]
pub struct TransactionCompleteData {
    pub sender: PrincipalId,
    pub total_amount: u64,
}

/// Per-user state of one notification.
#[derive(Clone, Copy, Debug, PartialEq, Eq, Structural)]
pub struct UserNotificationData {
    pub is_read: bool,
    pub is_sender: bool,
}

/// The notifications a profile keeps, each with its per-user state.
#[derive(Clone, Debug)]
pub struct UserNotifications {
    pub entries: Vec<(u64, UserNotificationData)>,
}

impl UserNotifications {
    /// No notifications yet.
    pub fn new() -> (r: Self)
        ensures
            r.entries@.len() == 0,
    {
        UserNotifications { entries: Vec::new() }
    }
}

} // verus!
