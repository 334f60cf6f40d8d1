//! Friend requests between profiles.

use vstd::prelude::*;

use crate::filter::Filter;
use crate::principal::PrincipalId;
use crate::sort_direction::SortDirection;
use crate::sorter::{sort_entries, EntryOrder, Sorter};

verus! {

/// A pending friend request.
#[derive(Clone, Debug)]
pub struct FriendRequest {
    pub requested_by: PrincipalId,
    pub message: String,
    pub to: PrincipalId,
    pub notification_id: Option<u64>,
    pub created_at: u64,
}

impl FriendRequest {
    /// A fresh request from `requested_by` to `to`.
    pub fn new(requested_by: PrincipalId, to: PrincipalId, message: String, now: u64) -> (r: Self)
        ensures
            r == (FriendRequest { requested_by, message, to, notification_id: None, created_at: now }),
    {
        FriendRequest { requested_by, message, to, notification_id: None, created_at: now }
    }

    /// Attach the notification that announced this request.
    pub fn set_notification_id(&mut self, notification_id: u64)
        ensures
            *final(self) == (FriendRequest {
                notification_id: Some(notification_id),
                ..*old(self)
            }),
    {
        self.notification_id = Some(notification_id);
    }

    /// Detach the notification.
    pub fn remove_notification_id(&mut self)
        ensures
            *final(self) == (FriendRequest { notification_id: None, ..*old(self) }),
    {
        self.notification_id = None;
    }
}

/// Order over friend requests.
#[derive(Clone, Debug)]
pub enum FriendRequestSort {
    CreatedAt(SortDirection),
}

impl Default for FriendRequestSort {
    /// The default order is by creation time, ascending.
    fn default() -> (r: Self)
        ensures
            r == FriendRequestSort::CreatedAt(SortDirection::Asc),
    {
        FriendRequestSort::CreatedAt(SortDirection::Asc)
    }
}

impl EntryOrder<u64, FriendRequest> for FriendRequestSort {
    open spec fn le_spec(&self, a: &(u64, FriendRequest), b: &(u64, FriendRequest)) -> bool {
        match self {
            FriendRequestSort::CreatedAt(SortDirection::Asc) => a.1.created_at <= b.1.created_at,
            FriendRequestSort::CreatedAt(SortDirection::Desc) => b.1.created_at <= a.1.created_at,
        }
    }

    proof fn le_total(&self, a: &(u64, FriendRequest), b: &(u64, FriendRequest)) {
    }

    proof fn le_trans(
        &self,
        a: &(u64, FriendRequest),
        b: &(u64, FriendRequest),
        c: &(u64, FriendRequest),
    ) {
    }

    fn le(&self, a: &(u64, FriendRequest), b: &(u64, FriendRequest)) -> (r: bool) {
        match self {
            FriendRequestSort::CreatedAt(SortDirection::Asc) => a.1.created_at <= b.1.created_at,
            FriendRequestSort::CreatedAt(SortDirection::Desc) => b.1.created_at <= a.1.created_at,
        }
    }

}

impl Sorter<u64, FriendRequest> for FriendRequestSort {
    fn sort(&self, entries: Vec<(u64, FriendRequest)>) -> (r: Vec<(u64, FriendRequest)>) {
        sort_entries(self, entries)
    }
}

/// Predicates over friend requests.
#[derive(Clone, Debug)]
pub enum FriendRequestFilter {
    Requestor(PrincipalId),
    Recipient(PrincipalId),
}

impl Filter<u64, FriendRequest> for FriendRequestFilter {
    open spec fn matches_spec(&self, key: &u64, request: &FriendRequest) -> bool {
        match self {
            FriendRequestFilter::Requestor(requestor) => request.requested_by@ == requestor@,
            FriendRequestFilter::Recipient(recipient) => request.to@ == recipient@,
        }
    }

    fn matches(&self, key: &u64, request: &FriendRequest) -> (r: bool) {
        match self {
            FriendRequestFilter::Requestor(requestor) => request.requested_by.eq_principal(
                requestor,
            ),
            FriendRequestFilter::Recipient(recipient) => request.to.eq_principal(recipient),
        }
    }
}

/// A friend request as returned to callers, with its key inlined.
#[derive(Clone, Debug)]
pub struct FriendRequestResponse {
    pub id: u64,
    pub requested_by: PrincipalId,
    pub message: String,
    pub to: PrincipalId,
    pub created_at: u64,
}

impl FriendRequestResponse {
    /// The response for a stored friend request.
    pub fn new(id: u64, friend_request: FriendRequest) -> (r: Self)
        ensures
            r == (FriendRequestResponse {
                id,
                requested_by: friend_request.requested_by,
                message: friend_request.message,
                to: friend_request.to,
                created_at: friend_request.created_at,
            }),
    {
        FriendRequestResponse {
            id,
            requested_by: friend_request.requested_by,
            message: friend_request.message,
            to: friend_request.to,
            created_at: friend_request.created_at,
        }
    }
}

} // verus!
