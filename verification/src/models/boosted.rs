//! Boosts: paid promotion of a subject for a number of seconds.

use vstd::prelude::*;

use crate::assoc::{has_key_view, key_in_vec};
use crate::date_range::DateRange;
use crate::filter::Filter;
use crate::keys::StorageKey;
use crate::models::subject::{type_of, Subject, SubjectType};
use crate::principal::PrincipalId;
use crate::sort_direction::SortDirection;
use crate::sorter::{sort_entries, EntryOrder, Sorter};

verus! {

/// A boost: who promoted which subject, for how long, and the payment's
/// block height.
#[derive(Clone, Debug)]
pub struct Boost {
    pub subject: Subject,
    pub seconds: u64,
    pub owner: PrincipalId,
    pub blockheight: u64,
    pub notification_id: Option<u64>,
    pub created_at: u64,
    pub updated_at: u64,
}

impl Boost {
    /// A fresh boost created now.
    pub fn new(subject: Subject, seconds: u64, owner: PrincipalId, blockheight: u64, now: u64) -> (r:
        Self)
        ensures
            r == (Boost {
                subject,
                seconds,
                owner,
                blockheight,
                notification_id: None,
                created_at: now,
                updated_at: now,
            }),
    {
        Boost {
            subject,
            seconds,
            owner,
            blockheight,
            notification_id: None,
            created_at: now,
            updated_at: now,
        }
    }

    /// Replace the boost duration.
    pub fn update(&mut self, seconds: u64, now: u64)
        ensures
            *final(self) == (Boost { seconds, updated_at: now, ..*old(self) }),
    {
        self.seconds = seconds;
        self.updated_at = now;
    }

    /// Attach the notification that announced this boost.
    pub fn set_notification_id(&mut self, notification_id: u64)
        ensures
            *final(self) == (Boost { notification_id: Some(notification_id), ..*old(self) }),
    {
        self.notification_id = Some(notification_id);
    }

    /// Detach the notification.
    pub fn remove_notification_id(&mut self)
        ensures
            *final(self) == (Boost { notification_id: None, ..*old(self) }),
    {
        self.notification_id = None;
    }
}

/// Order over boosts.
#[derive(Clone, Debug)]
pub enum BoostedSort {
    CreatedAt(SortDirection),
    UpdatedAt(SortDirection),
}

impl Default for BoostedSort {
    /// The default order is by creation time, ascending.
    fn default() -> (r: Self)
        ensures
            r == BoostedSort::CreatedAt(SortDirection::Asc),
    {
        BoostedSort::CreatedAt(SortDirection::Asc)
    }
}

impl EntryOrder<u64, Boost> for BoostedSort {
    open spec fn le_spec(&self, a: &(u64, Boost), b: &(u64, Boost)) -> bool {
        match self {
            BoostedSort::CreatedAt(SortDirection::Asc) => a.1.created_at <= b.1.created_at,
            BoostedSort::CreatedAt(SortDirection::Desc) => b.1.created_at <= a.1.created_at,
            BoostedSort::UpdatedAt(SortDirection::Asc) => a.1.updated_at <= b.1.updated_at,
            BoostedSort::UpdatedAt(SortDirection::Desc) => b.1.updated_at <= a.1.updated_at,
        }
    }

    proof fn le_total(&self, a: &(u64, Boost), b: &(u64, Boost)) {
    }

    proof fn le_trans(&self, a: &(u64, Boost), b: &(u64, Boost), c: &(u64, Boost)) {
    }

    fn le(&self, a: &(u64, Boost), b: &(u64, Boost)) -> (r: bool) {
        match self {
            BoostedSort::CreatedAt(SortDirection::Asc) => a.1.created_at <= b.1.created_at,
            BoostedSort::CreatedAt(SortDirection::Desc) => b.1.created_at <= a.1.created_at,
            BoostedSort::UpdatedAt(SortDirection::Asc) => a.1.updated_at <= b.1.updated_at,
            BoostedSort::UpdatedAt(SortDirection::Desc) => b.1.updated_at <= a.1.updated_at,
        }
    }

}

impl Sorter<u64, Boost> for BoostedSort {
    fn sort(&self, entries: Vec<(u64, Boost)>) -> (r: Vec<(u64, Boost)>) {
        sort_entries(self, entries)
    }
}

/// Predicates over boosts. `Any` passes everything.
#[derive(Clone, Debug)]
pub enum BoostedFilter {
    Any,
    Ids(Vec<u64>),
    Subject(Subject),
    SubjectType(SubjectType),
    Owner(PrincipalId),
    UpdatedAt(DateRange),
    CreatedAt(DateRange),
}

impl Default for BoostedFilter {
    /// The default filter passes everything.
    fn default() -> (r: Self)
        ensures
            r is Any,
    {
        BoostedFilter::Any
    }
}

impl Filter<u64, Boost> for BoostedFilter {
    open spec fn matches_spec(&self, id: &u64, boosted: &Boost) -> bool {
        match self {
            BoostedFilter::Any => true,
            BoostedFilter::Ids(ids) => has_key_view(ids@, id@),
            BoostedFilter::Subject(subject) => subject@ == boosted.subject@,
            BoostedFilter::SubjectType(subject_type) => *subject_type == type_of(
                boosted.subject@,
            ),
            BoostedFilter::Owner(owner) => owner@ == boosted.owner@,
            BoostedFilter::UpdatedAt(date) => date.within_spec(boosted.updated_at),
            BoostedFilter::CreatedAt(date) => date.within_spec(boosted.created_at),
        }
    }

    fn matches(&self, id: &u64, boosted: &Boost) -> (r: bool) {
        match self {
            BoostedFilter::Any => true,
            BoostedFilter::Ids(ids) => key_in_vec(ids, id),
            BoostedFilter::Subject(subject) => subject.key_eq(&boosted.subject),
            BoostedFilter::SubjectType(subject_type) => *subject_type
                == boosted.subject.get_type(),
            BoostedFilter::Owner(owner) => owner.eq_principal(&boosted.owner),
            BoostedFilter::UpdatedAt(date) => date.is_within(boosted.updated_at),
            BoostedFilter::CreatedAt(date) => date.is_within(boosted.created_at),
        }
    }
}

} // verus!
