//! Events, with their attendee rosters inlined.

use vstd::prelude::*;

use crate::assoc::{assoc_get, assoc_insert, assoc_keys, assoc_remove, has_key_view,
    key_in_vec};
use crate::date_range::DateRange;
use crate::entry_map::map_of;
use crate::filter::Filter;
use crate::keys::StorageKey;
use crate::models::boosted::Boost;
use crate::models::member::{Invite, Join};
use crate::models::members::Members;
use crate::models::role::{admin_role, member_role, moderator_role, owner_role};
use crate::models::support::{relation_text, Asset, InviteType, Location, Metadata, Privacy,
    PrivacyType, References, RelationType};
use crate::principal::PrincipalId;
use crate::sort_direction::SortDirection;
use crate::sorter::{sort_entries, EntryOrder, Sorter};
use crate::text::{contains_ci, contains_seq, lower_of};

verus! {

/// An event: descriptive metadata, dates, visibility, ownership and the
/// attendee rosters.
#[derive(Clone, Debug)]
pub struct EventWithAttendees {
    pub metadata: Metadata,
    pub dates: Vec<DateRange>,
    pub privacy: Privacy,
    pub group_id: Option<u64>,
    pub created_by: PrincipalId,
    pub owner: PrincipalId,
    pub references: References,
    pub is_canceled: Option<String>,
    pub is_deleted: bool,
    pub attendees: Members,
    pub updated_on: u64,
    pub created_on: u64,
}

/// The earliest start among the date ranges (meaningful when nonempty).
pub open spec fn min_start(dates: Seq<DateRange>) -> u64
    decreases dates.len(),
{
    if dates.len() == 0 {
        0u64
    } else {
        let rest = min_start(dates.drop_last());
        if dates.len() == 1 || dates.last().start < rest {
            dates.last().start
        } else {
            rest
        }
    }
}

/// The latest end among the date ranges (0 when empty).
pub open spec fn max_end(dates: Seq<DateRange>) -> u64
    decreases dates.len(),
{
    if dates.len() == 0 {
        0u64
    } else {
        let rest = max_end(dates.drop_last());
        if dates.last().end > rest {
            dates.last().end
        } else {
            rest
        }
    }
}

/// The start an event sorts and filters by: the earliest start of its
/// dates, or 0 when it has none.
pub open spec fn event_start(e: &EventWithAttendees) -> u64 {
    if e.dates@.len() == 0 {
        0u64
    } else {
        min_start(e.dates@)
    }
}

/// The end an event sorts and filters by: the latest end of its dates, or
/// 0 when it has none.
pub open spec fn event_end(e: &EventWithAttendees) -> u64 {
    max_end(e.dates@)
}

/// The input for creating an event.
#[derive(Clone, Debug)]
pub struct PostEvent {
    pub name: String,
    pub description: String,
    pub date: DateRange,
    pub privacy: PrivacyType,
    pub website: String,
    pub location: Location,
    pub image: Asset,
    pub banner_image: Asset,
    pub group_id: Option<u64>,
    pub metadata: Option<String>,
    pub tags: Vec<u32>,
}

/// The input for updating an event.
#[derive(Clone, Debug)]
pub struct UpdateEvent {
    pub name: String,
    pub description: String,
    pub date: DateRange,
    pub privacy: PrivacyType,
    pub website: String,
    pub location: Location,
    pub image: Asset,
    pub owner: PrincipalId,
    pub banner_image: Asset,
    pub metadata: Option<String>,
    pub tags: Vec<u32>,
}

impl EventWithAttendees {
    /// Each roster maps an identity at most once.
    pub open spec fn wf(&self) -> bool {
        self.attendees.wf()
    }

    /// The event a creation input describes, owned and created by the
    /// caller, stamped with the current time.
    pub fn from_post(event: PostEvent, caller: PrincipalId, now: u64) -> (r: Self)
        ensures
            r.wf(),
            r.metadata == (Metadata {
                name: event.name,
                description: event.description,
                website: event.website,
                location: event.location,
                image: event.image,
                banner_image: event.banner_image,
            }),
            r.dates@ == seq![event.date],
            r.privacy == (Privacy {
                privacy_type: event.privacy,
                privacy_gated_type_amount: None,
            }),
            r.group_id == event.group_id,
            r.created_by@ == caller@,
            r.owner@ == caller@,
            r.references.notification_id is None && r.references.tags@.len() == 0,
            r.is_canceled is None,
            !r.is_deleted,
            r.attendees.members@.len() == 1 && r.attendees.members@[0].0@ == caller@,
            r.attendees.members@[0].1.roles@.len() == 1 && r.attendees.members@[0].1.roles@[0]@
                == owner_role(),
            r.updated_on == now,
            r.created_on == now,
    {
        let owner = caller.clone();
        let created_by = caller.clone();
        let mut dates: Vec<DateRange> = Vec::new();
        dates.push(event.date);
        proof {
            assert(dates@ =~= seq![event.date]);
        }
        EventWithAttendees {
            metadata: Metadata {
                name: event.name,
                description: event.description,
                website: event.website,
                location: event.location,
                image: event.image,
                banner_image: event.banner_image,
            },
            dates,
            privacy: Privacy { privacy_type: event.privacy, privacy_gated_type_amount: None },
            group_id: event.group_id,
            created_by,
            owner,
            references: References::default(),
            is_canceled: None,
            is_deleted: false,
            attendees: Members::new_with_owner(caller, now),
            updated_on: now,
            created_on: now,
        }
    }

    /// Apply an update input: descriptive fields, visibility and tags are
    /// replaced, everything else is kept.
    pub fn update(&mut self, event: UpdateEvent, now: u64)
        ensures
            *final(self) == (EventWithAttendees {
                metadata: Metadata {
                    name: event.name,
                    description: event.description,
                    website: event.website,
                    location: event.location,
                    image: event.image,
                    banner_image: event.banner_image,
                },
                privacy: Privacy {
                    privacy_type: event.privacy,
                    privacy_gated_type_amount: old(self).privacy.privacy_gated_type_amount,
                },
                references: References {
                    notification_id: old(self).references.notification_id,
                    tags: event.tags,
                },
                updated_on: now,
                ..*old(self)
            }),
    {
        self.metadata = Metadata {
            name: event.name,
            description: event.description,
            website: event.website,
            location: event.location,
            image: event.image,
            banner_image: event.banner_image,
        };
        self.privacy = Privacy {
            privacy_type: event.privacy,
            privacy_gated_type_amount: self.privacy.privacy_gated_type_amount,
        };
        self.references = References {
            notification_id: self.references.notification_id,
            tags: event.tags,
        };
        self.updated_on = now;
    }

    /// The span from the earliest start to the latest end of the event's
    /// dates; for an event without dates, the single point `now`.
    pub fn get_total_date_range(&self, now: u64) -> (r: DateRange)
        ensures
            self.dates@.len() == 0 ==> r == (DateRange { start: now, end: now }),
            self.dates@.len() > 0 ==> r == (DateRange {
                start: min_start(self.dates@),
                end: max_end(self.dates@),
            }),
    {
        if self.dates.len() == 0 {
            return DateRange::new(now, now);
        }
        let start = self.start_key();
        let end = self.end_key();
        DateRange::new(start, end)
    }

    /// The earliest start of the event's dates, or 0 when it has none.
    pub fn start_key(&self) -> (r: u64)
        ensures
            r == event_start(self),
    {
        let n = self.dates.len();
        if n == 0 {
            return 0;
        }
        let mut best: u64 = self.dates[0].start_date();
        proof {
            assert(self.dates@.subrange(0, 1).drop_last() =~= self.dates@.subrange(0, 0));
            assert(best == min_start(self.dates@.subrange(0, 1)));
        }
        let mut i: usize = 1;
        while i < n
            invariant
                n == self.dates@.len(),
                1 <= i <= n,
                best == min_start(self.dates@.subrange(0, i as int)),
            decreases n - i,
        {
            proof {
                assert(self.dates@.subrange(0, i + 1 as int).drop_last() =~= self.dates@.subrange(
                    0,
                    i as int,
                ));
                assert(self.dates@.subrange(0, i + 1 as int).last() == self.dates@[i as int]);
            }
            if self.dates[i].start_date() < best {
                best = self.dates[i].start_date();
            }
            i += 1;
        }
        proof {
            assert(self.dates@.subrange(0, n as int) =~= self.dates@);
        }
        best
    }

    /// The latest end of the event's dates, or 0 when it has none.
    pub fn end_key(&self) -> (r: u64)
        ensures
            r == event_end(self),
    {
        let n = self.dates.len();
        let mut best: u64 = 0;
        let mut i: usize = 0;
        while i < n
            invariant
                n == self.dates@.len(),
                i <= n,
                best == max_end(self.dates@.subrange(0, i as int)),
            decreases n - i,
        {
            proof {
                assert(self.dates@.subrange(0, i + 1 as int).drop_last() =~= self.dates@.subrange(
                    0,
                    i as int,
                ));
                assert(self.dates@.subrange(0, i + 1 as int).last() == self.dates@[i as int]);
            }
            if self.dates[i].end_date() > best {
                best = self.dates[i].end_date();
            }
            i += 1;
        }
        proof {
            assert(self.dates@.subrange(0, n as int) =~= self.dates@);
        }
        best
    }

    /// Make `owner` the owner, in the owner field and in the roster.
    pub fn set_owner(&mut self, owner: PrincipalId, now: u64)
        requires
            old(self).wf(),
        ensures
            final(self).wf(),
            final(self).owner@ == owner@,
            *final(self) == (EventWithAttendees {
                owner: final(self).owner,
                attendees: final(self).attendees,
                ..*old(self)
            }),
            final(self).attendees.members@.len() == old(self).attendees.members@.len(),
            forall|i: int|
                0 <= i < old(self).attendees.members@.len()
                    ==> #[trigger] final(self).attendees.members@[i].0 == old(
                    self,
                ).attendees.members@[i].0,
    {
        self.owner = owner.clone();
        self.attendees.set_owner(owner, now);
    }

    /// Mark the event deleted.
    pub fn delete(&mut self, now: u64)
        ensures
            *final(self) == (EventWithAttendees {
                is_deleted: true,
                updated_on: now,
                ..*old(self)
            }),
    {
        self.is_deleted = true;
        self.updated_on = now;
    }

    /// The identities of every attendee.
    pub fn get_members(&self) -> (r: Vec<PrincipalId>)
        ensures
            r@.len() == self.attendees.members@.len(),
            forall|i: int| 0 <= i < r@.len() ==> r@[i]@ == self.attendees.members@[i].0@,
    {
        assoc_keys(&self.attendees.members)
    }

    /// Drop an attendee; an absent one is a no-op.
    pub fn remove_attendee(&mut self, member: PrincipalId)
        requires
            old(self).wf(),
        ensures
            final(self).wf(),
            map_of(final(self).attendees.members@) == map_of(old(self).attendees.members@).remove(
                member@,
            ),
            final(self).attendees == (Members {
                members: final(self).attendees.members,
                ..old(self).attendees
            }),
            *final(self) == (EventWithAttendees { attendees: final(self).attendees, ..*old(self) }),
    {
        assoc_remove(&mut self.attendees.members, &member);
    }

    /// Add an attendee with the plain member role.
    pub fn add_attendee(&mut self, member: PrincipalId, now: u64)
        requires
            old(self).wf(),
        ensures
            final(self).wf(),
            ({
                let m = map_of(final(self).attendees.members@);
                &&& m.contains_key(member@)
                &&& m == map_of(old(self).attendees.members@).insert(member@, m[member@])
                &&& m[member@].roles@.len() == 1 && m[member@].roles@[0]@ == member_role()
            }),
            final(self).attendees == (Members {
                members: final(self).attendees.members,
                ..old(self).attendees
            }),
            *final(self) == (EventWithAttendees { attendees: final(self).attendees, ..*old(self) }),
    {
        let join = Join::new(now);
        assoc_insert(&mut self.attendees.members, member, join);
        proof {
            let m = map_of(self.attendees.members@);
            assert(m =~= map_of(old(self).attendees.members@).insert(member@, m[member@]));
        }
    }

    /// Assign an assignable role (admin, moderator or member) to an
    /// attendee; an absent attendee, or a name that is not assignable
    /// (notably the owner role), leaves the roster's roles unchanged.
    pub fn set_attendee_role(&mut self, member: PrincipalId, role: String, now: u64)
        requires
            old(self).wf(),
        ensures
            final(self).wf(),
            final(self).attendees == (Members {
                members: final(self).attendees.members,
                ..old(self).attendees
            }),
            *final(self) == (EventWithAttendees { attendees: final(self).attendees, ..*old(self) }),
            ({
                let pre = map_of(old(self).attendees.members@);
                let post = map_of(final(self).attendees.members@);
                if pre.contains_key(member@) {
                    let assignable = role@ == admin_role() || role@ == moderator_role() || role@
                        == member_role();
                    &&& post == pre.insert(member@, post[member@])
                    &&& (if assignable {
                        post[member@].roles@.len() == 1 && post[member@].roles@[0]@ == role@
                            && post[member@].updated_at == now && post[member@].created_at
                            == pre[member@].created_at
                    } else {
                        post[member@] == pre[member@]
                    })
                } else {
                    final(self).attendees.members == old(self).attendees.members
                }
            }),
    {
        let old_join = self.take_attendee_join(&member);
        match old_join {
            Some(mut join) => {
                join.set_role(role, now);
                assoc_insert(&mut self.attendees.members, member, join);
                proof {
                    let m = map_of(self.attendees.members@);
                    assert(m =~= map_of(old(self).attendees.members@).insert(
                        member@,
                        m[member@],
                    ));
                }
            },
            None => {},
        }
    }

    /// Take an attendee's join record out of the roster.
    fn take_attendee_join(&mut self, member: &PrincipalId) -> (r: Option<Join>)
        requires
            old(self).wf(),
        ensures
            final(self).wf(),
            final(self).attendees == (Members {
                members: final(self).attendees.members,
                ..old(self).attendees
            }),
            *final(self) == (EventWithAttendees { attendees: final(self).attendees, ..*old(self) }),
            r is Some <==> map_of(old(self).attendees.members@).contains_key(member@),
            r matches Some(j) ==> j == map_of(old(self).attendees.members@)[member@],
            r is None ==> *final(self) == *old(self),
            map_of(final(self).attendees.members@) == map_of(old(self).attendees.members@).remove(
                member@,
            ),
    {
        let n = self.attendees.members.len();
        let mut i: usize = 0;
        while i < n
            invariant
                n == self.attendees.members@.len(),
                i <= n,
                *self == *old(self),
                old(self).wf(),
                forall|j: int| 0 <= j < i ==> self.attendees.members@[j].0@ != member@,
            decreases n - i,
        {
            if self.attendees.members[i].0.key_eq(member) {
                proof {
                    crate::entry_map::lemma_map_of_index(self.attendees.members@, i as int);
                    crate::entry_map::lemma_map_of_remove(self.attendees.members@, i as int);
                }
                let (_, j) = self.attendees.members.remove(i);
                return Some(j);
            }
            i += 1;
        }
        proof {
            crate::entry_map::lemma_map_of_contains(self.attendees.members@, member@);
            assert(map_of(self.attendees.members@) =~= map_of(self.attendees.members@).remove(
                member@,
            ));
        }
        None
    }

    /// The identities of every invited attendee.
    pub fn get_invites(&self) -> (r: Vec<PrincipalId>)
        ensures
            r@.len() == self.attendees.invites@.len(),
            forall|i: int| 0 <= i < r@.len() ==> r@[i]@ == self.attendees.invites@[i].0@,
    {
        assoc_keys(&self.attendees.invites)
    }

    /// Record an invite for an identity, replacing a pending one.
    pub fn add_invite(
        &mut self,
        member: PrincipalId,
        invite_type: InviteType,
        notification_id: Option<u64>,
        now: u64,
    )
        requires
            old(self).wf(),
        ensures
            final(self).wf(),
            map_of(final(self).attendees.invites@) == map_of(old(self).attendees.invites@).insert(
                member@,
                Invite { notification_id, invite_type, updated_at: now, created_at: now },
            ),
            final(self).attendees == (Members {
                invites: final(self).attendees.invites,
                ..old(self).attendees
            }),
            *final(self) == (EventWithAttendees { attendees: final(self).attendees, ..*old(self) }),
    {
        let invite = Invite { notification_id, invite_type, updated_at: now, created_at: now };
        assoc_insert(&mut self.attendees.invites, member, invite);
    }

    /// Drop a pending invite; an absent one is a no-op.
    pub fn remove_invite(&mut self, member: PrincipalId)
        requires
            old(self).wf(),
        ensures
            final(self).wf(),
            map_of(final(self).attendees.invites@) == map_of(old(self).attendees.invites@).remove(
                member@,
            ),
            final(self).attendees == (Members {
                invites: final(self).attendees.invites,
                ..old(self).attendees
            }),
            *final(self) == (EventWithAttendees { attendees: final(self).attendees, ..*old(self) }),
    {
        assoc_remove(&mut self.attendees.invites, &member);
    }

    /// Turn a pending invite into attendance with the plain member role;
    /// without a pending invite nothing changes.
    pub fn convert_invite_to_attendee(&mut self, principal: PrincipalId, now: u64)
        requires
            old(self).wf(),
        ensures
            final(self).wf(),
            final(self).attendees == (Members {
                members: final(self).attendees.members,
                invites: final(self).attendees.invites,
                ..old(self).attendees
            }),
            *final(self) == (EventWithAttendees { attendees: final(self).attendees, ..*old(self) }),
            ({
                let had = map_of(old(self).attendees.invites@).contains_key(principal@);
                if had {
                    let m = map_of(final(self).attendees.members@);
                    &&& map_of(final(self).attendees.invites@) == map_of(
                        old(self).attendees.invites@,
                    ).remove(principal@)
                    &&& m == map_of(old(self).attendees.members@).insert(principal@, m[principal@])
                    &&& m[principal@].roles@.len() == 1 && m[principal@].roles@[0]@
                        == member_role()
                } else {
                    &&& final(self).attendees.invites == old(self).attendees.invites
                    &&& final(self).attendees.members == old(self).attendees.members
                }
            }),
    {
        let had = assoc_remove(&mut self.attendees.invites, &principal);
        if had {
            let join = Join::new(now);
            assoc_insert(&mut self.attendees.members, principal, join);
            proof {
                let m = map_of(self.attendees.members@);
                assert(m =~= map_of(old(self).attendees.members@).insert(
                    principal@,
                    m[principal@],
                ));
            }
        }
    }

    /// Attach the notification that announced this event.
    pub fn set_notification_id(&mut self, notification_id: u64)
        ensures
            final(self).references == (References {
                notification_id: Some(notification_id),
                ..old(self).references
            }),
            *final(self) == (EventWithAttendees {
                references: final(self).references,
                ..*old(self)
            }),
    {
        self.references.notification_id = Some(notification_id);
    }

    /// Detach the notification.
    pub fn remove_notification_id(&mut self)
        ensures
            final(self).references == (References {
                notification_id: None,
                ..old(self).references
            }),
            *final(self) == (EventWithAttendees {
                references: final(self).references,
                ..*old(self)
            }),
    {
        self.references.notification_id = None;
    }

    /// Record a special relation for an identity.
    pub fn add_special_attendees(&mut self, member: PrincipalId, relation: RelationType)
        requires
            old(self).wf(),
        ensures
            final(self).wf(),
            ({
                let m = map_of(final(self).attendees.special_members@);
                &&& m.contains_key(member@)
                &&& m[member@]@ == relation_text(relation)
                &&& m == map_of(old(self).attendees.special_members@).insert(member@, m[member@])
            }),
            final(self).attendees == (Members {
                special_members: final(self).attendees.special_members,
                ..old(self).attendees
            }),
            *final(self) == (EventWithAttendees { attendees: final(self).attendees, ..*old(self) }),
    {
        let text = relation.to_text();
        assoc_insert(&mut self.attendees.special_members, member, text);
        proof {
            let m = map_of(self.attendees.special_members@);
            assert(m =~= map_of(old(self).attendees.special_members@).insert(
                member@,
                m[member@],
            ));
        }
    }

    /// Drop an identity's special relation; an absent one is a no-op.
    pub fn remove_special_attendee(&mut self, member: PrincipalId)
        requires
            old(self).wf(),
        ensures
            final(self).wf(),
            map_of(final(self).attendees.special_members@) == map_of(
                old(self).attendees.special_members@,
            ).remove(member@),
            final(self).attendees == (Members {
                special_members: final(self).attendees.special_members,
                ..old(self).attendees
            }),
            *final(self) == (EventWithAttendees { attendees: final(self).attendees, ..*old(self) }),
    {
        assoc_remove(&mut self.attendees.special_members, &member);
    }

    /// Whether an identity is banned: its special relation is the blocked
    /// one.
    pub fn is_banned_member(&self, member: PrincipalId) -> (r: bool)
        requires
            self.wf(),
        ensures
            r == ({
                let m = map_of(self.attendees.special_members@);
                m.contains_key(member@) && m[member@]@ == relation_text(RelationType::Blocked)
            }),
    {
        match assoc_get(&self.attendees.special_members, &member) {
            Some(relation) => {
                let blocked = String::from_str("blocked");
                relation.eq(&blocked)
            },
            None => false,
        }
    }

    /// Whether an identity attends.
    pub fn is_attendee(&self, attendee: PrincipalId) -> (r: bool)
        requires
            self.wf(),
        ensures
            r == map_of(self.attendees.members@).contains_key(attendee@),
    {
        self.attendees.has_member(&attendee)
    }
}

/// Order over events. The date orders use the total date range's bounds;
/// an event without dates takes 0 for both, so it sorts before every dated
/// event rather than by the clock at sorting time.
#[derive(Clone, Debug)]
pub enum EventSort {
    CreatedOn(SortDirection),
    UpdatedOn(SortDirection),
    StartDate(SortDirection),
    EndDate(SortDirection),
}

impl Default for EventSort {
    /// The default order is by creation time, ascending.
    fn default() -> (r: Self)
        ensures
            r == EventSort::CreatedOn(SortDirection::Asc),
    {
        EventSort::CreatedOn(SortDirection::Asc)
    }
}

impl EntryOrder<u64, EventWithAttendees> for EventSort {
    open spec fn le_spec(
        &self,
        a: &(u64, EventWithAttendees),
        b: &(u64, EventWithAttendees),
    ) -> bool {
        match self {
            EventSort::CreatedOn(SortDirection::Asc) => a.1.created_on <= b.1.created_on,
            EventSort::CreatedOn(SortDirection::Desc) => b.1.created_on <= a.1.created_on,
            EventSort::UpdatedOn(SortDirection::Asc) => a.1.updated_on <= b.1.updated_on,
            EventSort::UpdatedOn(SortDirection::Desc) => b.1.updated_on <= a.1.updated_on,
            EventSort::StartDate(SortDirection::Asc) => event_start(&a.1) <= event_start(&b.1),
            EventSort::StartDate(SortDirection::Desc) => event_start(&b.1) <= event_start(&a.1),
            EventSort::EndDate(SortDirection::Asc) => event_end(&a.1) <= event_end(&b.1),
            EventSort::EndDate(SortDirection::Desc) => event_end(&b.1) <= event_end(&a.1),
        }
    }

    proof fn le_total(&self, a: &(u64, EventWithAttendees), b: &(u64, EventWithAttendees)) {
    }

    proof fn le_trans(
        &self,
        a: &(u64, EventWithAttendees),
        b: &(u64, EventWithAttendees),
        c: &(u64, EventWithAttendees),
    ) {
    }

    fn le(&self, a: &(u64, EventWithAttendees), b: &(u64, EventWithAttendees)) -> (r: bool) {
        match self {
            EventSort::CreatedOn(SortDirection::Asc) => a.1.created_on <= b.1.created_on,
            EventSort::CreatedOn(SortDirection::Desc) => b.1.created_on <= a.1.created_on,
            EventSort::UpdatedOn(SortDirection::Asc) => a.1.updated_on <= b.1.updated_on,
            EventSort::UpdatedOn(SortDirection::Desc) => b.1.updated_on <= a.1.updated_on,
            EventSort::StartDate(SortDirection::Asc) => a.1.start_key() <= b.1.start_key(),
            EventSort::StartDate(SortDirection::Desc) => b.1.start_key() <= a.1.start_key(),
            EventSort::EndDate(SortDirection::Asc) => a.1.end_key() <= b.1.end_key(),
            EventSort::EndDate(SortDirection::Desc) => b.1.end_key() <= a.1.end_key(),
        }
    }
}

impl Sorter<u64, EventWithAttendees> for EventSort {
    fn sort(&self, entries: Vec<(u64, EventWithAttendees)>) -> (r: Vec<(u64, EventWithAttendees)>) {
        sort_entries(self, entries)
    }
}

/// Membership of an optional group id in a list of optional group ids.
fn group_id_in(groups: &Vec<Option<u64>>, target: &Option<u64>) -> (r: bool)
    ensures
        r == groups@.contains(*target),
{
    let n = groups.len();
    let mut i: usize = 0;
    while i < n
        invariant
            n == groups@.len(),
            i <= n,
            forall|j: int| 0 <= j < i ==> groups@[j] != *target,
        decreases n - i,
    {
        let same = match (&groups[i], target) {
            (Option::Some(a), Option::Some(b)) => *a == *b,
            (Option::None, Option::None) => true,
            _ => false,
        };
        if same {
            proof {
                assert(groups@[i as int] == *target);
            }
            return true;
        }
        i += 1;
    }
    false
}

/// Predicates over events. `Any` passes everything.
#[derive(Clone, Debug)]
pub enum EventFilter {
    Any,
    Name(String),
    StartDate(DateRange),
    EndDate(DateRange),
    Owner(PrincipalId),
    Groups(Vec<Option<u64>>),
    Ids(Vec<u64>),
    Tag(u32),
    IsCanceled(bool),
    UpdatedOn(DateRange),
    CreatedOn(DateRange),
}

impl Default for EventFilter {
    /// The default filter passes everything.
    fn default() -> (r: Self)
        ensures
            r is Any,
    {
        EventFilter::Any
    }
}

impl Filter<u64, EventWithAttendees> for EventFilter {
    open spec fn matches_spec(&self, id: &u64, event: &EventWithAttendees) -> bool {
        match self {
            EventFilter::Any => true,
            EventFilter::Name(name) => contains_seq(
                lower_of(event.metadata.name@),
                lower_of(name@),
            ),
            EventFilter::StartDate(date) => date.within_spec(event_start(event)),
            EventFilter::EndDate(date) => date.within_spec(event_end(event)),
            EventFilter::Owner(owner) => owner@ == event.owner@,
            EventFilter::Groups(groups) => groups@.contains(event.group_id),
            EventFilter::Ids(ids) => has_key_view(ids@, id@),
            EventFilter::Tag(tag) => has_key_view(event.references.tags@, tag@),
            EventFilter::IsCanceled(is_canceled) => (event.is_canceled is Some) == *is_canceled,
            EventFilter::UpdatedOn(date) => date.within_spec(event.updated_on),
            EventFilter::CreatedOn(date) => date.within_spec(event.created_on),
        }
    }

    fn matches(&self, id: &u64, event: &EventWithAttendees) -> (r: bool) {
        match self {
            EventFilter::Any => true,
            EventFilter::Name(name) => contains_ci(event.metadata.name.as_str(), name.as_str()),
            EventFilter::StartDate(date) => date.is_within(event.start_key()),
            EventFilter::EndDate(date) => date.is_within(event.end_key()),
            EventFilter::Owner(owner) => owner.eq_principal(&event.owner),
            EventFilter::Groups(groups) => group_id_in(groups, &event.group_id),
            EventFilter::Ids(ids) => key_in_vec(ids, id),
            EventFilter::Tag(tag) => key_in_vec(&event.references.tags, tag),
            EventFilter::IsCanceled(is_canceled) => event.is_canceled.is_some() == *is_canceled,
            EventFilter::UpdatedOn(date) => date.is_within(event.updated_on),
            EventFilter::CreatedOn(date) => date.is_within(event.created_on),
        }
    }
}

/// Aggregate counts about events for one caller.
#[derive(Clone, Copy, Debug, PartialEq, Eq, Structural)]
pub struct EventsCount {
    pub total: u64,
    pub attending: u64,
    pub invited: u64,
    pub starred: u64,
    pub future: u64,
    pub past: u64,
    pub new: u64,
}

/// An event as returned to callers, with derived counts inlined.
#[derive(Clone, Debug)]
pub struct EventResponse {
    pub id: u64,
    pub name: String,
    pub description: String,
    pub date: DateRange,
    pub privacy: PrivacyType,
    pub created_by: PrincipalId,
    pub owner: PrincipalId,
    pub website: String,
    pub location: Location,
    pub image: Asset,
    pub banner_image: Asset,
    pub is_canceled: bool,
    pub is_canceled_reason: String,
    pub is_deleted: bool,
    pub tags: Vec<u32>,
    pub metadata: Option<String>,
    pub updated_on: u64,
    pub created_on: u64,
    pub group_id: Option<u64>,
    pub attendee_count: u64,
    pub invite_count: u64,
    pub boosted: Option<Boost>,
}

impl EventResponse {
    /// The response for a stored event; `now` stands in for the date of an
    /// event without dates.
    pub fn new(id: u64, event: EventWithAttendees, boosted: Option<Boost>, now: u64) -> (r: Self)
        ensures
            r.id == id,
            r.name == event.metadata.name,
            r.description == event.metadata.description,
            event.dates@.len() == 0 ==> r.date == (DateRange { start: now, end: now }),
            event.dates@.len() > 0 ==> r.date == (DateRange {
                start: min_start(event.dates@),
                end: max_end(event.dates@),
            }),
            r.privacy == event.privacy.privacy_type,
            r.created_by == event.created_by,
            r.owner == event.owner,
            r.website == event.metadata.website,
            r.location == event.metadata.location,
            r.image == event.metadata.image,
            r.banner_image == event.metadata.banner_image,
            r.is_canceled == (event.is_canceled is Some),
            (event.is_canceled matches Some(text) ==> r.is_canceled_reason == text),
            r.is_deleted == event.is_deleted,
            r.tags == event.references.tags,
            r.metadata is None,
            r.updated_on == event.updated_on,
            r.created_on == event.created_on,
            r.group_id == event.group_id,
            r.attendee_count == event.attendees.members@.len(),
            r.invite_count == event.attendees.invites@.len(),
            r.boosted == boosted,
    {
        let date = event.get_total_date_range(now);
        let attendee_count = event.attendees.members.len() as u64;
        let invite_count = event.attendees.invites.len() as u64;
        let (was_canceled, cancel_text) = match event.is_canceled {
            Some(text) => (true, text),
            None => (false, String::new()),
        };
        EventResponse {
            id,
            name: event.metadata.name,
            description: event.metadata.description,
            date,
            privacy: event.privacy.privacy_type,
            created_by: event.created_by,
            owner: event.owner,
            website: event.metadata.website,
            location: event.metadata.location,
            image: event.metadata.image,
            banner_image: event.metadata.banner_image,
            is_canceled: was_canceled,
            is_canceled_reason: cancel_text,
            is_deleted: event.is_deleted,
            tags: event.references.tags,
            metadata: None,
            updated_on: event.updated_on,
            created_on: event.created_on,
            group_id: event.group_id,
            attendee_count,
            invite_count,
            boosted,
        }
    }

    /// The response for a lookup result: a failure passes through
    /// unchanged.
    pub fn from_result(
        id: u64,
        event: Result<EventWithAttendees, crate::api_error::ApiError>,
        boosted: Option<Boost>,
        now: u64,
    ) -> (r: Result<Self, crate::api_error::ApiError>)
        ensures
            r is Ok <==> event is Ok,
            (r matches Err(e) ==> event matches Err(e2) && e == e2),
            (r matches Ok(resp) ==> event matches Ok(ev) && resp.id == id && resp.name
                == ev.metadata.name && resp.owner == ev.owner && resp.boosted == boosted),
    {
        match event {
            Err(e) => Err(e),
            Ok(event) => Ok(Self::new(id, event, boosted, now)),
        }
    }
}

} // verus!
