//! Subjects: typed references to an entity of any class.

use vstd::prelude::*;

use crate::keys::StorageKey;
use crate::models::event_with_attendees::EventWithAttendees;
use crate::models::group_with_members::GroupWithMembers;
use crate::models::profile_with_refs::ProfileWithRefs;
use crate::principal::{lemma_lex_le_bytes_antisym, lemma_lex_le_bytes_total,
    lemma_lex_le_bytes_trans, lex_le_bytes, PrincipalId};

verus! {

/// A typed reference to an entity.
#[derive(Clone, Debug)]
pub enum Subject {
    Unspecified,
    Group(u64),
    Event(u64),
    Profile(PrincipalId),
    Member(PrincipalId),
    Attendee(PrincipalId),
}

/// The mathematical identity of a subject.
pub enum SubjectIdentity {
    Unspecified,
    Group(u64),
    Event(u64),
    Profile(Seq<u8>),
    Member(Seq<u8>),
    Attendee(Seq<u8>),
}

impl View for Subject {
    type V = SubjectIdentity;

    closed spec fn view(&self) -> SubjectIdentity {
        match self {
            Subject::Unspecified => SubjectIdentity::Unspecified,
            Subject::Group(id) => SubjectIdentity::Group(*id),
            Subject::Event(id) => SubjectIdentity::Event(*id),
            Subject::Profile(p) => SubjectIdentity::Profile(p@),
            Subject::Member(p) => SubjectIdentity::Member(p@),
            Subject::Attendee(p) => SubjectIdentity::Attendee(p@),
        }
    }
}

/// The class rank a subject identity sorts by.
pub open spec fn identity_rank(s: SubjectIdentity) -> int {
    match s {
        SubjectIdentity::Unspecified => 0,
        SubjectIdentity::Group(_) => 1,
        SubjectIdentity::Event(_) => 2,
        SubjectIdentity::Profile(_) => 3,
        SubjectIdentity::Member(_) => 4,
        SubjectIdentity::Attendee(_) => 5,
    }
}

/// Total order on subject identities: by class rank, then by payload.
pub open spec fn identity_le(a: SubjectIdentity, b: SubjectIdentity) -> bool {
    if identity_rank(a) != identity_rank(b) {
        identity_rank(a) < identity_rank(b)
    } else {
        match (a, b) {
            (SubjectIdentity::Group(x), SubjectIdentity::Group(y)) => x <= y,
            (SubjectIdentity::Event(x), SubjectIdentity::Event(y)) => x <= y,
            (SubjectIdentity::Profile(x), SubjectIdentity::Profile(y)) => lex_le_bytes(x, y),
            (SubjectIdentity::Member(x), SubjectIdentity::Member(y)) => lex_le_bytes(x, y),
            (SubjectIdentity::Attendee(x), SubjectIdentity::Attendee(y)) => lex_le_bytes(x, y),
            _ => true,
        }
    }
}

impl Subject {
    /// The class rank this subject sorts by.
    fn rank(&self) -> (r: u8)
        ensures
            r == identity_rank(self@),
    {
        match self {
            Subject::Unspecified => 0,
            Subject::Group(_) => 1,
            Subject::Event(_) => 2,
            Subject::Profile(_) => 3,
            Subject::Member(_) => 4,
            Subject::Attendee(_) => 5,
        }
    }
}

impl StorageKey for Subject {
    open spec fn le_view(a: SubjectIdentity, b: SubjectIdentity) -> bool {
        identity_le(a, b)
    }

    proof fn le_view_total(a: SubjectIdentity, b: SubjectIdentity) {
        if identity_rank(a) == identity_rank(b) {
            match (a, b) {
                (SubjectIdentity::Profile(x), SubjectIdentity::Profile(y)) => {
                    lemma_lex_le_bytes_total(x, y);
                },
                (SubjectIdentity::Member(x), SubjectIdentity::Member(y)) => {
                    lemma_lex_le_bytes_total(x, y);
                },
                (SubjectIdentity::Attendee(x), SubjectIdentity::Attendee(y)) => {
                    lemma_lex_le_bytes_total(x, y);
                },
                _ => {},
            }
        }
    }

    proof fn le_view_trans(a: SubjectIdentity, b: SubjectIdentity, c: SubjectIdentity) {
        if identity_rank(a) == identity_rank(b) && identity_rank(b) == identity_rank(c) {
            match (a, b, c) {
                (
                    SubjectIdentity::Profile(x),
                    SubjectIdentity::Profile(y),
                    SubjectIdentity::Profile(z),
                ) => {
                    lemma_lex_le_bytes_trans(x, y, z);
                },
                (
                    SubjectIdentity::Member(x),
                    SubjectIdentity::Member(y),
                    SubjectIdentity::Member(z),
                ) => {
                    lemma_lex_le_bytes_trans(x, y, z);
                },
                (
                    SubjectIdentity::Attendee(x),
                    SubjectIdentity::Attendee(y),
                    SubjectIdentity::Attendee(z),
                ) => {
                    lemma_lex_le_bytes_trans(x, y, z);
                },
                _ => {},
            }
        }
    }

    proof fn le_view_antisym(a: SubjectIdentity, b: SubjectIdentity) {
        match (a, b) {
            (SubjectIdentity::Profile(x), SubjectIdentity::Profile(y)) => {
                lemma_lex_le_bytes_antisym(x, y);
            },
            (SubjectIdentity::Member(x), SubjectIdentity::Member(y)) => {
                lemma_lex_le_bytes_antisym(x, y);
            },
            (SubjectIdentity::Attendee(x), SubjectIdentity::Attendee(y)) => {
                lemma_lex_le_bytes_antisym(x, y);
            },
            _ => {},
        }
    }

    fn key_eq(&self, other: &Self) -> (r: bool)
        ensures
            r == (self@ == other@),
    {
        match (self, other) {
            (Subject::Unspecified, Subject::Unspecified) => true,
            (Subject::Group(a), Subject::Group(b)) => *a == *b,
            (Subject::Event(a), Subject::Event(b)) => *a == *b,
            (Subject::Profile(a), Subject::Profile(b)) => a.eq_principal(b),
            (Subject::Member(a), Subject::Member(b)) => a.eq_principal(b),
            (Subject::Attendee(a), Subject::Attendee(b)) => a.eq_principal(b),
            _ => false,
        }
    }

    fn key_le(&self, other: &Self) -> (r: bool) {
        let ra = self.rank();
        let rb = other.rank();
        if ra != rb {
            return ra < rb;
        }
        match (self, other) {
            (Subject::Group(a), Subject::Group(b)) => *a <= *b,
            (Subject::Event(a), Subject::Event(b)) => *a <= *b,
            (Subject::Profile(a), Subject::Profile(b)) => a.le_principal(b),
            (Subject::Member(a), Subject::Member(b)) => a.le_principal(b),
            (Subject::Attendee(a), Subject::Attendee(b)) => a.le_principal(b),
            _ => true,
        }
    }

    fn key_clone(&self) -> (r: Self)
        ensures
            r@ == self@,
    {
        match self {
            Subject::Unspecified => Subject::Unspecified,
            Subject::Group(id) => Subject::Group(*id),
            Subject::Event(id) => Subject::Event(*id),
            Subject::Profile(p) => Subject::Profile(p.clone()),
            Subject::Member(p) => Subject::Member(p.clone()),
            Subject::Attendee(p) => Subject::Attendee(p.clone()),
        }
    }
}

/// The class of a subject, without its id.
#[derive(Clone, Copy, Debug, PartialEq, Eq, Structural)]
pub enum SubjectType {
    Unspecified,
    Group,
    Event,
    Profile,
    Member,
    Attendee,
}

/// The class a subject identity belongs to.
pub open spec fn type_of(s: SubjectIdentity) -> SubjectType {
    match s {
        SubjectIdentity::Unspecified => SubjectType::Unspecified,
        SubjectIdentity::Group(_) => SubjectType::Group,
        SubjectIdentity::Event(_) => SubjectType::Event,
        SubjectIdentity::Profile(_) => SubjectType::Profile,
        SubjectIdentity::Member(_) => SubjectType::Member,
        SubjectIdentity::Attendee(_) => SubjectType::Attendee,
    }
}

/// The numeric id a subject identity carries, or 0 where it carries none.
pub open spec fn id_of(s: SubjectIdentity) -> u64 {
    match s {
        SubjectIdentity::Group(id) => id,
        SubjectIdentity::Event(id) => id,
        _ => 0u64,
    }
}

impl Subject {
    /// The class of this subject.
    pub fn get_type(&self) -> (r: SubjectType)
        ensures
            r == type_of(self@),
    {
        match self {
            Subject::Unspecified => SubjectType::Unspecified,
            Subject::Group(_) => SubjectType::Group,
            Subject::Event(_) => SubjectType::Event,
            Subject::Profile(_) => SubjectType::Profile,
            Subject::Member(_) => SubjectType::Member,
            Subject::Attendee(_) => SubjectType::Attendee,
        }
    }

    /// The numeric id this subject carries, or 0 where it carries none.
    pub fn get_id(&self) -> (r: u64)
        ensures
            r == id_of(self@),
    {
        match self {
            Subject::Group(id) => *id,
            Subject::Event(id) => *id,
            _ => 0,
        }
    }
}

/// The entity a subject resolves to, if it exists: the record itself for
/// groups, events and profiles, the membership ids for members and
/// attendees.
#[derive(Clone, Debug)]
pub enum SubjectResponse {
    Unspecified,
    Group(Option<(u64, GroupWithMembers)>),
    Event(Option<(u64, EventWithAttendees)>),
    Profile(Option<(PrincipalId, ProfileWithRefs)>),
    Member(Option<(PrincipalId, Vec<u64>)>),
    Attendee(Option<(PrincipalId, Vec<u64>)>),
}

impl Default for Subject {
    /// The default subject refers to nothing.
    fn default() -> (r: Self)
        ensures
            r@ == SubjectIdentity::Unspecified,
    {
        Subject::Unspecified
    }
}

} // verus!
