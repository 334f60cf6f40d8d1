//! Profiles, with their reference lists inlined.

use vstd::prelude::*;

use crate::assoc::{assoc_contains, assoc_get, assoc_insert, assoc_remove, has_key_view,
    key_in_vec, retain_without_key, without_key};
use crate::api_error::CanisterResult;
use crate::date_range::DateRange;
use crate::entry_map::{map_of, unique_keys};
use crate::filter::Filter;
use crate::keys::StorageKey;
use crate::models::profile_structs::profile_documents::ProfileDocuments;
use crate::models::profile_structs::profile_metadata::ProfileMetadata;
use crate::models::profile_structs::profile_references::ProfileReferences;
use crate::models::referral::Referral;
use crate::models::subject::Subject;
use crate::models::support::{ApplicationRole, Asset, DocumentDetails, Privacy};
use crate::principal::PrincipalId;
use crate::sort_direction::SortDirection;
use crate::sorter::{sort_entries, EntryOrder, Sorter};
use crate::text::{eq_str, lower_of};

verus! {

/// A profile: descriptive metadata, accepted documents, visibility and
/// reference lists.
#[derive(Clone, Debug)]
pub struct ProfileWithRefs {
    pub metadata: ProfileMetadata,
    pub documents: ProfileDocuments,
    pub application_role: ApplicationRole,
    pub privacy: Privacy,
    pub references: ProfileReferences,
    pub extra: Option<String>,
    pub notification_id: Option<u64>,
    pub updated_on: u64,
    pub created_on: u64,
}

/// The input for creating a profile.
#[derive(Clone, Debug)]
pub struct PostProfile {
    pub username: String,
    pub display_name: String,
    pub first_name: String,
    pub last_name: String,
    pub privacy: Privacy,
    pub extra: String,
    pub referrer: Option<PrincipalId>,
}

/// The input for updating a profile.
#[derive(Clone, Debug)]
pub struct UpdateProfile {
    pub display_name: String,
    pub first_name: String,
    pub last_name: String,
    pub privacy: Privacy,
    pub about: String,
    pub email: Option<String>,
    pub date_of_birth: u64,
    pub city: String,
    pub state_or_province: String,
    pub country: String,
    pub profile_image: Asset,
    pub banner_image: Asset,
    pub skills: Vec<u32>,
    pub interests: Vec<u32>,
    pub causes: Vec<u32>,
    pub website: String,
    pub extra: Option<String>,
}

impl ProfileWithRefs {
    /// Each keyed reference list maps its key at most once.
    pub open spec fn wf(&self) -> bool {
        &&& unique_keys(self.references.wallets@)
        &&& unique_keys(self.references.relations@)
        &&& unique_keys(self.references.referrals@)
    }

    /// The profile a creation input describes, stamped with the current
    /// time.
    pub fn from_post(profile: PostProfile, now: u64) -> (r: Self)
        ensures
            r.wf(),
            r.metadata.username == profile.username,
            r.metadata.display_name == profile.display_name,
            r.metadata.first_name == profile.first_name,
            r.metadata.last_name == profile.last_name,
            r.metadata.about@.len() == 0,
            r.metadata.email@.len() == 0,
            r.privacy == profile.privacy,
            r.documents.code_of_conduct is None,
            r.documents.privacy_policy is None,
            r.documents.terms_of_service is None,
            r.application_role == ApplicationRole::Member,
            r.references.groups@.len() == 0,
            r.references.events@.len() == 0,
            r.references.referrals@.len() == 0,
            r.extra is None,
            r.notification_id is None,
            r.updated_on == now,
            r.created_on == now,
    {
        let mut metadata = ProfileMetadata::default();
        metadata.username = profile.username;
        metadata.display_name = profile.display_name;
        metadata.first_name = profile.first_name;
        metadata.last_name = profile.last_name;
        ProfileWithRefs {
            metadata,
            documents: ProfileDocuments::default(),
            application_role: ApplicationRole::Member,
            privacy: profile.privacy,
            references: ProfileReferences::new(),
            extra: None,
            notification_id: None,
            updated_on: now,
            created_on: now,
        }
    }

    /// The profile with an update input applied: descriptive fields,
    /// visibility and the extra payload are replaced; documents, role,
    /// references and creation time are kept.
    pub fn update(self, profile: UpdateProfile, now: u64) -> (r: Self)
        ensures
            r == (ProfileWithRefs {
                metadata: ProfileMetadata {
                    display_name: profile.display_name,
                    first_name: profile.first_name,
                    last_name: profile.last_name,
                    about: profile.about,
                    email: (match profile.email {
                        Some(e) => e,
                        None => r.metadata.email,
                    }),
                    date_of_birth: profile.date_of_birth,
                    city: profile.city,
                    state_or_province: profile.state_or_province,
                    country: profile.country,
                    profile_image: profile.profile_image,
                    banner_image: profile.banner_image,
                    website: profile.website,
                    username: self.metadata.username,
                },
                privacy: profile.privacy,
                extra: profile.extra,
                updated_on: now,
                ..self
            }),
            profile.email is None ==> r.metadata.email@.len() == 0,
    {
        let email = match profile.email {
            Some(e) => e,
            None => String::new(),
        };
        ProfileWithRefs {
            metadata: ProfileMetadata {
                display_name: profile.display_name,
                first_name: profile.first_name,
                last_name: profile.last_name,
                about: profile.about,
                email,
                date_of_birth: profile.date_of_birth,
                city: profile.city,
                state_or_province: profile.state_or_province,
                country: profile.country,
                profile_image: profile.profile_image,
                banner_image: profile.banner_image,
                website: profile.website,
                username: self.metadata.username,
            },
            documents: self.documents,
            application_role: self.application_role,
            privacy: profile.privacy,
            references: self.references,
            extra: profile.extra,
            notification_id: self.notification_id,
            updated_on: now,
            created_on: self.created_on,
        }
    }

    /// Attach the notification announcing this profile.
    pub fn set_notification_id(&mut self, notification_id: u64)
        ensures
            *final(self) == (ProfileWithRefs {
                notification_id: Some(notification_id),
                ..*old(self)
            }),
    {
        self.notification_id = Some(notification_id);
    }

    /// Detach the notification.
    pub fn remove_notification_id(&mut self)
        ensures
            *final(self) == (ProfileWithRefs { notification_id: None, ..*old(self) }),
    {
        self.notification_id = None;
    }

    /// Whether a subject is starred.
    pub fn is_starred(&self, subject: &Subject) -> (r: bool)
        ensures
            r == has_key_view(self.references.starred@, subject@),
    {
        key_in_vec(&self.references.starred, subject)
    }

    /// Whether a subject is pinned.
    pub fn is_pinned(&self, subject: &Subject) -> (r: bool)
        ensures
            r == has_key_view(self.references.pinned@, subject@),
    {
        key_in_vec(&self.references.pinned, subject)
    }

    /// Unpin a subject wherever it occurs.
    pub fn remove_pinned(&mut self, subject: &Subject)
        ensures
            final(self).references.pinned@ == without_key(old(self).references.pinned@, subject@),
            final(self).references == (ProfileReferences {
                pinned: final(self).references.pinned,
                ..old(self).references
            }),
            *final(self) == (ProfileWithRefs { references: final(self).references, ..*old(self) }),
    {
        retain_without_key(&mut self.references.pinned, subject);
    }

    /// Unstar a subject wherever it occurs.
    pub fn remove_starred(&mut self, subject: &Subject)
        ensures
            final(self).references.starred@ == without_key(
                old(self).references.starred@,
                subject@,
            ),
            final(self).references == (ProfileReferences {
                starred: final(self).references.starred,
                ..old(self).references
            }),
            *final(self) == (ProfileWithRefs { references: final(self).references, ..*old(self) }),
    {
        retain_without_key(&mut self.references.starred, subject);
    }

    /// Record membership in a group.
    pub fn add_group(&mut self, group_id: u64)
        ensures
            final(self).references.groups@ == old(self).references.groups@.push(group_id),
            final(self).references == (ProfileReferences {
                groups: final(self).references.groups,
                ..old(self).references
            }),
            *final(self) == (ProfileWithRefs { references: final(self).references, ..*old(self) }),
    {
        self.references.groups.push(group_id);
    }

    /// Whether the profile is a member of a group.
    pub fn is_group_member(&self, group_id: u64) -> (r: bool)
        ensures
            r == has_key_view(self.references.groups@, group_id),
    {
        key_in_vec(&self.references.groups, &group_id)
    }

    /// The ids of the groups the profile belongs to, in order.
    pub fn get_group_ids(&self) -> (r: Vec<u64>)
        ensures
            r@ == self.references.groups@,
    {
        copy_ids(&self.references.groups)
    }

    /// Drop a group membership wherever it occurs.
    pub fn remove_group(&mut self, group_id: u64)
        ensures
            final(self).references.groups@ == without_key(old(self).references.groups@, group_id),
            final(self).references == (ProfileReferences {
                groups: final(self).references.groups,
                ..old(self).references
            }),
            *final(self) == (ProfileWithRefs { references: final(self).references, ..*old(self) }),
    {
        retain_without_key(&mut self.references.groups, &group_id);
    }

    /// Record attendance of an event.
    pub fn add_event(&mut self, event_id: u64)
        ensures
            final(self).references.events@ == old(self).references.events@.push(event_id),
            final(self).references == (ProfileReferences {
                events: final(self).references.events,
                ..old(self).references
            }),
            *final(self) == (ProfileWithRefs { references: final(self).references, ..*old(self) }),
    {
        self.references.events.push(event_id);
    }

    /// Whether the profile attends an event.
    pub fn is_event_attendee(&self, event_id: u64) -> (r: bool)
        ensures
            r == has_key_view(self.references.events@, event_id),
    {
        key_in_vec(&self.references.events, &event_id)
    }

    /// The ids of the events the profile attends, in order.
    pub fn get_event_ids(&self) -> (r: Vec<u64>)
        ensures
            r@ == self.references.events@,
    {
        copy_ids(&self.references.events)
    }

    /// Drop an event attendance wherever it occurs.
    pub fn remove_event(&mut self, event_id: u64)
        ensures
            final(self).references.events@ == without_key(old(self).references.events@, event_id),
            final(self).references == (ProfileReferences {
                events: final(self).references.events,
                ..old(self).references
            }),
            *final(self) == (ProfileWithRefs { references: final(self).references, ..*old(self) }),
    {
        retain_without_key(&mut self.references.events, &event_id);
    }

    /// Record a referral extended to an identity, created now.
    pub fn add_referral(&mut self, principal: PrincipalId, now: u64)
        requires
            old(self).wf(),
        ensures
            final(self).wf(),
            map_of(final(self).references.referrals@) == map_of(
                old(self).references.referrals@,
            ).insert(principal@, Referral { created_at: now }),
            final(self).references == (ProfileReferences {
                referrals: final(self).references.referrals,
                ..old(self).references
            }),
            *final(self) == (ProfileWithRefs { references: final(self).references, ..*old(self) }),
    {
        let referral = Referral::new(now);
        assoc_insert(&mut self.references.referrals, principal, referral);
    }

    /// Drop a referral; an absent one is a no-op.
    pub fn remove_referral(&mut self, principal: PrincipalId)
        requires
            old(self).wf(),
        ensures
            final(self).wf(),
            map_of(final(self).references.referrals@) == map_of(
                old(self).references.referrals@,
            ).remove(principal@),
            final(self).references == (ProfileReferences {
                referrals: final(self).references.referrals,
                ..old(self).references
            }),
            *final(self) == (ProfileWithRefs { references: final(self).references, ..*old(self) }),
    {
        assoc_remove(&mut self.references.referrals, &principal);
    }

    /// Whether a referral to an identity is recorded.
    pub fn is_referral_exists(&self, principal: PrincipalId) -> (r: bool)
        requires
            self.wf(),
        ensures
            r == map_of(self.references.referrals@).contains_key(principal@),
    {
        assoc_contains(&self.references.referrals, &principal)
    }

    /// Whether the referral to an identity has expired; an absent referral
    /// counts as not expired.
    pub fn is_referral_expired(&self, principal: PrincipalId, now: u64) -> (r: bool)
        requires
            self.wf(),
            forall|kv: Seq<u8>| #[trigger]
                map_of(self.references.referrals@).contains_key(kv) ==> map_of(
                    self.references.referrals@,
                )[kv].created_at <= now,
        ensures
            r == ({
                let m = map_of(self.references.referrals@);
                m.contains_key(principal@) && now - m[principal@].created_at
                    > crate::models::referral::REFERRAL_EXPIRATION
            }),
    {
        match assoc_get(&self.references.referrals, &principal) {
            Some(referral) => referral.is_expired(now),
            None => false,
        }
    }
}

/// A copy of a list of ids, in order.
fn copy_ids(ids: &Vec<u64>) -> (r: Vec<u64>)
    ensures
        r@ == ids@,
{
    let n = ids.len();
    let mut out: Vec<u64> = Vec::new();
    let mut i: usize = 0;
    while i < n
        invariant
            n == ids@.len(),
            i <= n,
            out@ == ids@.subrange(0, i as int),
        decreases n - i,
    {
        out.push(ids[i]);
        proof {
            assert(out@ =~= ids@.subrange(0, i + 1 as int));
        }
        i += 1;
    }
    proof {
        assert(ids@.subrange(0, n as int) =~= ids@);
    }
    out
}

/// A wallet in a profile response, keyed by its address.
#[derive(Clone, Debug)]
pub struct WalletResponse {
    pub provider: String,
    pub address: String,
    pub is_primary: bool,
}

/// A profile as returned to callers.
#[derive(Clone, Debug)]
pub struct ProfileResponse {
    pub principal: PrincipalId,
    pub username: String,
    pub display_name: String,
    pub application_role: ApplicationRole,
    pub first_name: String,
    pub last_name: String,
    pub privacy: Privacy,
    pub about: String,
    pub email: String,
    pub date_of_birth: u64,
    pub city: String,
    pub state_or_province: String,
    pub country: String,
    pub profile_image: Asset,
    pub banner_image: Asset,
    pub skills: Vec<u32>,
    pub interests: Vec<u32>,
    pub causes: Vec<u32>,
    pub website: String,
    pub code_of_conduct: Option<DocumentDetails>,
    pub privacy_policy: Option<DocumentDetails>,
    pub terms_of_service: Option<DocumentDetails>,
    pub pinned: Vec<Subject>,
    pub starred: Vec<Subject>,
    pub wallets: Vec<WalletResponse>,
    pub extra: Option<String>,
    pub updated_on: u64,
    pub created_on: u64,
    pub referrer: Option<PrincipalId>,
}

impl ProfileResponse {
    /// The response for a stored profile.
    pub fn new(principal: PrincipalId, profile: ProfileWithRefs) -> (r: Self)
        ensures
            r.principal == principal,
            r.username == profile.metadata.username,
            r.display_name == profile.metadata.display_name,
            r.application_role == profile.application_role,
            r.first_name == profile.metadata.first_name,
            r.last_name == profile.metadata.last_name,
            r.privacy == profile.privacy,
            r.about == profile.metadata.about,
            r.email == profile.metadata.email,
            r.date_of_birth == profile.metadata.date_of_birth,
            r.city == profile.metadata.city,
            r.state_or_province == profile.metadata.state_or_province,
            r.country == profile.metadata.country,
            r.profile_image == profile.metadata.profile_image,
            r.banner_image == profile.metadata.banner_image,
            r.skills == profile.references.skills,
            r.interests == profile.references.interests,
            r.causes == profile.references.causes,
            r.website == profile.metadata.website,
            r.code_of_conduct == profile.documents.code_of_conduct,
            r.privacy_policy == profile.documents.privacy_policy,
            r.terms_of_service == profile.documents.terms_of_service,
            r.pinned == profile.references.pinned,
            r.starred == profile.references.starred,
            r.wallets@.len() == profile.references.wallets@.len(),
            forall|i: int|
                0 <= i < r.wallets@.len() ==> #[trigger] r.wallets@[i].address
                    == profile.references.wallets@[i].0 && r.wallets@[i].provider
                    == profile.references.wallets@[i].1.provider && r.wallets@[i].is_primary
                    == profile.references.wallets@[i].1.is_primary,
            r.extra == profile.extra,
            r.updated_on == profile.updated_on,
            r.created_on == profile.created_on,
            r.referrer == profile.references.referrer,
    {
        let mut wallets: Vec<WalletResponse> = Vec::new();
        let mut rest = profile.references.wallets;
        let ghost all = rest@;
        loop
            invariant
                wallets@.len() + rest@.len() == all.len(),
                forall|j: int|
                    0 <= j < rest@.len() ==> rest@[j] == all[wallets@.len() + j],
                forall|j: int|
                    0 <= j < wallets@.len() ==> #[trigger] wallets@[j].address == all[j].0
                        && wallets@[j].provider == all[j].1.provider && wallets@[j].is_primary
                        == all[j].1.is_primary,
            ensures
                wallets@.len() == all.len(),
                forall|j: int|
                    0 <= j < all.len() ==> #[trigger] wallets@[j].address == all[j].0
                        && wallets@[j].provider == all[j].1.provider && wallets@[j].is_primary
                        == all[j].1.is_primary,
            decreases rest@.len(),
        {
            if rest.len() == 0 {
                break ;
            }
            let ghost done = wallets@.len() as int;
            let (address, wallet) = rest.remove(0);
            proof {
                assert(all[done] == (address, wallet));
            }
            wallets.push(
                WalletResponse { provider: wallet.provider, address, is_primary: wallet.is_primary },
            );
        }
        ProfileResponse {
            principal,
            username: profile.metadata.username,
            display_name: profile.metadata.display_name,
            application_role: profile.application_role,
            first_name: profile.metadata.first_name,
            last_name: profile.metadata.last_name,
            privacy: profile.privacy,
            about: profile.metadata.about,
            email: profile.metadata.email,
            date_of_birth: profile.metadata.date_of_birth,
            city: profile.metadata.city,
            state_or_province: profile.metadata.state_or_province,
            country: profile.metadata.country,
            profile_image: profile.metadata.profile_image,
            banner_image: profile.metadata.banner_image,
            skills: profile.references.skills,
            interests: profile.references.interests,
            causes: profile.references.causes,
            website: profile.metadata.website,
            code_of_conduct: profile.documents.code_of_conduct,
            privacy_policy: profile.documents.privacy_policy,
            terms_of_service: profile.documents.terms_of_service,
            pinned: profile.references.pinned,
            starred: profile.references.starred,
            wallets,
            extra: profile.extra,
            updated_on: profile.updated_on,
            created_on: profile.created_on,
            referrer: profile.references.referrer,
        }
    }

    /// The response wrapped as a success, for handlers that return a
    /// result.
    pub fn to_result(self) -> (r: CanisterResult<Self>)
        ensures
            r matches Ok(v) && v == self,
    {
        Ok(self)
    }
}

/// Order over profiles.
#[derive(Clone, Debug)]
pub enum ProfileSort {
    CreatedOn(SortDirection),
    UpdatedOn(SortDirection),
}

impl Default for ProfileSort {
    /// The default order is by creation time, ascending.
    fn default() -> (r: Self)
        ensures
            r == ProfileSort::CreatedOn(SortDirection::Asc),
    {
        ProfileSort::CreatedOn(SortDirection::Asc)
    }
}

impl EntryOrder<PrincipalId, ProfileWithRefs> for ProfileSort {
    open spec fn le_spec(
        &self,
        a: &(PrincipalId, ProfileWithRefs),
        b: &(PrincipalId, ProfileWithRefs),
    ) -> bool {
        match self {
            ProfileSort::CreatedOn(SortDirection::Asc) => a.1.created_on <= b.1.created_on,
            ProfileSort::CreatedOn(SortDirection::Desc) => b.1.created_on <= a.1.created_on,
            ProfileSort::UpdatedOn(SortDirection::Asc) => a.1.updated_on <= b.1.updated_on,
            ProfileSort::UpdatedOn(SortDirection::Desc) => b.1.updated_on <= a.1.updated_on,
        }
    }

    proof fn le_total(&self, a: &(PrincipalId, ProfileWithRefs), b: &(PrincipalId, ProfileWithRefs)) {
    }

    proof fn le_trans(
        &self,
        a: &(PrincipalId, ProfileWithRefs),
        b: &(PrincipalId, ProfileWithRefs),
        c: &(PrincipalId, ProfileWithRefs),
    ) {
    }

    fn le(&self, a: &(PrincipalId, ProfileWithRefs), b: &(PrincipalId, ProfileWithRefs)) -> (r:
        bool) {
        match self {
            ProfileSort::CreatedOn(SortDirection::Asc) => a.1.created_on <= b.1.created_on,
            ProfileSort::CreatedOn(SortDirection::Desc) => b.1.created_on <= a.1.created_on,
            ProfileSort::UpdatedOn(SortDirection::Asc) => a.1.updated_on <= b.1.updated_on,
            ProfileSort::UpdatedOn(SortDirection::Desc) => b.1.updated_on <= a.1.updated_on,
        }
    }
}

impl Sorter<PrincipalId, ProfileWithRefs> for ProfileSort {
    fn sort(&self, entries: Vec<(PrincipalId, ProfileWithRefs)>) -> (r: Vec<
        (PrincipalId, ProfileWithRefs),
    >) {
        sort_entries(self, entries)
    }
}

/// Predicates over profiles: case-insensitive equality on the text fields,
/// membership on the interest lists, containment on the time ranges.
#[derive(Clone, Debug)]
pub enum ProfileFilter {
    Username(String),
    DisplayName(String),
    FirstName(String),
    LastName(String),
    Email(String),
    City(String),
    StateOrProvince(String),
    Country(String),
    UpdatedOn(DateRange),
    Skill(u32),
    Interest(u32),
    Cause(u32),
    CreatedOn(DateRange),
}

impl Filter<PrincipalId, ProfileWithRefs> for ProfileFilter {
    open spec fn matches_spec(&self, key: &PrincipalId, value: &ProfileWithRefs) -> bool {
        match self {
            ProfileFilter::Username(username) => lower_of(value.metadata.username@) == lower_of(
                username@,
            ),
            ProfileFilter::DisplayName(display_name) => lower_of(value.metadata.display_name@)
                == lower_of(display_name@),
            ProfileFilter::FirstName(first_name) => lower_of(value.metadata.first_name@)
                == lower_of(first_name@),
            ProfileFilter::LastName(last_name) => lower_of(value.metadata.last_name@) == lower_of(
                last_name@,
            ),
            ProfileFilter::Email(email) => lower_of(value.metadata.email@) == lower_of(email@),
            ProfileFilter::City(city) => lower_of(value.metadata.city@) == lower_of(city@),
            ProfileFilter::StateOrProvince(state) => lower_of(value.metadata.state_or_province@)
                == lower_of(state@),
            ProfileFilter::Country(country) => lower_of(value.metadata.country@) == lower_of(
                country@,
            ),
            ProfileFilter::UpdatedOn(range) => range.within_spec(value.updated_on),
            ProfileFilter::Skill(skill) => has_key_view(value.references.skills@, skill@),
            ProfileFilter::Interest(interest) => has_key_view(
                value.references.interests@,
                interest@,
            ),
            ProfileFilter::Cause(cause) => has_key_view(value.references.causes@, cause@),
            ProfileFilter::CreatedOn(range) => range.within_spec(value.created_on),
        }
    }

    fn matches(&self, key: &PrincipalId, value: &ProfileWithRefs) -> (r: bool) {
        match self {
            ProfileFilter::Username(username) => eq_str(
                value.metadata.username.as_str(),
                username.as_str(),
            ),
            ProfileFilter::DisplayName(display_name) => eq_str(
                value.metadata.display_name.as_str(),
                display_name.as_str(),
            ),
            ProfileFilter::FirstName(first_name) => eq_str(
                value.metadata.first_name.as_str(),
                first_name.as_str(),
            ),
            ProfileFilter::LastName(last_name) => eq_str(
                value.metadata.last_name.as_str(),
                last_name.as_str(),
            ),
            ProfileFilter::Email(email) => eq_str(value.metadata.email.as_str(), email.as_str()),
            ProfileFilter::City(city) => eq_str(value.metadata.city.as_str(), city.as_str()),
            ProfileFilter::StateOrProvince(state) => eq_str(
                value.metadata.state_or_province.as_str(),
                state.as_str(),
            ),
            ProfileFilter::Country(country) => eq_str(
                value.metadata.country.as_str(),
                country.as_str(),
            ),
            ProfileFilter::UpdatedOn(range) => range.is_within(value.updated_on),
            ProfileFilter::Skill(skill) => key_in_vec(&value.references.skills, skill),
            ProfileFilter::Interest(interest) => key_in_vec(&value.references.interests, interest),
            ProfileFilter::Cause(cause) => key_in_vec(&value.references.causes, cause),
            ProfileFilter::CreatedOn(range) => range.is_within(value.created_on),
        }
    }
}

} // verus!
