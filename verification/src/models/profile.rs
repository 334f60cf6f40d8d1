//! Profiles in their flat layout, with every field inline.

use vstd::prelude::*;

use crate::assoc::{has_key_view, key_in_vec, retain_without_key, without_key};
use crate::api_error::CanisterResult;
use crate::date_range::DateRange;
use crate::filter::Filter;
use crate::models::subject::Subject;
use crate::models::support::{ApplicationRole, Asset, DocumentDetails, ProfilePrivacy, Wallet};
use crate::principal::PrincipalId;
use crate::sort_direction::SortDirection;
use crate::sorter::{sort_entries, EntryOrder, Sorter};
use crate::text::{eq_str, lower_of};

verus! {

/// A profile with every field inline.
#[derive(Clone, Debug)]
pub struct Profile {
    pub username: String,
    pub display_name: String,
    pub first_name: String,
    pub last_name: String,
    pub about: String,
    pub email: String,
    pub date_of_birth: u64,
    pub city: String,
    pub state_or_province: String,
    pub country: String,
    pub profile_image: Asset,
    pub banner_image: Asset,
    pub website: String,
    pub application_role: ApplicationRole,
    pub privacy: ProfilePrivacy,
    pub skills: Vec<u32>,
    pub interests: Vec<u32>,
    pub causes: Vec<u32>,
    pub code_of_conduct: Option<DocumentDetails>,
    pub privacy_policy: Option<DocumentDetails>,
    pub terms_of_service: Option<DocumentDetails>,
    pub wallets: Vec<(PrincipalId, Wallet)>,
    pub starred: Vec<Subject>,
    pub pinned: Vec<Subject>,
    pub relations: Vec<(PrincipalId, String)>,
    pub extra: String,
    pub notification_id: Option<u64>,
    pub updated_on: u64,
    pub created_on: u64,
}

/// The input for creating a flat profile.
#[derive(Clone, Debug)]
pub struct PostProfile {
    pub username: String,
    pub display_name: String,
    pub first_name: String,
    pub last_name: String,
    pub privacy: ProfilePrivacy,
    pub extra: String,
}

/// The input for updating a flat profile.
#[derive(Clone, Debug)]
pub struct UpdateProfile {
    pub display_name: String,
    pub first_name: String,
    pub last_name: String,
    pub privacy: ProfilePrivacy,
    pub about: String,
    pub email: Option<String>,
    pub date_of_birth: u64,
    pub city: String,
    pub state_or_province: String,
    pub country: String,
    pub profile_image: Asset,
    pub banner_image: Asset,
    pub skills: Vec<u32>,
    pub interests: Vec<u32>,
    pub causes: Vec<u32>,
    pub website: String,
    pub extra: String,
}

impl Profile {
    /// The profile a creation input describes, stamped with the current
    /// time.
    pub fn from_post(profile: PostProfile, now: u64) -> (r: Self)
        ensures
            r.username == profile.username,
            r.display_name == profile.display_name,
            r.first_name == profile.first_name,
            r.last_name == profile.last_name,
            r.privacy == profile.privacy,
            r.extra == profile.extra,
            r.application_role == ApplicationRole::Member,
            r.about@.len() == 0 && r.email@.len() == 0 && r.date_of_birth == 0,
            r.skills@.len() == 0 && r.interests@.len() == 0 && r.causes@.len() == 0,
            r.wallets@.len() == 0 && r.starred@.len() == 0 && r.pinned@.len() == 0,
            r.relations@.len() == 0,
            r.code_of_conduct is None && r.privacy_policy is None && r.terms_of_service is None,
            r.notification_id is None,
            r.updated_on == now,
            r.created_on == now,
    {
        Profile {
            username: profile.username,
            display_name: profile.display_name,
            first_name: profile.first_name,
            last_name: profile.last_name,
            about: String::new(),
            email: String::new(),
            date_of_birth: 0,
            city: String::new(),
            state_or_province: String::new(),
            country: String::new(),
            profile_image: Asset::Unset,
            banner_image: Asset::Unset,
            website: String::new(),
            application_role: ApplicationRole::Member,
            privacy: profile.privacy,
            skills: Vec::new(),
            interests: Vec::new(),
            causes: Vec::new(),
            code_of_conduct: None,
            privacy_policy: None,
            terms_of_service: None,
            wallets: Vec::new(),
            starred: Vec::new(),
            pinned: Vec::new(),
            relations: Vec::new(),
            extra: profile.extra,
            notification_id: None,
            updated_on: now,
            created_on: now,
        }
    }

    /// Unpin a subject wherever it occurs.
    pub fn remove_pinned(&mut self, subject: &Subject)
        ensures
            final(self).pinned@ == without_key(old(self).pinned@, subject@),
            *final(self) == (Profile { pinned: final(self).pinned, ..*old(self) }),
    {
        retain_without_key(&mut self.pinned, subject);
    }

    /// Unstar a subject wherever it occurs.
    pub fn remove_starred(&mut self, subject: &Subject)
        ensures
            final(self).starred@ == without_key(old(self).starred@, subject@),
            *final(self) == (Profile { starred: final(self).starred, ..*old(self) }),
    {
        retain_without_key(&mut self.starred, subject);
    }

    /// The profile with an update input applied: descriptive fields,
    /// visibility, interests and the extra payload are replaced; wallets,
    /// subjects, relations, documents and creation time are kept.
    pub fn update(self, profile: UpdateProfile, now: u64) -> (r: Self)
        ensures
            r == (Profile {
                display_name: profile.display_name,
                first_name: profile.first_name,
                last_name: profile.last_name,
                privacy: profile.privacy,
                about: profile.about,
                email: (match profile.email {
                    Some(e) => e,
                    None => r.email,
                }),
                date_of_birth: profile.date_of_birth,
                city: profile.city,
                state_or_province: profile.state_or_province,
                country: profile.country,
                profile_image: profile.profile_image,
                banner_image: profile.banner_image,
                skills: profile.skills,
                interests: profile.interests,
                causes: profile.causes,
                website: profile.website,
                extra: profile.extra,
                updated_on: now,
                ..self
            }),
            profile.email is None ==> r.email@.len() == 0,
    {
        let email = match profile.email {
            Some(e) => e,
            None => String::new(),
        };
        Profile {
            username: self.username,
            display_name: profile.display_name,
            first_name: profile.first_name,
            last_name: profile.last_name,
            about: profile.about,
            email,
            date_of_birth: profile.date_of_birth,
            city: profile.city,
            state_or_province: profile.state_or_province,
            country: profile.country,
            profile_image: profile.profile_image,
            banner_image: profile.banner_image,
            website: profile.website,
            application_role: self.application_role,
            privacy: profile.privacy,
            skills: profile.skills,
            interests: profile.interests,
            causes: profile.causes,
            code_of_conduct: self.code_of_conduct,
            privacy_policy: self.privacy_policy,
            terms_of_service: self.terms_of_service,
            wallets: self.wallets,
            starred: self.starred,
            pinned: self.pinned,
            relations: self.relations,
            extra: profile.extra,
            notification_id: self.notification_id,
            updated_on: now,
            created_on: self.created_on,
        }
    }

    /// Attach the notification announcing this profile.
    pub fn set_notification_id(&mut self, notification_id: u64)
        ensures
            *final(self) == (Profile { notification_id: Some(notification_id), ..*old(self) }),
    {
        self.notification_id = Some(notification_id);
    }

    /// Detach the notification.
    pub fn remove_notification_id(&mut self)
        ensures
            *final(self) == (Profile { notification_id: None, ..*old(self) }),
    {
        self.notification_id = None;
    }

    /// Whether a subject is starred.
    pub fn is_starred(&self, subject: &Subject) -> (r: bool)
        ensures
            r == has_key_view(self.starred@, subject@),
    {
        key_in_vec(&self.starred, subject)
    }

    /// Whether a subject is pinned.
    pub fn is_pinned(&self, subject: &Subject) -> (r: bool)
        ensures
            r == has_key_view(self.pinned@, subject@),
    {
        key_in_vec(&self.pinned, subject)
    }
}

/// A wallet in a flat profile response, keyed by owner identity.
#[derive(Clone, Debug)]
pub struct OldWalletResponse {
    pub provider: String,
    pub principal: PrincipalId,
    pub is_primary: bool,
}

/// A flat profile as returned to callers.
#[derive(Clone, Debug)]
pub struct ProfileResponse {
    pub principal: PrincipalId,
    pub username: String,
    pub display_name: String,
    pub application_role: ApplicationRole,
    pub first_name: String,
    pub last_name: String,
    pub privacy: ProfilePrivacy,
    pub about: String,
    pub email: String,
    pub date_of_birth: u64,
    pub city: String,
    pub state_or_province: String,
    pub country: String,
    pub profile_image: Asset,
    pub banner_image: Asset,
    pub skills: Vec<u32>,
    pub interests: Vec<u32>,
    pub causes: Vec<u32>,
    pub website: String,
    pub code_of_conduct: Option<DocumentDetails>,
    pub privacy_policy: Option<DocumentDetails>,
    pub terms_of_service: Option<DocumentDetails>,
    pub pinned: Vec<Subject>,
    pub starred: Vec<Subject>,
    pub wallets: Vec<OldWalletResponse>,
    pub extra: String,
    pub updated_on: u64,
    pub created_on: u64,
}

impl ProfileResponse {
    /// The response for a stored flat profile.
    pub fn new(principal: PrincipalId, profile: Profile) -> (r: Self)
        ensures
            r.principal == principal,
            r.username == profile.username,
            r.display_name == profile.display_name,
            r.application_role == profile.application_role,
            r.first_name == profile.first_name,
            r.last_name == profile.last_name,
            r.privacy == profile.privacy,
            r.about == profile.about,
            r.email == profile.email,
            r.date_of_birth == profile.date_of_birth,
            r.city == profile.city,
            r.state_or_province == profile.state_or_province,
            r.country == profile.country,
            r.profile_image == profile.profile_image,
            r.banner_image == profile.banner_image,
            r.skills == profile.skills,
            r.interests == profile.interests,
            r.causes == profile.causes,
            r.website == profile.website,
            r.code_of_conduct == profile.code_of_conduct,
            r.privacy_policy == profile.privacy_policy,
            r.terms_of_service == profile.terms_of_service,
            r.pinned == profile.pinned,
            r.starred == profile.starred,
            r.wallets@.len() == profile.wallets@.len(),
            forall|i: int|
                0 <= i < r.wallets@.len() ==> #[trigger] r.wallets@[i].principal
                    == profile.wallets@[i].0 && r.wallets@[i].provider
                    == profile.wallets@[i].1.provider && r.wallets@[i].is_primary
                    == profile.wallets@[i].1.is_primary,
            r.extra == profile.extra,
            r.updated_on == profile.updated_on,
            r.created_on == profile.created_on,
    {
        let mut wallets: Vec<OldWalletResponse> = Vec::new();
        let mut rest = profile.wallets;
        let ghost all = rest@;
        loop
            invariant
                wallets@.len() + rest@.len() == all.len(),
                forall|j: int| 0 <= j < rest@.len() ==> rest@[j] == all[wallets@.len() + j],
                forall|j: int|
                    0 <= j < wallets@.len() ==> #[trigger] wallets@[j].principal == all[j].0
                        && wallets@[j].provider == all[j].1.provider && wallets@[j].is_primary
                        == all[j].1.is_primary,
            ensures
                wallets@.len() == all.len(),
                forall|j: int|
                    0 <= j < all.len() ==> #[trigger] wallets@[j].principal == all[j].0
                        && wallets@[j].provider == all[j].1.provider && wallets@[j].is_primary
                        == all[j].1.is_primary,
            decreases rest@.len(),
        {
            if rest.len() == 0 {
                break ;
            }
            let ghost done = wallets@.len() as int;
            let (owner, wallet) = rest.remove(0);
            proof {
                assert(all[done] == (owner, wallet));
            }
            wallets.push(
                OldWalletResponse {
                    provider: wallet.provider,
                    principal: owner,
                    is_primary: wallet.is_primary,
                },
            );
        }
        ProfileResponse {
            principal,
            username: profile.username,
            display_name: profile.display_name,
            application_role: profile.application_role,
            first_name: profile.first_name,
            last_name: profile.last_name,
            privacy: profile.privacy,
            about: profile.about,
            email: profile.email,
            date_of_birth: profile.date_of_birth,
            city: profile.city,
            state_or_province: profile.state_or_province,
            country: profile.country,
            profile_image: profile.profile_image,
            banner_image: profile.banner_image,
            skills: profile.skills,
            interests: profile.interests,
            causes: profile.causes,
            website: profile.website,
            code_of_conduct: profile.code_of_conduct,
            privacy_policy: profile.privacy_policy,
            terms_of_service: profile.terms_of_service,
            pinned: profile.pinned,
            starred: profile.starred,
            wallets,
            extra: profile.extra,
            updated_on: profile.updated_on,
            created_on: profile.created_on,
        }
    }

    /// The response wrapped as a success, for handlers that return a
    /// result.
    pub fn to_result(self) -> (r: CanisterResult<Self>)
        ensures
            r matches Ok(v) && v == self,
    {
        Ok(self)
    }
}

/// Order over flat profiles.
#[derive(Clone, Debug)]
pub enum ProfileSort {
    CreatedOn(SortDirection),
    UpdatedOn(SortDirection),
}

impl Default for ProfileSort {
    /// The default order is by creation time, ascending.
    fn default() -> (r: Self)
        ensures
            r == ProfileSort::CreatedOn(SortDirection::Asc),
    {
        ProfileSort::CreatedOn(SortDirection::Asc)
    }
}

impl EntryOrder<PrincipalId, Profile> for ProfileSort {
    open spec fn le_spec(&self, a: &(PrincipalId, Profile), b: &(PrincipalId, Profile)) -> bool {
        match self {
            ProfileSort::CreatedOn(SortDirection::Asc) => a.1.created_on <= b.1.created_on,
            ProfileSort::CreatedOn(SortDirection::Desc) => b.1.created_on <= a.1.created_on,
            ProfileSort::UpdatedOn(SortDirection::Asc) => a.1.updated_on <= b.1.updated_on,
            ProfileSort::UpdatedOn(SortDirection::Desc) => b.1.updated_on <= a.1.updated_on,
        }
    }

    proof fn le_total(&self, a: &(PrincipalId, Profile), b: &(PrincipalId, Profile)) {
    }

    proof fn le_trans(
        &self,
        a: &(PrincipalId, Profile),
        b: &(PrincipalId, Profile),
        c: &(PrincipalId, Profile),
    ) {
    }

    fn le(&self, a: &(PrincipalId, Profile), b: &(PrincipalId, Profile)) -> (r: bool) {
        match self {
            ProfileSort::CreatedOn(SortDirection::Asc) => a.1.created_on <= b.1.created_on,
            ProfileSort::CreatedOn(SortDirection::Desc) => b.1.created_on <= a.1.created_on,
            ProfileSort::UpdatedOn(SortDirection::Asc) => a.1.updated_on <= b.1.updated_on,
            ProfileSort::UpdatedOn(SortDirection::Desc) => b.1.updated_on <= a.1.updated_on,
        }
    }
}

impl Sorter<PrincipalId, Profile> for ProfileSort {
    fn sort(&self, entries: Vec<(PrincipalId, Profile)>) -> (r: Vec<(PrincipalId, Profile)>) {
        sort_entries(self, entries)
    }
}

/// Predicates over flat profiles: case-insensitive equality on the text
/// fields, membership on the interest lists, containment on time ranges.
#[derive(Clone, Debug)]
pub enum ProfileFilter {
    Username(String),
    DisplayName(String),
    FirstName(String),
    LastName(String),
    Email(String),
    City(String),
    StateOrProvince(String),
    Country(String),
    UpdatedOn(DateRange),
    Skill(u32),
    Interest(u32),
    Cause(u32),
    CreatedOn(DateRange),
}

impl Filter<PrincipalId, Profile> for ProfileFilter {
    open spec fn matches_spec(&self, key: &PrincipalId, value: &Profile) -> bool {
        match self {
            ProfileFilter::Username(username) => lower_of(value.username@) == lower_of(username@),
            ProfileFilter::DisplayName(display_name) => lower_of(value.display_name@) == lower_of(
                display_name@,
            ),
            ProfileFilter::FirstName(first_name) => lower_of(value.first_name@) == lower_of(
                first_name@,
            ),
            ProfileFilter::LastName(last_name) => lower_of(value.last_name@) == lower_of(
                last_name@,
            ),
            ProfileFilter::Email(email) => lower_of(value.email@) == lower_of(email@),
            ProfileFilter::City(city) => lower_of(value.city@) == lower_of(city@),
            ProfileFilter::StateOrProvince(state) => lower_of(value.state_or_province@)
                == lower_of(state@),
            ProfileFilter::Country(country) => lower_of(value.country@) == lower_of(country@),
            ProfileFilter::UpdatedOn(range) => range.within_spec(value.updated_on),
            ProfileFilter::Skill(skill) => has_key_view(value.skills@, skill@),
            ProfileFilter::Interest(interest) => has_key_view(value.interests@, interest@),
            ProfileFilter::Cause(cause) => has_key_view(value.causes@, cause@),
            ProfileFilter::CreatedOn(range) => range.within_spec(value.created_on),
        }
    }

    fn matches(&self, key: &PrincipalId, value: &Profile) -> (r: bool) {
        match self {
            ProfileFilter::Username(username) => eq_str(value.username.as_str(), username.as_str()),
            ProfileFilter::DisplayName(display_name) => eq_str(
                value.display_name.as_str(),
                display_name.as_str(),
            ),
            ProfileFilter::FirstName(first_name) => eq_str(
                value.first_name.as_str(),
                first_name.as_str(),
            ),
            ProfileFilter::LastName(last_name) => eq_str(
                value.last_name.as_str(),
                last_name.as_str(),
            ),
            ProfileFilter::Email(email) => eq_str(value.email.as_str(), email.as_str()),
            ProfileFilter::City(city) => eq_str(value.city.as_str(), city.as_str()),
            ProfileFilter::StateOrProvince(state) => eq_str(
                value.state_or_province.as_str(),
                state.as_str(),
            ),
            ProfileFilter::Country(country) => eq_str(value.country.as_str(), country.as_str()),
            ProfileFilter::UpdatedOn(range) => range.is_within(value.updated_on),
            ProfileFilter::Skill(skill) => key_in_vec(&value.skills, skill),
            ProfileFilter::Interest(interest) => key_in_vec(&value.interests, interest),
            ProfileFilter::Cause(cause) => key_in_vec(&value.causes, cause),
            ProfileFilter::CreatedOn(range) => range.is_within(value.created_on),
        }
    }
}

} // verus!
