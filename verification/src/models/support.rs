//! Shared field types of the entity records.

use vstd::prelude::*;

verus! {

/// An image or document attachment reference.
#[derive(Clone, Debug)]
pub enum Asset {
    Unset,
    Url(String),
}

impl Default for Asset {
    /// By default no asset is attached.
    fn default() -> (r: Self)
        ensures
            r is Unset,
    {
        Asset::Unset
    }
}

/// Where something takes place.
#[derive(Clone, Debug)]
pub enum Location {
    Unset,
    Named(String),
}

impl Default for Location {
    /// By default no location is given.
    fn default() -> (r: Self)
        ensures
            r is Unset,
    {
        Location::Unset
    }
}

/// Visibility of a group or event.
#[derive(Clone, Copy, Debug, PartialEq, Eq, Structural)]
pub enum PrivacyType {
    Public,
    Private,
    InviteOnly,
}

impl Default for PrivacyType {
    /// The default visibility is public.
    fn default() -> (r: Self)
        ensures
            r == PrivacyType::Public,
    {
        PrivacyType::Public
    }
}

/// Visibility of a profile.
#[derive(Clone, Copy, Debug, PartialEq, Eq, Structural)]
pub enum ProfilePrivacy {
    Public,
    Private,
}

impl Default for ProfilePrivacy {
    /// The default visibility is public.
    fn default() -> (r: Self)
        ensures
            r == ProfilePrivacy::Public,
    {
        ProfilePrivacy::Public
    }
}

/// The application-wide role of a profile.
#[derive(Clone, Copy, Debug, PartialEq, Eq, Structural)]
pub enum ApplicationRole {
    Member,
    Guest,
    Blocked,
}

impl Default for ApplicationRole {
    /// A profile starts as a plain member.
    fn default() -> (r: Self)
        ensures
            r == ApplicationRole::Member,
    {
        ApplicationRole::Member
    }
}

/// Acceptance of a versioned document.
#[derive(Clone, Copy, Debug, PartialEq, Eq, Structural)]
pub struct DocumentDetails {
    pub approved_version: u64,
    pub approved_date: u64,
}

impl DocumentDetails {
    /// An acceptance record for a version at a date.
    pub fn new(approved_version: u64, approved_date: u64) -> (r: Self)
        ensures
            r.approved_version == approved_version,
            r.approved_date == approved_date,
    {
        DocumentDetails { approved_version, approved_date }
    }
}

/// Who initiated an invite.
#[derive(Clone, Copy, Debug, PartialEq, Eq, Structural)]
pub enum InviteType {
    OwnerRequest,
    UserRequest,
}

/// A special relation a group or event keeps for an identity.
#[derive(Clone, Copy, Debug, PartialEq, Eq, Structural)]
pub enum RelationType {
    Blocked,
    Allowed,
}

/// The relation rendered as text, as stored in special-member lists.
pub open spec fn relation_text(r: RelationType) -> Seq<char> {
    match r {
        RelationType::Blocked => "blocked"@,
        RelationType::Allowed => "allowed"@,
    }
}

impl RelationType {
    /// The relation rendered as text.
    pub fn to_text(&self) -> (r: String)
        ensures
            r@ == relation_text(*self),
    {
        match self {
            RelationType::Blocked => String::from_str("blocked"),
            RelationType::Allowed => String::from_str("allowed"),
        }
    }
}

/// A linked wallet.
#[derive(Clone, Debug)]
pub struct Wallet {
    pub provider: String,
    pub is_primary: bool,
}

/// Shared descriptive fields of groups and events.
#[derive(Clone, Debug)]
pub struct Metadata {
    pub name: String,
    pub description: String,
    pub website: String,
    pub location: Location,
    pub image: Asset,
    pub banner_image: Asset,
}

impl Default for Metadata {
    /// Empty descriptive fields.
    fn default() -> (r: Self)
        ensures
            r.name@.len() == 0,
            r.description@.len() == 0,
            r.website@.len() == 0,
            r.location is Unset,
            r.image is Unset,
            r.banner_image is Unset,
    {
        Metadata {
            name: String::new(),
            description: String::new(),
            website: String::new(),
            location: Location::Unset,
            image: Asset::Unset,
            banner_image: Asset::Unset,
        }
    }
}

/// Visibility of a group or event together with the threshold amount
/// for token-restricted access.
#[derive(Clone, Debug, PartialEq, Eq, Structural)]
pub struct Privacy {
    pub privacy_type: PrivacyType,
    pub privacy_gated_type_amount: Option<u64>,
}

impl Default for Privacy {
    /// Public, with no threshold amount.
    fn default() -> (r: Self)
        ensures
            r.privacy_type == PrivacyType::Public,
            r.privacy_gated_type_amount is None,
    {
        Privacy { privacy_type: PrivacyType::Public, privacy_gated_type_amount: None }
    }
}

/// A notification id and the tags attached to a record.
#[derive(Clone, Debug)]
pub struct References {
    pub notification_id: Option<u64>,
    pub tags: Vec<u32>,
}

impl Default for References {
    /// No notification and no tags.
    fn default() -> (r: Self)
        ensures
            r.notification_id is None,
            r.tags@.len() == 0,
    {
        References { notification_id: None, tags: Vec::new() }
    }
}

} // verus!
