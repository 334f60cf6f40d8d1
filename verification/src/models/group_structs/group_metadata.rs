//! The descriptive fields of a group.

use vstd::prelude::*;

use crate::models::support::{Asset, Location};

verus! {

/// Name, description and images of a group.
#[derive(Clone, Debug)]
pub struct GroupMetadata {
    pub name: String,
    pub description: String,
    pub website: String,
    pub location: Location,
    pub image: Asset,
    pub banner_image: Asset,
}

impl Default for GroupMetadata {
    /// Empty descriptive fields.
    fn default() -> (r: Self)
        ensures
            r.name@.len() == 0,
            r.description@.len() == 0,
            r.website@.len() == 0,
            r.location is Unset,
            r.image is Unset,
            r.banner_image is Unset,
    {
        GroupMetadata {
            name: String::new(),
            description: String::new(),
            website: String::new(),
            location: Location::Unset,
            image: Asset::Unset,
            banner_image: Asset::Unset,
        }
    }
}

} // verus!
