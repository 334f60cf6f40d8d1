//! The descriptive fields of a profile.

use vstd::prelude::*;

use crate::models::support::Asset;

verus! {

/// Names, contact fields and images of a profile.
#[derive(Clone, Debug)]
pub struct ProfileMetadata {
    pub username: String,
    pub display_name: String,
    pub first_name: String,
    pub last_name: String,
    pub about: String,
    pub email: String,
    pub date_of_birth: u64,
    pub city: String,
    pub state_or_province: String,
    pub country: String,
    pub profile_image: Asset,
    pub banner_image: Asset,
    pub website: String,
}

impl Default for ProfileMetadata {
    /// Empty descriptive fields.
    fn default() -> (r: Self)
        ensures
            r.username@.len() == 0,
            r.display_name@.len() == 0,
            r.about@.len() == 0,
            r.email@.len() == 0,
            r.date_of_birth == 0,
            r.profile_image is Unset,
            r.banner_image is Unset,
    {
        ProfileMetadata {
            username: String::new(),
            display_name: String::new(),
            first_name: String::new(),
            last_name: String::new(),
            about: String::new(),
            email: String::new(),
            date_of_birth: 0,
            city: String::new(),
            state_or_province: String::new(),
            country: String::new(),
            profile_image: Asset::Unset,
            banner_image: Asset::Unset,
            website: String::new(),
        }
    }
}

} // verus!
