//! The legal documents a profile has accepted.

use vstd::prelude::*;

use crate::models::support::DocumentDetails;

verus! {

/// Acceptance records for the legal documents.
#[derive(Clone, Copy, Debug, PartialEq, Eq, Structural)]
pub struct ProfileDocuments {
    pub code_of_conduct: Option<DocumentDetails>,
    pub privacy_policy: Option<DocumentDetails>,
    pub terms_of_service: Option<DocumentDetails>,
}

impl Default for ProfileDocuments {
    /// No document accepted yet.
    fn default() -> (r: Self)
        ensures
            r.code_of_conduct is None,
            r.privacy_policy is None,
            r.terms_of_service is None,
    {
        ProfileDocuments { code_of_conduct: None, privacy_policy: None, terms_of_service: None }
    }
}

} // verus!
