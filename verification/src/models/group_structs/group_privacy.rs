//! The visibility settings of a group.

use vstd::prelude::*;

use crate::models::support::Privacy;

verus! {

/// Visibility and the threshold amount for token-restricted access.
#[derive(Clone, Debug, PartialEq, Eq, Structural)]
pub struct GroupPrivacy {
    pub privacy: Privacy,
    pub privacy_gated_type_amount: Option<u64>,
}

impl Default for GroupPrivacy {
    /// Public, with no threshold amount.
    fn default() -> (r: Self)
        ensures
            r.privacy.privacy_type is Public,
            r.privacy.privacy_gated_type_amount is None,
            r.privacy_gated_type_amount is None,
    {
        GroupPrivacy { privacy: Privacy::default(), privacy_gated_type_amount: None }
    }
}

} // verus!
