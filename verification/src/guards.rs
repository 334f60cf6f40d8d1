//! Call guards: checks a handler runs before doing any work.

use vstd::prelude::*;

use crate::api_error::{kind_text_spec, ApiError, ApiErrorKind};
use crate::principal::{anonymous_bytes, PrincipalId};

verus! {

/// Reject the anonymous identity: a named caller passes, the anonymous one
/// is turned away with an unauthorized message.
pub fn is_not_anonymous(caller: &PrincipalId) -> (r: Result<(), String>)
    ensures
        r is Ok <==> caller@ != anonymous_bytes(),
        r matches Err(s) ==> s@ == kind_text_spec(ApiErrorKind::Unauthorized) + ": "@
            + "Anonymous principal"@,
{
    if caller.is_anonymous() {
        Err(ApiError::unauthorized().add_message("Anonymous principal").to_text())
    } else {
        Ok(())
    }
}

} // verus!
