//! What a group points at: its chat space, wallets, events and tags.

use vstd::prelude::*;

use crate::principal::PrincipalId;

verus! {

/// The reference lists a group keeps.
#[derive(Clone, Debug)]
pub struct GroupReferences {
    pub matrix_space_id: String,
    pub wallets: Vec<(PrincipalId, String)>,
    pub notification_id: Option<u64>,
    pub events: Vec<u64>,
    pub tags: Vec<u32>,
}

impl Default for GroupReferences {
    /// Empty reference lists.
    fn default() -> (r: Self)
        ensures
            r.matrix_space_id@.len() == 0,
            r.wallets@.len() == 0,
            r.notification_id is None,
            r.events@.len() == 0,
            r.tags@.len() == 0,
    {
        GroupReferences {
            matrix_space_id: String::new(),
            wallets: Vec::new(),
            notification_id: None,
            events: Vec::new(),
            tags: Vec::new(),
        }
    }
}

} // verus!
