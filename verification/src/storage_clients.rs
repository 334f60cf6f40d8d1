//! The concrete remote storage clients, one per peer store.

use vstd::prelude::*;

use crate::cell::GenericCellStorage;
use crate::principal::PrincipalId;

pub mod group;

use group::GroupStorageClient;

verus! {

/// The client for the peer process holding the group store.
pub fn groups(canister_storage: GenericCellStorage<PrincipalId>) -> (r: GroupStorageClient)
    ensures
        r.canister == canister_storage,
{
    GroupStorageClient::new(canister_storage)
}

} // verus!
