//! The remote client for the group store.

use vstd::prelude::*;

use crate::api_error::CanisterResult;
use crate::cell::{CellStorage, GenericCellStorage};
use crate::client::{prepare, PeerRequest, StorageClient, StorageClientInsertable};
use crate::models::group_with_members::{GroupFilter, GroupSort, GroupWithMembers};
use crate::principal::PrincipalId;

verus! {

/// A client addressing the peer process that owns the group store.
pub struct GroupStorageClient {
    pub canister: GenericCellStorage<PrincipalId>,
}

impl GroupStorageClient {
    /// A client reading the peer address from the given cell.
    pub fn new(canister: GenericCellStorage<PrincipalId>) -> (r: Self)
        ensures
            r.canister == canister,
    {
        GroupStorageClient { canister }
    }
}

impl StorageClient<u64, GroupWithMembers, GroupFilter, GroupSort> for GroupStorageClient {
    open spec fn canister_cell(&self) -> Option<PrincipalId> {
        self.canister.cell_value()
    }

    open spec fn client_name(&self) -> Seq<char> {
        "group"@
    }

    fn name(&self) -> (r: String) {
        String::from_str("group")
    }

    fn canister_id(&self) -> (r: CanisterResult<PrincipalId>) {
        self.canister.get()
    }

    fn size(&self) -> (r: CanisterResult<PeerRequest<()>>) {
        prepare(self.canister_id(), "size", ())
    }

    fn get(&self, id: u64) -> (r: CanisterResult<PeerRequest<(u64,)>>) {
        prepare(self.canister_id(), "get", (id,))
    }

    fn get_many(&self, keys: Vec<u64>) -> (r: CanisterResult<PeerRequest<(Vec<u64>,)>>) {
        prepare(self.canister_id(), "get_many", (keys,))
    }

    fn get_all(&self) -> (r: CanisterResult<PeerRequest<()>>) {
        prepare(self.canister_id(), "get_all", ())
    }

    fn get_paginated(&self, limit: usize, page: usize, sort: GroupSort) -> (r: CanisterResult<
        PeerRequest<(usize, usize, GroupSort)>,
    >) {
        prepare(self.canister_id(), "get_paginated", (limit, page, sort))
    }

    fn find(&self, filters: Vec<GroupFilter>) -> (r: CanisterResult<
        PeerRequest<(Vec<GroupFilter>,)>,
    >) {
        prepare(self.canister_id(), "find", (filters,))
    }

    fn filter(&self, filters: Vec<GroupFilter>) -> (r: CanisterResult<
        PeerRequest<(Vec<GroupFilter>,)>,
    >) {
        prepare(self.canister_id(), "filter", (filters,))
    }

    fn filter_paginated(
        &self,
        limit: usize,
        page: usize,
        sort: GroupSort,
        filters: Vec<GroupFilter>,
    ) -> (r: CanisterResult<PeerRequest<(usize, usize, GroupSort, Vec<GroupFilter>)>>) {
        prepare(self.canister_id(), "filter_paginated", (limit, page, sort, filters))
    }

    fn update(&self, key: u64, value: GroupWithMembers) -> (r: CanisterResult<
        PeerRequest<(u64, GroupWithMembers)>,
    >) {
        prepare(self.canister_id(), "update", (key, value))
    }

    fn update_many(&self, list: Vec<(u64, GroupWithMembers)>) -> (r: CanisterResult<
        PeerRequest<(Vec<(u64, GroupWithMembers)>,)>,
    >) {
        prepare(self.canister_id(), "update_many", (list,))
    }

    fn remove(&self, key: u64) -> (r: CanisterResult<PeerRequest<(u64,)>>) {
        prepare(self.canister_id(), "remove", (key,))
    }

    fn remove_many(&self, keys: Vec<u64>) -> (r: CanisterResult<PeerRequest<(Vec<u64>,)>>) {
        prepare(self.canister_id(), "remove_many", (keys,))
    }
}

impl StorageClientInsertable<GroupWithMembers, GroupFilter, GroupSort> for GroupStorageClient {
    fn insert(&self, value: GroupWithMembers) -> (r: CanisterResult<
        PeerRequest<(GroupWithMembers,)>,
    >) {
        prepare(self.canister_id(), "insert", (value,))
    }
}

} // verus!
