//! The remote storage client: a proxy exposing the storage engine's
//! operation set against a storage-owning peer process.
//!
//! A call is a suspension point, so the client is split along it. Each
//! client method resolves the peer's address from a one-slot cell and
//! prepares a typed request — failing with `NotFound` before any network
//! attempt when the address was never set. The surrounding process sends
//! the request and hands the outcome to `resolve_response`, which maps a
//! transport failure to an `Unexpected` error carrying the peer address,
//! the method name and the raw transport detail, and passes a well-formed
//! peer response through unchanged. The client performs no caching, no
//! retry and no deduplication: each call is a single best-effort round
//! trip.

use vstd::prelude::*;

use crate::api_error::{ApiError, ApiErrorKind, CanisterResult};
use crate::filter::Filter;
use crate::keys::StorageKey;
use crate::principal::PrincipalId;
use crate::sorter::Sorter;

verus! {

/// A typed request prepared for one peer call: the resolved peer address,
/// the method name, and the argument tuple.
#[derive(Debug)]
pub struct PeerRequest<A> {
    pub canister_id: PrincipalId,
    pub method: String,
    pub args: A,
}

/// What every request-preparing client method promises: a request against
/// the cell's address exactly when the address is set, `NotFound` before
/// any network attempt otherwise.
pub open spec fn prepared<A>(
    cell: Option<PrincipalId>,
    method: Seq<char>,
    args: A,
    r: CanisterResult<PeerRequest<A>>,
) -> bool {
    &&& r is Ok <==> cell is Some
    &&& (r matches Ok(q) ==> (cell matches Some(c) && q.canister_id@ == c@) && q.method@ == method
        && q.args == args)
    &&& (r matches Err(e) ==> e.kind == ApiErrorKind::NotFound)
}

/// A request against the resolved address, or the resolution failure.
pub fn prepare<A>(canister_id: CanisterResult<PrincipalId>, method: &str, args: A) -> (r:
    CanisterResult<PeerRequest<A>>)
    ensures
        match canister_id {
            Ok(c) => r matches Ok(q) && q.canister_id == c && q.method@ == method@ && q.args
                == args,
            Err(e) => r matches Err(e2) && e2 == e,
        },
{
    match canister_id {
        Ok(c) => Ok(PeerRequest { canister_id: c, method: String::from_str(method), args }),
        Err(e) => Err(e),
    }
}

/// The peer call's outcome, folded into the uniform error taxonomy: a
/// transport failure becomes `Unexpected` carrying the peer address, the
/// method name and the raw transport detail; a well-formed peer response —
/// success or peer-reported failure — passes through unchanged.
pub fn resolve_response<R>(
    canister_text: &str,
    method: &str,
    outcome: Result<CanisterResult<R>, String>,
) -> (r: CanisterResult<R>)
    ensures
        match outcome {
            Ok(peer) => r == peer,
            Err(detail) => {
                &&& r matches Err(e)
                &&& (r matches Err(e) ==> {
                    &&& e.kind == ApiErrorKind::Unexpected
                    &&& e.message matches Some(m) && m@ == "Failed to call canister"@
                    &&& e.method_name matches Some(mn) && mn@ == method@
                    &&& e.info matches Some(i) && i@ == canister_text@ + ": "@ + detail@
                })
            },
        },
{
    match outcome {
        Ok(peer) => peer,
        Err(detail) => {
            let mut info = String::from_str(canister_text);
            info.append(": ");
            info.append(detail.as_str());
            Err(
                ApiError::unexpected().add_message("Failed to call canister").add_method_name(
                    method,
                ).add_info(info.as_str()),
            )
        },
    }
}

/// A client mirroring the storage engine's operations against a peer
/// process holding a store of (K, V) entries, filtered by F and sorted
/// by S.
pub trait StorageClient<K: StorageKey, V: Clone, F: Filter<K, V>, S: Sorter<K, V>>: Sized {
    /// The cached peer address, if one was set.
    spec fn canister_cell(&self) -> Option<PrincipalId>;

    /// The client's name.
    spec fn client_name(&self) -> Seq<char>;

    /// The client's name.
    fn name(&self) -> (r: String)
        ensures
            r@ == self.client_name(),
    ;

    /// The peer's address, or `NotFound` when it was never set.
    fn canister_id(&self) -> (r: CanisterResult<PrincipalId>)
        ensures
            r is Ok <==> self.canister_cell() is Some,
            r matches Ok(p) ==> self.canister_cell() matches Some(c) && p@ == c@,
            r matches Err(e) ==> e.kind == ApiErrorKind::NotFound,
    ;

    /// The request for the peer's entry count.
    fn size(&self) -> (r: CanisterResult<PeerRequest<()>>)
        ensures
            prepared(self.canister_cell(), "size"@, (), r),
    ;

    /// The request for the entry under a key.
    fn get(&self, id: K) -> (r: CanisterResult<PeerRequest<(K,)>>)
        ensures
            prepared(self.canister_cell(), "get"@, (id,), r),
    ;

    /// The request for the entries under the given keys.
    fn get_many(&self, keys: Vec<K>) -> (r: CanisterResult<PeerRequest<(Vec<K>,)>>)
        ensures
            prepared(self.canister_cell(), "get_many"@, (keys,), r),
    ;

    /// The request for every entry.
    fn get_all(&self) -> (r: CanisterResult<PeerRequest<()>>)
        ensures
            prepared(self.canister_cell(), "get_all"@, (), r),
    ;

    /// The request for one page of entries: a page size, a zero-based page
    /// index, and the order to page through.
    fn get_paginated(&self, limit: usize, page: usize, sort: S) -> (r: CanisterResult<
        PeerRequest<(usize, usize, S)>,
    >)
        ensures
            prepared(self.canister_cell(), "get_paginated"@, (limit, page, sort), r),
    ;

    /// The request for the first entry passing every filter.
    fn find(&self, filters: Vec<F>) -> (r: CanisterResult<PeerRequest<(Vec<F>,)>>)
        ensures
            prepared(self.canister_cell(), "find"@, (filters,), r),
    ;

    /// The request for every entry passing every filter.
    fn filter(&self, filters: Vec<F>) -> (r: CanisterResult<PeerRequest<(Vec<F>,)>>)
        ensures
            prepared(self.canister_cell(), "filter"@, (filters,), r),
    ;

    /// The request for one page of the entries passing every filter.
    fn filter_paginated(&self, limit: usize, page: usize, sort: S, filters: Vec<F>) -> (r:
        CanisterResult<PeerRequest<(usize, usize, S, Vec<F>)>>)
        ensures
            prepared(self.canister_cell(), "filter_paginated"@, (limit, page, sort, filters), r),
    ;

    /// The request to replace the value under an existing key.
    fn update(&self, key: K, value: V) -> (r: CanisterResult<PeerRequest<(K, V)>>)
        ensures
            prepared(self.canister_cell(), "update"@, (key, value), r),
    ;

    /// The request to replace the values under several existing keys.
    fn update_many(&self, list: Vec<(K, V)>) -> (r: CanisterResult<PeerRequest<(Vec<(K, V)>,)>>)
        ensures
            prepared(self.canister_cell(), "update_many"@, (list,), r),
    ;

    /// The request to remove the entry under a key.
    fn remove(&self, key: K) -> (r: CanisterResult<PeerRequest<(K,)>>)
        ensures
            prepared(self.canister_cell(), "remove"@, (key,), r),
    ;

    /// The request to remove the entries under the given keys.
    fn remove_many(&self, keys: Vec<K>) -> (r: CanisterResult<PeerRequest<(Vec<K>,)>>)
        ensures
            prepared(self.canister_cell(), "remove_many"@, (keys,), r),
    ;
}

/// Insertion against a peer holding an auto-keyed store.
pub trait StorageClientInsertable<V: Clone, F: Filter<u64, V>, S: Sorter<u64, V>>: StorageClient<
    u64,
    V,
    F,
    S,
> {
    /// The request to insert a value under the next allocated key.
    fn insert(&self, value: V) -> (r: CanisterResult<PeerRequest<(V,)>>)
        ensures
            prepared(self.canister_cell(), "insert"@, (value,), r),
    ;
}

/// Insertion against a peer holding an externally-keyed store.
pub trait StorageClientInsertableByKey<
    K: StorageKey,
    V: Clone,
    F: Filter<K, V>,
    S: Sorter<K, V>,
>: StorageClient<K, V, F, S> {
    /// The request to insert a value under the given key.
    fn insert(&self, key: K, value: V) -> (r: CanisterResult<PeerRequest<(K, V)>>)
        ensures
            prepared(self.canister_cell(), "insert"@, (key, value), r),
    ;
}

} // verus!
