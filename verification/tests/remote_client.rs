//! The remote storage client: address resolution, request preparation and
//! response mapping.

use canister_storage::api_error::{ApiError, ApiErrorKind, CanisterResult};
use canister_storage::cell::{CellStorage, GenericCellStorage};
use canister_storage::client::{resolve_response, StorageClient, StorageClientInsertable};
use canister_storage::models::group_with_members::{GroupFilter, GroupWithMembers};
use canister_storage::principal::PrincipalId;
use canister_storage::storage_clients::groups;

fn peer() -> PrincipalId {
    PrincipalId::from_bytes(vec![9, 9, 9])
}

#[test]
fn unset_peer_address_fails_with_not_found_before_any_request_exists() {
    let cell: GenericCellStorage<PrincipalId> = GenericCellStorage::new("group_canister", None);
    let client = groups(cell);
    let err = client.size().unwrap_err();
    assert_eq!(err.kind, ApiErrorKind::NotFound);
    let err = client.get(1).unwrap_err();
    assert_eq!(err.kind, ApiErrorKind::NotFound);
    let err = client.get_all().unwrap_err();
    assert_eq!(err.kind, ApiErrorKind::NotFound);
    let err = client.remove(1).unwrap_err();
    assert_eq!(err.kind, ApiErrorKind::NotFound);
}

#[test]
fn a_set_peer_address_yields_a_typed_request() {
    let cell = GenericCellStorage::new("group_canister", Some(peer()));
    let client = groups(cell);
    assert_eq!(client.name(), "group");

    let request = client.size().unwrap();
    assert_eq!(request.method, "size");
    assert_eq!(request.canister_id.as_bytes(), peer().as_bytes());

    let request = client.get(7).unwrap();
    assert_eq!(request.method, "get");
    assert_eq!(request.args, (7,));

    let request = client.remove_many(vec![1, 2]).unwrap();
    assert_eq!(request.method, "remove_many");
    assert_eq!(request.args.0, vec![1, 2]);

    let request = client.find(vec![GroupFilter::Any]).unwrap();
    assert_eq!(request.method, "find");
    assert_eq!(request.args.0.len(), 1);
}

#[test]
fn insert_request_names_the_insert_method() {
    let cell = GenericCellStorage::new("group_canister", Some(peer()));
    let client = groups(cell);
    let group = GroupWithMembers::default();
    let request = client.insert(group).unwrap();
    assert_eq!(request.method, "insert");
}

#[test]
fn cell_storage_set_then_get_round_trips() {
    let mut cell: GenericCellStorage<u64> = GenericCellStorage::new("slot", None);
    assert_eq!(cell.get().unwrap_err().kind, ApiErrorKind::NotFound);
    cell.set(42);
    assert_eq!(cell.get().unwrap(), 42);
    cell.set(43);
    assert_eq!(cell.get().unwrap(), 43);
    assert_eq!(cell.name(), "slot");
}

#[test]
fn transport_failure_becomes_unexpected_with_context() {
    let outcome: Result<CanisterResult<u64>, String> = Err(String::from("connection refused"));
    let err = resolve_response("aaaaa-aa", "size", outcome).unwrap_err();
    assert_eq!(err.kind, ApiErrorKind::Unexpected);
    assert_eq!(err.message.as_deref(), Some("Failed to call canister"));
    assert_eq!(err.method_name.as_deref(), Some("size"));
    assert_eq!(err.info.as_deref(), Some("aaaaa-aa: connection refused"));
}

#[test]
fn peer_reported_failure_passes_through_unchanged() {
    let peer_error = ApiError::duplicate().add_message("Key already exists");
    let outcome: Result<CanisterResult<u64>, String> = Ok(Err(peer_error));
    let err = resolve_response("aaaaa-aa", "insert", outcome).unwrap_err();
    assert_eq!(err.kind, ApiErrorKind::Duplicate);
    assert_eq!(err.message.as_deref(), Some("Key already exists"));
    // not re-wrapped: no transport context was attached
    assert!(err.method_name.is_none());
}

#[test]
fn peer_success_passes_through_unchanged() {
    let outcome: Result<CanisterResult<u64>, String> = Ok(Ok(12));
    assert_eq!(resolve_response("aaaaa-aa", "size", outcome).unwrap(), 12);
}
