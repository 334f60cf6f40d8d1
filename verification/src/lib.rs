//! A typed, persistent key-value storage engine for canister processes.
//!
//! The crate is organised around a small set of components:
//! a per-kind monotonic id allocator, filter and sorter contracts,
//! a generic storage engine with query, mutation and pagination support,
//! a uniform error taxonomy, and a remote storage client that prepares
//! the same operations for execution against a storage-owning peer.

pub mod api_error;
pub mod assoc;
pub mod cell;
pub mod client;
pub mod date_range;
pub mod entry_map;
pub mod filter;
pub mod guards;
pub mod id_iter;
pub mod keys;
pub mod laws;
pub mod models;
pub mod paged;
pub mod principal;
pub mod sort_direction;
pub mod sorter;
pub mod storage;
pub mod storage_clients;
pub mod text;
