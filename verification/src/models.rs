//! Entity records: the typed values the storage engine holds, with their
//! filters and sorters. These are schema definitions that plug into the
//! engine as type parameters; the engine itself is agnostic to them.

pub mod boosted;
pub mod event_with_attendees;
pub mod friend_request;
pub mod group;
pub mod group_structs;
pub mod group_with_members;
pub mod member;
pub mod members;
pub mod notification;
pub mod profile;
pub mod profile_structs;
pub mod profile_with_refs;
pub mod referral;
pub mod referral_info;
pub mod responses;
pub mod role;
pub mod subject;
pub mod support;
pub mod topic;
