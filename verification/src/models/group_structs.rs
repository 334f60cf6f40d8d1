//! The sub-records a group can be composed of.

pub mod group_metadata;
pub mod group_privacy;
pub mod group_references;
