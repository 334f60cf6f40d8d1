//! The sub-records a profile is composed of.

pub mod profile_documents;
pub mod profile_metadata;
pub mod profile_references;
