//! Core of a versioned HTTP API toolkit.
//!
//! An endpoint's shapes over a protocol-version timeline are recorded in a
//! [`metadata::VersionHistory`]; given the set of versions a peer supports,
//! the history resolves which concrete [`metadata::Metadata`] variant applies
//! (or reports that none does) and builds the endpoint URL from it.

pub mod auth;
pub mod error;
pub mod ext;
pub mod metadata;
pub mod url;
