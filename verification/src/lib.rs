//! Persistent cache for compiled module artifacts.
//!
//! A content-addressed, version-partitioned on-disk store: artifacts are keyed
//! by a cryptographic checksum of the raw program bytes and live under a
//! directory that encodes the serialization format version together with the
//! build identifier of the execution engine, so that artifacts written under
//! incompatible binary layouts are never read as if they were compatible.
//!
//! The verified core covers checksum rendering, path derivation, construction
//! validation, the outcome mapping of every cache operation, and the
//! entry-level semantics of a versioned cache directory. The surrounding
//! (unverified) runner performs the actual filesystem calls and reports their
//! outcomes back as plain events.

pub mod checksum;
pub mod directory;
pub mod errors;
pub mod file_system_cache;
pub mod query;
