//! A file-backed credential store kept as one JSON object in a well-known
//! file under the user's data directory.
//!
//! The store maps provider identifiers to opaque JSON payloads.  This crate
//! holds the verified logic: path derivation, the read-or-default rule, the
//! backup-then-overwrite rule, and entry removal.  The filesystem itself is
//! represented by [`store::DiskState`], a pair of optional file contents; a
//! host application performs the actual reads and writes.

pub mod errors;
pub mod text;
pub mod paths;
pub mod doc;
pub mod store;
