//! Checksum-gated conditional reinstall pipeline.
//!
//! Tracks a registry of dependency-manifest files, each paired with the
//! install command that must run when the file's content changes across a
//! branch switch. The pipeline fingerprints every manifest before the
//! switch, re-fingerprints afterwards, and asks for an install run only
//! where the digest changed, collecting per-manifest failures without
//! letting one broken installer abort the others.

pub mod command;
pub mod digest;
pub mod manifest;
pub mod pipeline;
pub mod registry;
