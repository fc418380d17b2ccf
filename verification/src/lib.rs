//! Incremental mirroring of tagged container images into local build
//! artifacts.
//!
//! The crate holds the decisions of a sync run and none of its effects: it
//! derives what has been synced from a directory listing, selects the tags
//! that are new, bounds the first sync of a cold target, and renders one
//! build job per selected tag. Whoever drives it probes and lists
//! directories, fetches registry pages and runs processes, and reports what
//! happened as events.

pub mod text;
pub mod timestamp;
pub mod error;
pub mod scan;
pub mod options;
pub mod docker;
pub mod registry;
pub mod job;
pub mod sync;
pub mod manifest;
pub mod laws;
