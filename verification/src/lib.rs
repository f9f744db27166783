//! Startup checks for a service that keeps its data under a fixed directory
//! layout: which required directories are in order, which must be created,
//! and which children of the version directory are usable API versions.
//!
//! The library decides; it never touches the disk. Callers hand it what they
//! observed and carry out what it asks for.

pub mod errors;
pub mod layout;
pub mod pattern;
pub mod severity;
pub mod versions;
