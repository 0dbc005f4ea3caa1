//! Retention cleanup for a content store: the decisions of a run that removes
//! files and metadata rows older than a retention window, as a verified state
//! machine that a driver feeds with what storage and the filesystem answer.
pub mod cleaner;
pub mod config;
pub mod cutoff;
pub mod files;
pub mod laws;
