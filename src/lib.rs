//! Branch bookkeeping over a local git repository: listing, checking out,
//! validating, creating and deleting local branches.
//!
//! `branch` holds the value types and the verified listing and naming logic,
//! `repo` the repository handle, and `git_calls` the calls into git2 that
//! the handle relies on, with the contracts they are trusted to meet.
pub mod branch;
pub mod git_calls;
pub mod repo;
