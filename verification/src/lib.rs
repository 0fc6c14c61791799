//! On-disk layout of a version-control repository's control store: locating
//! the repository root from a working directory, materializing the standard
//! internal structure, and persisting compressed content under a content path.
//!
//! The library itself never touches the filesystem. Every operation that
//! depends on what is on disk takes the relevant probe results as plain
//! values (a [`repository::NodeKind`], a flag) and returns either the answer
//! or a plan of actions for an unverified shell to carry out.

pub mod codec;
pub mod discover;
pub mod errors;
pub mod paths;
pub mod repository;
