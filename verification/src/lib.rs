//! Registry for a local workspace of projects and their Git repositories.
//!
//! A workspace is a root directory with one embedded database. The library
//! models that database as an in-memory [`store::Store`] with explicit
//! invariants (unique ids, one binding per project and directory type, one
//! seeded row per built-in directory kind), and verifies every registry
//! operation against that model. Git synchronization talks to the on-disk
//! repository through a small set of trusted wrappers and is verified for
//! every outcome those calls can produce.

use vstd::prelude::*;

pub mod dir_type;
pub mod errors;
pub mod ext;
pub mod git;
pub mod gitops;
pub mod preview;
pub mod project;
pub mod recent;
pub mod sort;
pub mod store;
pub mod strutil;
pub mod types;
pub mod watch;
pub mod workspace;

verus! {

/// The fixed cap of the recent-workspaces cache.
pub const RECENT_CAP: usize = 10;

} // verus!
