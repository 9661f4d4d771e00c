//! Trusted wrappers around the Git client library. Every call here touches
//! the repository on disk (or the network), so no wrapper promises what
//! comes back; the sync engine is verified over every outcome. Each body
//! makes its calls and converts the results to plain values.

use std::time::{Duration, Instant};
use vstd::prelude::*;

verus! {

#[verifier::external_type_specification]
#[verifier::external_body]
pub struct ExGitRepository(git2::Repository);

#[verifier::external_type_specification]
#[verifier::external_body]
pub struct ExGitStatuses<'a>(git2::Statuses<'a>);

/// The six change bits one status entry can carry; any of them marks the
/// working copy dirty.
#[derive(Debug, Clone, Copy, PartialEq, Eq, Structural)]
pub struct StatusFlags {
    pub index_new: bool,
    pub index_modified: bool,
    pub index_deleted: bool,
    pub wt_new: bool,
    pub wt_modified: bool,
    pub wt_deleted: bool,
}

impl StatusFlags {
    /// Whether any change bit is set.
    pub open spec fn any_set(&self) -> bool {
        self.index_new || self.index_modified || self.index_deleted || self.wt_new
            || self.wt_modified || self.wt_deleted
    }
}

/// How a fetch from one named remote ended.
#[derive(Debug, Clone, Copy, PartialEq, Eq, Structural)]
pub enum FetchOutcome {
    /// The repository has no remote of that name.
    NoRemote,
    /// The remote exists but fetching from it failed.
    FetchFailed,
    /// The fetch completed.
    Fetched,
}

/// Relies on git2::Repository::init: creates an empty repository at the
/// path. Whether it succeeds depends on the disk; nothing is promised.
#[verifier::external_body]
pub(crate) fn git_init(path: &String) -> (r: Result<(), String>) {
    match git2::Repository::init(path.as_str()) {
        Ok(_) => Ok(()),
        Err(e) => Err(e.message().to_string()),
    }
}

/// Relies on git2::Repository::clone: clones the remote URL into the path.
/// Whether it succeeds depends on the disk and the network; nothing is
/// promised.
#[verifier::external_body]
pub(crate) fn git_clone(url: &String, path: &String) -> (r: Result<(), String>) {
    match git2::Repository::clone(url.as_str(), path.as_str()) {
        Ok(_) => Ok(()),
        Err(e) => Err(e.message().to_string()),
    }
}

/// Relies on git2::Repository::open: opens the repository at the path.
/// Whether it succeeds depends on the disk; nothing is promised.
#[verifier::external_body]
pub(crate) fn git_open(path: &String) -> (r: Result<git2::Repository, String>) {
    match git2::Repository::open(path.as_str()) {
        Ok(repo) => Ok(repo),
        Err(e) => Err(e.message().to_string()),
    }
}

/// Relies on git2::Repository::head and git2::Reference::shorthand: the
/// short name of the current branch, if the head resolves to one. The value
/// depends on the repository on disk; nothing is promised.
#[verifier::external_body]
pub(crate) fn git_head_branch(repo: &git2::Repository) -> (r: Option<String>) {
    repo.head().ok().and_then(|h| h.shorthand().ok().map(|s| s.to_string()))
}

/// Relies on git2::Repository::remotes, git2::Repository::find_remote and
/// git2::Remote::url: the URL of the first configured remote, if any. The
/// value depends on the repository on disk; nothing is promised.
#[verifier::external_body]
pub(crate) fn git_first_remote_url(repo: &git2::Repository) -> (r: Option<String>) {
    repo.remotes().ok().and_then(|names| {
        names.iter().next().and_then(|first| first.ok()).flatten().and_then(|name| {
            repo.find_remote(name).ok().and_then(|remote| remote.url().ok().map(|u| u.to_string()))
        })
    })
}

/// Relies on git2::Repository::find_remote and git2::Remote::fetch, with
/// git2::Cred::default as the credential callback and a transfer-progress
/// callback that aborts once the given deadline has passed (at the next
/// progress report), so a hung transfer surfaces as a failed fetch instead
/// of blocking forever. A timeout too large to represent as an instant
/// means no deadline. The outcome depends on the disk and the network;
/// nothing is promised.
#[verifier::external_body]
pub(crate) fn git_fetch_remote(
    repo: &git2::Repository,
    name: &String,
    refspecs: &Vec<String>,
    timeout_secs: u64,
) -> (r: FetchOutcome) {
    let mut remote = match repo.find_remote(name.as_str()) {
        Ok(rem) => rem,
        Err(_) => return FetchOutcome::NoRemote,
    };
    let deadline = Instant::now().checked_add(Duration::from_secs(timeout_secs));
    let mut callbacks = git2::RemoteCallbacks::new();
    callbacks.credentials(|_url, _username, _allowed| git2::Cred::default());
    callbacks.transfer_progress(move |_| deadline.map_or(true, |d| Instant::now() < d));
    let mut opts = git2::FetchOptions::new();
    opts.remote_callbacks(callbacks);
    match remote.fetch(refspecs, Some(&mut opts), None) {
        Ok(()) => FetchOutcome::Fetched,
        Err(_) => FetchOutcome::FetchFailed,
    }
}

/// Relies on git2::Repository::head, git2::Reference::target and
/// git2::Reference::shorthand, git2::Repository::find_branch,
/// git2::Branch::upstream and git2::Repository::graph_ahead_behind: how many
/// commits the current branch is ahead of and behind its configured
/// upstream, when both resolve. The value depends on the repository on
/// disk; nothing is promised.
#[verifier::external_body]
pub(crate) fn git_ahead_behind(repo: &git2::Repository) -> (r: Option<(i32, i32)>) {
    let head = repo.head().ok()?;
    let local = head.target()?;
    let name = head.shorthand().ok()?;
    let branch = repo.find_branch(name, git2::BranchType::Local).ok()?;
    let upstream = branch.upstream().ok()?.get().target()?;
    let (a, b) = repo.graph_ahead_behind(local, upstream).ok()?;
    Some((a.try_into().unwrap_or(i32::MAX), b.try_into().unwrap_or(i32::MAX)))
}

/// Relies on git2::Repository::statuses with default options: the status
/// entries of index and working tree. The value depends on the repository
/// on disk; nothing is promised.
#[verifier::external_body]
pub(crate) fn git_statuses<'r>(repo: &'r git2::Repository) -> (r: Result<
    git2::Statuses<'r>,
    String,
>) {
    match repo.statuses(None) {
        Ok(st) => Ok(st),
        Err(e) => Err(e.message().to_string()),
    }
}

/// Relies on git2::Statuses::len: how many entries the listing holds.
#[verifier::external_body]
pub(crate) fn git_statuses_len(s: &git2::Statuses<'_>) -> (r: usize) {
    s.len()
}

/// Relies on git2::Statuses::get and git2::StatusEntry::status: the change
/// bits of one entry, all clear when the index is out of range.
#[verifier::external_body]
pub(crate) fn git_status_flags_at(s: &git2::Statuses<'_>, i: usize) -> (r: StatusFlags) {
    let st = s.get(i).map(|e| e.status()).unwrap_or(git2::Status::empty());
    StatusFlags {
        index_new: st.is_index_new(),
        index_modified: st.is_index_modified(),
        index_deleted: st.is_index_deleted(),
        wt_new: st.is_wt_new(),
        wt_modified: st.is_wt_modified(),
        wt_deleted: st.is_wt_deleted(),
    }
}

} // verus!
