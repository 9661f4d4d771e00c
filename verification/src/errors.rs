//! Typed errors for every registry and sync operation.
//!
//! No operation panics for data or Git errors: each returns one of these
//! kinds, and each kind carries a fixed human-readable message.

use vstd::prelude::*;

verus! {

/// Sub-reason of a Git failure: which step of open/init/clone/fetch failed.
#[derive(Clone, Copy, Debug, PartialEq, Eq, Structural)]
pub enum GitErrorKind {
    /// Initializing an empty repository on disk failed.
    InitFailed,
    /// Neither cloning from the remote nor opening an existing directory succeeded.
    CloneError,
    /// The repository at the recorded path could not be opened.
    RepoOpenError,
    /// The repository has no remote with the requested name.
    RemoteNotFound,
    /// The remote was found but fetching from it failed.
    FetchFailed,
}

/// The error kinds an operation can report.
#[derive(Clone, Copy, Debug, PartialEq, Eq, Structural)]
pub enum AppError {
    /// Bad or missing input (blank name, invalid workspace path).
    Validation,
    /// An id or path was not found where one was required.
    NotFound,
    /// The target path already exists on disk.
    AlreadyExists,
    /// The operation requires an open workspace and none is active.
    NoActiveWorkspace,
    /// A store write could not be completed (an id collision).
    Persistence,
    /// A directory could not be created, removed or probed.
    Filesystem,
    /// A Git step failed; the kind says which.
    Git(GitErrorKind),
    /// A best-effort network step failed; the result degrades, it does not abort.
    NetworkUnreachable,
}

impl GitErrorKind {
    /// The message each kind carries.
    pub open spec fn message_spec(&self) -> Seq<char> {
        match self {
            GitErrorKind::InitFailed => "failed to initialize git repository"@,
            GitErrorKind::CloneError => "failed to clone or open repository"@,
            GitErrorKind::RepoOpenError => "failed to open repository"@,
            GitErrorKind::RemoteNotFound => "remote not found"@,
            GitErrorKind::FetchFailed => "failed to fetch from remote"@,
        }
    }

    /// The fixed human-readable message for this kind.
    pub fn message(&self) -> (r: String)
        ensures
            r@ == self.message_spec(),
    {
        match self {
            GitErrorKind::InitFailed => "failed to initialize git repository".to_owned(),
            GitErrorKind::CloneError => "failed to clone or open repository".to_owned(),
            GitErrorKind::RepoOpenError => "failed to open repository".to_owned(),
            GitErrorKind::RemoteNotFound => "remote not found".to_owned(),
            GitErrorKind::FetchFailed => "failed to fetch from remote".to_owned(),
        }
    }
}

impl AppError {
    /// The message each error carries.
    pub open spec fn message_spec(&self) -> Seq<char> {
        match self {
            AppError::Validation => "invalid or missing input"@,
            AppError::NotFound => "not found"@,
            AppError::AlreadyExists => "target path already exists"@,
            AppError::NoActiveWorkspace => "no workspace is open"@,
            AppError::Persistence => "store write failed"@,
            AppError::Filesystem => "filesystem operation failed"@,
            AppError::Git(k) => k.message_spec(),
            AppError::NetworkUnreachable => "network unreachable"@,
        }
    }

    /// The fixed human-readable message for this error.
    pub fn message(&self) -> (r: String)
        ensures
            r@ == self.message_spec(),
    {
        match self {
            AppError::Validation => "invalid or missing input".to_owned(),
            AppError::NotFound => "not found".to_owned(),
            AppError::AlreadyExists => "target path already exists".to_owned(),
            AppError::NoActiveWorkspace => "no workspace is open".to_owned(),
            AppError::Persistence => "store write failed".to_owned(),
            AppError::Filesystem => "filesystem operation failed".to_owned(),
            AppError::Git(k) => k.message(),
            AppError::NetworkUnreachable => "network unreachable".to_owned(),
        }
    }
}

} // verus!
