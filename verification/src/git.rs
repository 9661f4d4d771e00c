//! The Git synchronization engine: local initialization, cloning with a
//! fallback to an existing directory, pulling from the origin remote, and
//! status snapshots. Every call into the Git library goes through the
//! trusted wrappers; the engine is verified for every outcome they can
//! produce, and no failed operation moves the registry.

use vstd::prelude::*;
use crate::errors::{AppError, GitErrorKind};
use crate::ext::{fresh_uuid, now_rfc3339, path_exists};
use crate::gitops::{
    FetchOutcome, StatusFlags, git_ahead_behind, git_clone, git_fetch_remote, git_first_remote_url,
    git_head_branch, git_init, git_open, git_status_flags_at, git_statuses, git_statuses_len,
};
use crate::store::{GitRepoRecordV, GitStatusSnapshot, GitStatusSnapshotV, repov_has_id, repos_of_project, projv_has_id};
use crate::strutil::path_join;
use crate::types::{
    GitCloneInput, GitPullResult, GitRepoStatus, GitRepository, GitRepositoryV, NetworkState,
};
use crate::workspace::AppState;

verus! {

/// How long a fetch may run before the transfer is abandoned and reported
/// as a recoverable failure.
pub const FETCH_TIMEOUT_SECS: u64 = 30;

/// A working copy is dirty when any entry carries any change bit, in the
/// index or in the working tree.
pub open spec fn dirty_of(flags: Seq<StatusFlags>) -> bool {
    exists|i: int| 0 <= i < flags.len() && flags[i].any_set()
}

/// Decides dirtiness from the collected change bits.
pub fn compute_dirty(flags: &Vec<StatusFlags>) -> (r: bool)
    ensures
        r == dirty_of(flags@),
{
    let mut i: usize = 0;
    while i < flags.len()
        invariant
            i <= flags@.len(),
            forall|t: int| 0 <= t < i ==> !(#[trigger] flags@[t].any_set()),
        decreases flags@.len() - i,
    {
        let f = flags[i];
        if f.index_new || f.index_modified || f.index_deleted || f.wt_new || f.wt_modified
            || f.wt_deleted {
            assert(flags@[i as int].any_set());
            return true;
        }
        i = i + 1;
    }
    false
}

/// An untracked new file (or any other change bit) marks the working copy
/// dirty; with no change bit anywhere it is clean.
pub proof fn lemma_dirty_flags(flags: Seq<StatusFlags>)
    ensures
        (exists|i: int| 0 <= i < flags.len() && flags[i].wt_new) ==> dirty_of(flags),
        (forall|i: int| 0 <= i < flags.len() ==> !(#[trigger] flags[i].any_set())) ==> !dirty_of(
            flags,
        ),
{
    if exists|i: int| 0 <= i < flags.len() && flags[i].wt_new {
        let i = choose|i: int| 0 <= i < flags.len() && flags[i].wt_new;
        assert(flags[i].any_set());
    }
}

/// Reads every status entry's change bits into plain values.
fn collect_status_flags(st: &git2::Statuses<'_>) -> Vec<StatusFlags> {
    let n = git_statuses_len(st);
    let mut flags: Vec<StatusFlags> = Vec::new();
    let mut i: usize = 0;
    while i < n
        decreases n - i,
    {
        flags.push(git_status_flags_at(st, i));
        i = i + 1;
    }
    flags
}

/// The repositories registered under one project.
pub fn git_repo_list(state: &AppState, project_id: &String) -> (r: Result<
    Vec<GitRepository>,
    AppError,
>)
    ensures
        state.active is None ==> r == Err::<Vec<GitRepository>, AppError>(
            AppError::NoActiveWorkspace,
        ),
        state.active is Some ==> (match r {
            Ok(v) => v.deep_view() == repos_of_project(
                state.active->Some_0.store.repos_v(),
                project_id@,
            ),
            Err(_) => false,
        }),
{
    match &state.active {
        None => Err(AppError::NoActiveWorkspace),
        Some(a) => Ok(a.store.git_repo_list(project_id)),
    }
}

/// Initializes an empty repository under the project and registers it with
/// the default branch name and no remote. Nothing is registered when the
/// initialization on disk fails.
pub fn git_repo_create(state: &mut AppState, project_id: String, name: String) -> (r: Result<
    GitRepository,
    AppError,
>)
    requires
        old(state).wf(),
    ensures
        final(state).wf(),
        old(state).active is None ==> r == Err::<GitRepository, AppError>(
            AppError::NoActiveWorkspace,
        ) && *final(state) == *old(state),
        old(state).active is Some && !projv_has_id(
            old(state).active->Some_0.store.projects_v(),
            project_id@,
        ) ==> r == Err::<GitRepository, AppError>(AppError::NotFound) && *final(state) == *old(
            state,
        ),
        old(state).active is Some && projv_has_id(
            old(state).active->Some_0.store.projects_v(),
            project_id@,
        ) ==> (match r {
            Ok(repo) => {
                &&& repo.project_id@ == project_id@
                &&& repo.name@ == name@
                &&& exists|i: int|
                    0 <= i < old(state).active->Some_0.store.projects_v().len() && old(
                        state,
                    ).active->Some_0.store.projects_v()[i].id == project_id@ && repo.path@ == old(
                        state,
                    ).active->Some_0.store.projects_v()[i].project_path + seq!['/'] + name@
                &&& repo.remote_url is None
                &&& repo.branch.deep_view() == Some("main"@)
                &&& repo.last_sync_at is None
                &&& repo.last_status_checked_at is None
                &&& final(state).active is Some
                &&& final(state).active->Some_0.path == old(state).active->Some_0.path
                &&& final(state).active->Some_0.store.repos_v() == old(
                    state,
                ).active->Some_0.store.repos_v().push(
                    (GitRepoRecordV { repo: repo.deep_view(), snapshot: None }),
                )
                &&& final(state).active->Some_0.store.projects == old(
                    state,
                ).active->Some_0.store.projects
                &&& final(state).active->Some_0.store.dir_types == old(
                    state,
                ).active->Some_0.store.dir_types
                &&& final(state).active->Some_0.store.project_dirs == old(
                    state,
                ).active->Some_0.store.project_dirs
                &&& final(state).active->Some_0.store.settings == old(
                    state,
                ).active->Some_0.store.settings
                &&& final(state).active->Some_0.store.last_opened == old(
                    state,
                ).active->Some_0.store.last_opened
            },
            Err(e) => (e == AppError::Git(GitErrorKind::InitFailed) || e == AppError::Persistence)
                && *final(state) == *old(state),
        }),
{
    match &mut state.active {
        None => Err(AppError::NoActiveWorkspace),
        Some(a) => {
            let project = match a.store.project_get(&project_id) {
                Ok(p) => p,
                Err(e) => {
                    return Err(e);
                },
            };
            let repo_path = path_join(&project.project_path, &name);
            match git_init(&repo_path) {
                Err(_) => Err(AppError::Git(GitErrorKind::InitFailed)),
                Ok(()) => {
                    let id = fresh_uuid();
                    let repo = GitRepository {
                        id: id,
                        project_id: project_id,
                        name: name,
                        path: repo_path,
                        remote_url: None,
                        branch: Some("main".to_owned()),
                        last_sync_at: None,
                        last_status_checked_at: None,
                    };
                    let out = repo.clone();
                    match a.store.repo_insert(repo) {
                        Ok(()) => Ok(out),
                        Err(e) => Err(e),
                    }
                },
            }
        },
    }
}

/// Clones a remote into a directory under the project and registers the
/// result. When the clone fails but the target directory already exists,
/// the directory is opened as an existing repository instead; only when
/// neither works does the operation fail, and then nothing is registered.
pub fn git_repo_clone(state: &mut AppState, project_id: String, input: GitCloneInput) -> (r:
    Result<GitRepository, AppError>)
    requires
        old(state).wf(),
    ensures
        final(state).wf(),
        old(state).active is None ==> r == Err::<GitRepository, AppError>(
            AppError::NoActiveWorkspace,
        ) && *final(state) == *old(state),
        old(state).active is Some && !projv_has_id(
            old(state).active->Some_0.store.projects_v(),
            project_id@,
        ) ==> r == Err::<GitRepository, AppError>(AppError::NotFound) && *final(state) == *old(
            state,
        ),
        old(state).active is Some && projv_has_id(
            old(state).active->Some_0.store.projects_v(),
            project_id@,
        ) ==> (match r {
            Ok(repo) => {
                &&& repo.project_id@ == project_id@
                &&& repo.name@ == input.target_dir_name@
                &&& exists|i: int|
                    0 <= i < old(state).active->Some_0.store.projects_v().len() && old(
                        state,
                    ).active->Some_0.store.projects_v()[i].id == project_id@ && repo.path@ == old(
                        state,
                    ).active->Some_0.store.projects_v()[i].project_path + seq!['/']
                        + input.target_dir_name@
                &&& repo.last_sync_at is Some
                &&& repo.last_status_checked_at is None
                &&& final(state).active is Some
                &&& final(state).active->Some_0.path == old(state).active->Some_0.path
                &&& final(state).active->Some_0.store.repos_v() == old(
                    state,
                ).active->Some_0.store.repos_v().push(
                    (GitRepoRecordV { repo: repo.deep_view(), snapshot: None }),
                )
                &&& final(state).active->Some_0.store.projects == old(
                    state,
                ).active->Some_0.store.projects
                &&& final(state).active->Some_0.store.dir_types == old(
                    state,
                ).active->Some_0.store.dir_types
                &&& final(state).active->Some_0.store.project_dirs == old(
                    state,
                ).active->Some_0.store.project_dirs
                &&& final(state).active->Some_0.store.settings == old(
                    state,
                ).active->Some_0.store.settings
                &&& final(state).active->Some_0.store.last_opened == old(
                    state,
                ).active->Some_0.store.last_opened
            },
            Err(e) => (e == AppError::Git(GitErrorKind::CloneError) || e == AppError::Persistence)
                && *final(state) == *old(state),
        }),
{
    match &mut state.active {
        None => Err(AppError::NoActiveWorkspace),
        Some(a) => {
            let project = match a.store.project_get(&project_id) {
                Ok(p) => p,
                Err(e) => {
                    return Err(e);
                },
            };
            let repo_path = path_join(&project.project_path, &input.target_dir_name);
            match git_clone(&input.remote_url, &repo_path) {
                Ok(()) => {},
                Err(_) => {
                    // A leftover directory from an earlier attempt is opened
                    // instead of re-cloned; a missing one is a failed clone.
                    if !path_exists(&repo_path) {
                        return Err(AppError::Git(GitErrorKind::CloneError));
                    }
                },
            }
            let repo = match git_open(&repo_path) {
                Ok(repo) => repo,
                Err(_) => {
                    return Err(AppError::Git(GitErrorKind::CloneError));
                },
            };
            let branch = git_head_branch(&repo);
            let remote_url = git_first_remote_url(&repo);
            let id = fresh_uuid();
            let now = now_rfc3339();
            let record = GitRepository {
                id: id,
                project_id: project_id,
                name: input.target_dir_name,
                path: repo_path,
                remote_url: remote_url,
                branch: branch,
                last_sync_at: Some(now),
                last_status_checked_at: None,
            };
            let out = record.clone();
            match a.store.repo_insert(record) {
                Ok(()) => Ok(out),
                Err(e) => Err(e),
            }
        },
    }
}

/// Pulls one repository: opens it at its recorded path, fetches the default
/// branches from its origin remote, and marks it synchronized. A repository
/// without an origin remote is reported as such, and no failure of any step
/// moves the registry or the sync timestamp.
pub fn git_repo_pull(state: &mut AppState, repo_id: &String) -> (r: Result<GitPullResult, AppError>)
    requires
        old(state).wf(),
    ensures
        final(state).wf(),
        r is Err ==> *final(state) == *old(state),
        old(state).active is None ==> r == Err::<GitPullResult, AppError>(
            AppError::NoActiveWorkspace,
        ),
        old(state).active is Some && !repov_has_id(
            old(state).active->Some_0.store.repos_v(),
            repo_id@,
        ) ==> r == Err::<GitPullResult, AppError>(AppError::NotFound),
        old(state).active is Some && repov_has_id(
            old(state).active->Some_0.store.repos_v(),
            repo_id@,
        ) ==> (match r {
            Ok(res) => {
                &&& res.ok == true
                &&& res.message is Some
                &&& res.synced_at is Some
                &&& final(state).active is Some
                &&& final(state).active->Some_0.path == old(state).active->Some_0.path
                &&& exists|i: int|
                    {
                        &&& 0 <= i < old(state).active->Some_0.store.repos_v().len()
                        &&& old(state).active->Some_0.store.repos_v()[i].repo.id == repo_id@
                        &&& final(state).active->Some_0.store.repos_v() == old(
                            state,
                        ).active->Some_0.store.repos_v().update(
                            i,
                            (GitRepoRecordV {
                                repo: GitRepositoryV {
                                    last_sync_at: res.synced_at.deep_view(),
                                    ..old(state).active->Some_0.store.repos_v()[i].repo
                                },
                                snapshot: old(state).active->Some_0.store.repos_v()[i].snapshot,
                            }),
                        )
                    }
                &&& final(state).active->Some_0.store.projects == old(
                    state,
                ).active->Some_0.store.projects
                &&& final(state).active->Some_0.store.dir_types == old(
                    state,
                ).active->Some_0.store.dir_types
                &&& final(state).active->Some_0.store.project_dirs == old(
                    state,
                ).active->Some_0.store.project_dirs
                &&& final(state).active->Some_0.store.settings == old(
                    state,
                ).active->Some_0.store.settings
                &&& final(state).active->Some_0.store.last_opened == old(
                    state,
                ).active->Some_0.store.last_opened
            },
            Err(e) => e == AppError::Git(GitErrorKind::RepoOpenError) || e == AppError::Git(
                GitErrorKind::RemoteNotFound,
            ) || e == AppError::Git(GitErrorKind::FetchFailed),
        }),
{
    match &mut state.active {
        None => Err(AppError::NoActiveWorkspace),
        Some(a) => {
            let record = match a.store.repo_get(repo_id) {
                Ok(repo) => repo,
                Err(e) => {
                    return Err(e);
                },
            };
            let repo = match git_open(&record.path) {
                Ok(repo) => repo,
                Err(_) => {
                    return Err(AppError::Git(GitErrorKind::RepoOpenError));
                },
            };
            let origin = "origin".to_owned();
            let mut refspecs: Vec<String> = Vec::new();
            refspecs.push("main".to_owned());
            refspecs.push("master".to_owned());
            match git_fetch_remote(&repo, &origin, &refspecs, FETCH_TIMEOUT_SECS) {
                FetchOutcome::NoRemote => Err(AppError::Git(GitErrorKind::RemoteNotFound)),
                FetchOutcome::FetchFailed => Err(AppError::Git(GitErrorKind::FetchFailed)),
                FetchOutcome::Fetched => {
                    let now = now_rfc3339();
                    match a.store.repo_set_synced(repo_id, &now) {
                        Ok(()) => {
                            proof {
                                reveal_strlit("pull completed");
                            }
                            Ok(GitPullResult {
                                ok: true,
                                message: Some("pull completed".to_owned()),
                                synced_at: Some(now),
                            })
                        },
                        Err(e) => Err(e),
                    }
                },
            }
        },
    }
}

/// The local status of one repository: current branch and dirtiness read
/// from the working copy, counts and network state left unknown. Nothing is
/// persisted and nothing in the state moves.
pub fn git_repo_status_get(state: &AppState, repo_id: &String) -> (r: Result<
    GitRepoStatus,
    AppError,
>)
    ensures
        state.active is None ==> r == Err::<GitRepoStatus, AppError>(AppError::NoActiveWorkspace),
        state.active is Some && !repov_has_id(state.active->Some_0.store.repos_v(), repo_id@) ==> r
            == Err::<GitRepoStatus, AppError>(AppError::NotFound),
        state.active is Some && repov_has_id(state.active->Some_0.store.repos_v(), repo_id@) ==> (
        match r {
            Ok(st) => {
                &&& st.repo_id@ == repo_id@
                &&& st.ahead == 0
                &&& st.behind == 0
                &&& st.network == NetworkState::Unknown
                &&& st.last_error is None
            },
            Err(e) => e == AppError::Git(GitErrorKind::RepoOpenError),
        }),
{
    match &state.active {
        None => Err(AppError::NoActiveWorkspace),
        Some(a) => {
            let record = match a.store.repo_get(repo_id) {
                Ok(repo) => repo,
                Err(e) => {
                    return Err(e);
                },
            };
            let repo = match git_open(&record.path) {
                Ok(repo) => repo,
                Err(_) => {
                    return Err(AppError::Git(GitErrorKind::RepoOpenError));
                },
            };
            let branch = git_head_branch(&repo);
            let statuses = match git_statuses(&repo) {
                Ok(st) => st,
                Err(_) => {
                    return Err(AppError::Git(GitErrorKind::RepoOpenError));
                },
            };
            let flags = collect_status_flags(&statuses);
            let dirty = compute_dirty(&flags);
            let now = now_rfc3339();
            Ok(GitRepoStatus {
                repo_id: repo_id.clone(),
                branch: branch,
                dirty: dirty,
                ahead: 0,
                behind: 0,
                last_checked_at: now,
                network: NetworkState::Unknown,
                last_error: None,
            })
        },
    }
}

/// Checks one repository's status and persists the snapshot on its record,
/// overwriting the previous one. The ahead/behind counts against the
/// configured upstream are best-effort: when they cannot be resolved they
/// degrade to zero rather than failing the check.
pub fn git_repo_status_check(state: &mut AppState, repo_id: &String) -> (r: Result<
    GitRepoStatus,
    AppError,
>)
    requires
        old(state).wf(),
    ensures
        final(state).wf(),
        r is Err ==> *final(state) == *old(state),
        old(state).active is None ==> r == Err::<GitRepoStatus, AppError>(
            AppError::NoActiveWorkspace,
        ),
        old(state).active is Some && !repov_has_id(
            old(state).active->Some_0.store.repos_v(),
            repo_id@,
        ) ==> r == Err::<GitRepoStatus, AppError>(AppError::NotFound),
        old(state).active is Some && repov_has_id(
            old(state).active->Some_0.store.repos_v(),
            repo_id@,
        ) ==> (match r {
            Ok(st) => {
                &&& st.repo_id@ == repo_id@
                &&& st.network == NetworkState::Unknown
                &&& st.last_error is None
                &&& final(state).active is Some
                &&& final(state).active->Some_0.path == old(state).active->Some_0.path
                &&& exists|i: int|
                    {
                        &&& 0 <= i < old(state).active->Some_0.store.repos_v().len()
                        &&& old(state).active->Some_0.store.repos_v()[i].repo.id == repo_id@
                        &&& final(state).active->Some_0.store.repos_v() == old(
                            state,
                        ).active->Some_0.store.repos_v().update(
                            i,
                            (GitRepoRecordV {
                                repo: GitRepositoryV {
                                    last_status_checked_at: Some(st.last_checked_at@),
                                    ..old(state).active->Some_0.store.repos_v()[i].repo
                                },
                                snapshot: Some(
                                    GitStatusSnapshotV {
                                        dirty: st.dirty,
                                        ahead: st.ahead,
                                        behind: st.behind,
                                        last_checked_at: st.last_checked_at@,
                                    },
                                ),
                            }),
                        )
                    }
                &&& final(state).active->Some_0.store.projects == old(
                    state,
                ).active->Some_0.store.projects
                &&& final(state).active->Some_0.store.dir_types == old(
                    state,
                ).active->Some_0.store.dir_types
                &&& final(state).active->Some_0.store.project_dirs == old(
                    state,
                ).active->Some_0.store.project_dirs
                &&& final(state).active->Some_0.store.settings == old(
                    state,
                ).active->Some_0.store.settings
                &&& final(state).active->Some_0.store.last_opened == old(
                    state,
                ).active->Some_0.store.last_opened
            },
            Err(e) => e == AppError::Git(GitErrorKind::RepoOpenError),
        }),
{
    match &mut state.active {
        None => Err(AppError::NoActiveWorkspace),
        Some(a) => {
            let record = match a.store.repo_get(repo_id) {
                Ok(repo) => repo,
                Err(e) => {
                    return Err(e);
                },
            };
            let repo = match git_open(&record.path) {
                Ok(repo) => repo,
                Err(_) => {
                    return Err(AppError::Git(GitErrorKind::RepoOpenError));
                },
            };
            let branch = git_head_branch(&repo);
            let statuses = match git_statuses(&repo) {
                Ok(st) => st,
                Err(_) => {
                    return Err(AppError::Git(GitErrorKind::RepoOpenError));
                },
            };
            let flags = collect_status_flags(&statuses);
            let dirty = compute_dirty(&flags);
            let counts = git_ahead_behind(&repo);
            let (ahead, behind) = match counts {
                Some(c) => c,
                None => (0, 0),
            };
            let now = now_rfc3339();
            let snap = GitStatusSnapshot {
                dirty: dirty,
                ahead: ahead,
                behind: behind,
                last_checked_at: now.clone(),
            };
            match a.store.repo_set_status(repo_id, &now, snap) {
                Ok(()) => Ok(GitRepoStatus {
                    repo_id: repo_id.clone(),
                    branch: branch,
                    dirty: dirty,
                    ahead: ahead,
                    behind: behind,
                    last_checked_at: now,
                    network: NetworkState::Unknown,
                    last_error: None,
                }),
                Err(e) => Err(e),
            }
        },
    }
}

} // verus!
