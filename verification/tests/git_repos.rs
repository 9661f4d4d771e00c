use pm_core::errors::{AppError, GitErrorKind};
use pm_core::git::{compute_dirty, git_repo_clone, git_repo_create, git_repo_list, git_repo_pull,
    git_repo_status_check, git_repo_status_get};
use pm_core::gitops::StatusFlags;
use pm_core::project::{ProjectCreateInput, project_create};
use pm_core::store::{GitRepoRecord, Store};
use pm_core::types::{GitCloneInput, GitRepository, NetworkState};
use pm_core::workspace::{AppState, PathProbe, workspace_init_or_open};

fn probe_ok() -> PathProbe {
    PathProbe { exists: true, is_dir: true, writable: true }
}

fn open_workspace(state: &mut AppState, path: &str) {
    let r = workspace_init_or_open(
        state,
        Vec::new(),
        path.to_string(),
        probe_ok(),
        Store::new(),
    );
    assert!(r.is_ok());
}

fn make_project(state: &mut AppState, name: &str) -> String {
    let input = ProjectCreateInput { name: name.to_string(), description: None, display: None };
    project_create(state, input, false, true).unwrap().id
}

fn clear_flags() -> StatusFlags {
    StatusFlags {
        index_new: false,
        index_modified: false,
        index_deleted: false,
        wt_new: false,
        wt_modified: false,
        wt_deleted: false,
    }
}

#[test]
fn dirty_flag_logic() {
    // An untracked new file in the working tree marks the copy dirty; with
    // no changed entries it is clean.
    assert!(!compute_dirty(&Vec::new()));
    assert!(!compute_dirty(&vec![clear_flags(), clear_flags()]));
    let mut wt_new = clear_flags();
    wt_new.wt_new = true;
    assert!(compute_dirty(&vec![clear_flags(), wt_new]));
    let mut staged = clear_flags();
    staged.index_modified = true;
    assert!(compute_dirty(&vec![staged]));
}

#[test]
fn repo_create_initializes_and_registers() {
    let mut state = AppState::new();
    open_workspace(&mut state, "/tmp");
    let pid = make_project(&mut state, "pm_core_gitc");
    let repo = git_repo_create(&mut state, pid.clone(), "repo".to_string()).unwrap();
    assert_eq!(repo.project_id, pid);
    assert_eq!(repo.name, "repo");
    assert_eq!(repo.path, "/tmp/pm_core_gitc/repo");
    assert_eq!(repo.branch.as_deref(), Some("main"));
    assert!(repo.remote_url.is_none());
    assert!(repo.last_sync_at.is_none());

    let listed = git_repo_list(&state, &pid).unwrap();
    assert_eq!(listed.len(), 1);
    assert_eq!(listed[0].id, repo.id);

    let missing = git_repo_create(&mut state, "no-such-project".to_string(), "x".to_string());
    assert_eq!(missing.err().unwrap(), AppError::NotFound);
}

#[test]
fn repo_create_reports_init_failure() {
    let mut state = AppState::new();
    open_workspace(&mut state, "/dev/null");
    let pid = make_project(&mut state, "sub");
    let r = git_repo_create(&mut state, pid.clone(), "repo".to_string());
    assert_eq!(r.err().unwrap(), AppError::Git(GitErrorKind::InitFailed));
    assert!(git_repo_list(&state, &pid).unwrap().is_empty());
}

#[test]
fn pull_without_origin_reports_remote_not_found() {
    // A repository with no origin remote: the pull fails with
    // RemoteNotFound and the sync timestamp does not move.
    let mut state = AppState::new();
    open_workspace(&mut state, "/tmp");
    let pid = make_project(&mut state, "pm_core_pull");
    let repo = git_repo_create(&mut state, pid.clone(), "repo".to_string()).unwrap();

    let r = git_repo_pull(&mut state, &repo.id);
    assert_eq!(r.err().unwrap(), AppError::Git(GitErrorKind::RemoteNotFound));

    let listed = git_repo_list(&state, &pid).unwrap();
    assert!(listed[0].last_sync_at.is_none());
}

#[test]
fn pull_from_local_remote_succeeds() {
    // Build a local origin with one commit on both default branch names,
    // clone it through the library, and pull: the pull reports success and
    // the sync timestamp moves.
    let mut state = AppState::new();
    open_workspace(&mut state, "/tmp");
    let pid = make_project(&mut state, "pm_core_pull_ok");
    let origin = git_repo_create(&mut state, pid.clone(), "origin_repo".to_string()).unwrap();

    let repo = git2::Repository::open(&origin.path).unwrap();
    let sig = git2::Signature::now("tester", "tester@example.com").unwrap();
    let tree_id = repo.treebuilder(None).unwrap().write().unwrap();
    let tree = repo.find_tree(tree_id).unwrap();
    let head_exists = repo.head().is_ok();
    if !head_exists {
        let commit_id = repo.commit(Some("HEAD"), &sig, &sig, "start", &tree, &[]).unwrap();
        let commit = repo.find_commit(commit_id).unwrap();
        let _ = repo.branch("main", &commit, true);
        let _ = repo.branch("master", &commit, true);
    }
    drop(tree);
    drop(repo);

    let input = GitCloneInput {
        remote_url: origin.path.clone(),
        target_dir_name: "pull_clone".to_string(),
        branch: None,
    };
    let cloned = git_repo_clone(&mut state, pid.clone(), input).unwrap();

    let res = git_repo_pull(&mut state, &cloned.id).unwrap();
    assert!(res.ok);
    assert!(res.synced_at.is_some());
    let listed = git_repo_list(&state, &pid).unwrap();
    let rec = listed.iter().find(|r| r.id == cloned.id).unwrap();
    assert_eq!(rec.last_sync_at, res.synced_at);

    // A freshly cloned, unmodified copy with a tracked upstream is clean
    // and neither ahead nor behind.
    let st = git_repo_status_check(&mut state, &cloned.id).unwrap();
    assert!(!st.dirty);
    assert_eq!(st.ahead, 0);
    assert_eq!(st.behind, 0);
}

#[test]
fn pull_missing_record_is_not_found() {
    let mut state = AppState::new();
    open_workspace(&mut state, "/tmp");
    let r = git_repo_pull(&mut state, &"no-such-repo".to_string());
    assert_eq!(r.err().unwrap(), AppError::NotFound);
}

#[test]
fn status_on_unopenable_path() {
    let mut state = AppState::new();
    open_workspace(&mut state, "/tmp");
    let store = &mut state.active.as_mut().unwrap().store;
    store
        .repo_insert(GitRepository {
            id: "ghost".to_string(),
            project_id: "p".to_string(),
            name: "ghost".to_string(),
            path: "/tmp/pm_core_definitely_missing_repo".to_string(),
            remote_url: None,
            branch: None,
            last_sync_at: None,
            last_status_checked_at: None,
        })
        .unwrap();
    let r = git_repo_status_get(&state, &"ghost".to_string());
    assert_eq!(r.err().unwrap(), AppError::Git(GitErrorKind::RepoOpenError));
    let r = git_repo_status_get(&state, &"never-registered".to_string());
    assert_eq!(r.err().unwrap(), AppError::NotFound);
}

#[test]
fn clone_without_network_and_without_directory_fails() {
    let mut state = AppState::new();
    open_workspace(&mut state, "/tmp");
    let pid = make_project(&mut state, "pm_core_clonefail");
    let input = GitCloneInput {
        remote_url: "https://example.com/r.git".to_string(),
        target_dir_name: "absent".to_string(),
        branch: None,
    };
    let r = git_repo_clone(&mut state, pid.clone(), input);
    assert_eq!(r.err().unwrap(), AppError::Git(GitErrorKind::CloneError));
    assert!(git_repo_list(&state, &pid).unwrap().is_empty());
}

#[test]
fn open_clone_status_scenario() {
    // Open a workspace, create a project, bring a repository in under the
    // clone operation (the clone itself cannot reach the remote, so the
    // existing directory is opened instead), then check its local status:
    // clean, no counts, network unknown.
    let mut state = AppState::new();
    open_workspace(&mut state, "/tmp");
    let pid = make_project(&mut state, "pm_core_scn");
    // Leave a repository at the target so the clone can fall back to it.
    git_repo_create(&mut state, pid.clone(), "repo".to_string()).unwrap();

    let input = GitCloneInput {
        remote_url: "https://example.com/r.git".to_string(),
        target_dir_name: "repo".to_string(),
        branch: None,
    };
    let cloned = git_repo_clone(&mut state, pid.clone(), input).unwrap();
    assert_eq!(cloned.name, "repo");
    assert_eq!(cloned.path, "/tmp/pm_core_scn/repo");
    assert!(cloned.last_sync_at.is_some());

    let st = git_repo_status_get(&state, &cloned.id).unwrap();
    assert_eq!(st.repo_id, cloned.id);
    assert!(!st.dirty);
    assert_eq!(st.ahead, 0);
    assert_eq!(st.behind, 0);
    assert_eq!(st.network, NetworkState::Unknown);
    assert!(st.last_error.is_none());
}

#[test]
fn status_check_persists_snapshot() {
    let mut state = AppState::new();
    open_workspace(&mut state, "/tmp");
    let pid = make_project(&mut state, "pm_core_snap");
    let repo = git_repo_create(&mut state, pid.clone(), "repo".to_string()).unwrap();

    let st = git_repo_status_check(&mut state, &repo.id).unwrap();
    assert!(!st.dirty);
    assert_eq!(st.network, NetworkState::Unknown);

    let store = &state.active.as_ref().unwrap().store;
    let rec: &GitRepoRecord = store
        .repos
        .iter()
        .find(|r| r.repo.id == repo.id)
        .unwrap();
    assert_eq!(
        rec.repo.last_status_checked_at.as_deref(),
        Some(st.last_checked_at.as_str())
    );
    let snap = rec.snapshot.as_ref().unwrap();
    assert!(!snap.dirty);
    assert_eq!(snap.ahead, 0);
    assert_eq!(snap.behind, 0);
    assert_eq!(snap.last_checked_at, st.last_checked_at);
}
