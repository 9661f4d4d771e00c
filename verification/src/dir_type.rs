//! Commands over the directory-type taxonomy and the per-project directory
//! bindings, plus resolution of which editor opens a repository.

use vstd::prelude::*;
use crate::errors::AppError;
use crate::ext::{fresh_uuid, now_rfc3339};
use crate::store::{
    DirTypePatch, dtv_has_id, dtv_patched, pdv_find, pdv_new_row, pdv_repointed, pdv_upsert,
    repov_has_id,
};
use crate::types::{DirectoryType, DirectoryTypeKind, IdeConfig, ProjectDirectory};
use crate::workspace::AppState;

verus! {

/// The default position of a new custom directory type.
pub const DEFAULT_SORT_ORDER: i32 = 100;

/// All directory types of the active workspace, ascending by sort order.
pub fn dir_types_list(state: &AppState) -> (r: Result<Vec<DirectoryType>, AppError>)
    ensures
        state.active is None ==> r == Err::<Vec<DirectoryType>, AppError>(
            AppError::NoActiveWorkspace,
        ),
        state.active is Some ==> (match r {
            Ok(v) => {
                &&& v@.to_multiset() == state.active->Some_0.store.dir_types@.to_multiset()
                &&& crate::sort::dts_sorted(v@)
                &&& v@.len() == state.active->Some_0.store.dir_types@.len()
            },
            Err(_) => false,
        }),
{
    match &state.active {
        None => Err(AppError::NoActiveWorkspace),
        Some(a) => Ok(a.store.dir_types_list()),
    }
}

/// Creates a custom directory type in the active workspace. An empty name
/// is invalid; the sort order defaults when not given.
pub fn dir_type_create_custom(
    state: &mut AppState,
    name: String,
    category: Option<String>,
    sort_order: Option<i32>,
) -> (r: Result<DirectoryType, AppError>)
    requires
        old(state).wf(),
    ensures
        final(state).wf(),
        old(state).active is None ==> r == Err::<DirectoryType, AppError>(
            AppError::NoActiveWorkspace,
        ) && *final(state) == *old(state),
        old(state).active is Some && name@.len() == 0 ==> r == Err::<DirectoryType, AppError>(
            AppError::Validation,
        ) && *final(state) == *old(state),
        old(state).active is Some && name@.len() > 0 ==> (match r {
            Ok(dt) => {
                &&& dt.kind == DirectoryTypeKind::Custom
                &&& dt.name@ == name@
                &&& dt.category.deep_view() == category.deep_view()
                &&& dt.sort_order == (match sort_order {
                    Some(o) => o,
                    None => DEFAULT_SORT_ORDER,
                })
                &&& dt.created_at@ == dt.updated_at@
                &&& final(state).active is Some
                &&& final(state).active->Some_0.path == old(state).active->Some_0.path
                &&& final(state).active->Some_0.store.dir_types_v() == old(
                    state,
                ).active->Some_0.store.dir_types_v().push(dt.deep_view())
                &&& final(state).active->Some_0.store.projects == old(
                    state,
                ).active->Some_0.store.projects
                &&& final(state).active->Some_0.store.project_dirs == old(
                    state,
                ).active->Some_0.store.project_dirs
                &&& final(state).active->Some_0.store.repos == old(state).active->Some_0.store.repos
                &&& final(state).active->Some_0.store.settings == old(
                    state,
                ).active->Some_0.store.settings
                &&& final(state).active->Some_0.store.last_opened == old(
                    state,
                ).active->Some_0.store.last_opened
            },
            // The one failure is a drawn-id collision, which needs a row to
            // collide with: an empty taxonomy is owed success.
            Err(e) => e == AppError::Persistence && old(
                state,
            ).active->Some_0.store.dir_types_v().len() > 0 && *final(state) == *old(state),
        }),
{
    match &mut state.active {
        None => Err(AppError::NoActiveWorkspace),
        Some(a) => {
            let id = fresh_uuid();
            let now = now_rfc3339();
            let order = match sort_order {
                Some(o) => o,
                None => DEFAULT_SORT_ORDER,
            };
            a.store.dir_type_create_custom(id, now, name, category, order)
        },
    }
}

/// Partial update of one directory type of the active workspace; the kind
/// never changes.
pub fn dir_type_update(state: &mut AppState, id: &String, patch: DirTypePatch) -> (r: Result<
    DirectoryType,
    AppError,
>)
    requires
        old(state).wf(),
    ensures
        final(state).wf(),
        old(state).active is None ==> r == Err::<DirectoryType, AppError>(
            AppError::NoActiveWorkspace,
        ) && *final(state) == *old(state),
        old(state).active is Some && !dtv_has_id(
            old(state).active->Some_0.store.dir_types_v(),
            id@,
        ) ==> r == Err::<DirectoryType, AppError>(AppError::NotFound) && *final(state) == *old(
            state,
        ),
        old(state).active is Some && dtv_has_id(
            old(state).active->Some_0.store.dir_types_v(),
            id@,
        ) ==> (match r {
            Ok(dt) => {
                &&& exists|i: int|
                    {
                        &&& 0 <= i < old(state).active->Some_0.store.dir_types_v().len()
                        &&& old(state).active->Some_0.store.dir_types_v()[i].id == id@
                        &&& dt.deep_view() == dtv_patched(
                            old(state).active->Some_0.store.dir_types_v()[i],
                            patch.name.deep_view(),
                            patch.category.deep_view(),
                            patch.sort_order,
                            dt.updated_at@,
                        )
                        &&& final(state).active->Some_0.store.dir_types_v() == old(
                            state,
                        ).active->Some_0.store.dir_types_v().update(i, dt.deep_view())
                    }
                &&& final(state).active is Some
                &&& final(state).active->Some_0.path == old(state).active->Some_0.path
                &&& final(state).active->Some_0.store.projects == old(
                    state,
                ).active->Some_0.store.projects
                &&& final(state).active->Some_0.store.project_dirs == old(
                    state,
                ).active->Some_0.store.project_dirs
                &&& final(state).active->Some_0.store.repos == old(state).active->Some_0.store.repos
                &&& final(state).active->Some_0.store.settings == old(
                    state,
                ).active->Some_0.store.settings
                &&& final(state).active->Some_0.store.last_opened == old(
                    state,
                ).active->Some_0.store.last_opened
            },
            Err(_) => false,
        }),
{
    match &mut state.active {
        None => Err(AppError::NoActiveWorkspace),
        Some(a) => {
            let now = now_rfc3339();
            a.store.dir_type_update(id, patch, now)
        },
    }
}

/// The directory bindings of one project, in table order.
pub fn project_dirs_list(state: &AppState, project_id: &String) -> (r: Result<
    Vec<ProjectDirectory>,
    AppError,
>)
    ensures
        state.active is None ==> r == Err::<Vec<ProjectDirectory>, AppError>(
            AppError::NoActiveWorkspace,
        ),
        state.active is Some ==> (match r {
            Ok(v) => v.deep_view() == state.active->Some_0.store.project_dirs_v().filter(
                |pd: crate::types::ProjectDirectoryV| pd.project_id == project_id@,
            ),
            Err(_) => false,
        }),
{
    match &state.active {
        None => Err(AppError::NoActiveWorkspace),
        Some(a) => Ok(a.store.project_dirs_list(project_id)),
    }
}

/// Binds a directory type to a relative path within a project: one row per
/// (project, directory type), updated in place when it already exists.
pub fn project_dir_create_or_update(
    state: &mut AppState,
    project_id: String,
    dir_type_id: String,
    relative_path: String,
) -> (r: Result<ProjectDirectory, AppError>)
    requires
        old(state).wf(),
    ensures
        final(state).wf(),
        old(state).active is None ==> r == Err::<ProjectDirectory, AppError>(
            AppError::NoActiveWorkspace,
        ) && *final(state) == *old(state),
        old(state).active is Some ==> (match r {
            Ok(pd) => {
                &&& pd.project_id@ == project_id@
                &&& pd.dir_type_id@ == dir_type_id@
                &&& pd.relative_path@ == relative_path@
                &&& final(state).active is Some
                &&& final(state).active->Some_0.path == old(state).active->Some_0.path
                &&& final(state).active->Some_0.store.project_dirs_v() == pdv_upsert(
                    old(state).active->Some_0.store.project_dirs_v(),
                    project_id@,
                    dir_type_id@,
                    relative_path@,
                    pd.id@,
                    pd.updated_at@,
                )
                &&& (match pdv_find(
                    old(state).active->Some_0.store.project_dirs_v(),
                    project_id@,
                    dir_type_id@,
                ) {
                    Some(i) => pd.deep_view() == pdv_repointed(
                        old(state).active->Some_0.store.project_dirs_v()[i],
                        relative_path@,
                        pd.updated_at@,
                    ),
                    None => pd.deep_view() == pdv_new_row(
                        pd.id@,
                        project_id@,
                        dir_type_id@,
                        relative_path@,
                        pd.updated_at@,
                    ),
                })
                &&& final(state).active->Some_0.store.projects == old(
                    state,
                ).active->Some_0.store.projects
                &&& final(state).active->Some_0.store.dir_types == old(
                    state,
                ).active->Some_0.store.dir_types
                &&& final(state).active->Some_0.store.repos == old(state).active->Some_0.store.repos
                &&& final(state).active->Some_0.store.settings == old(
                    state,
                ).active->Some_0.store.settings
                &&& final(state).active->Some_0.store.last_opened == old(
                    state,
                ).active->Some_0.store.last_opened
            },
            // Only a fresh-id collision on the insert path can fail: when the
            // binding already exists, the repoint must succeed, and a
            // collision needs a row to collide with.
            Err(e) => e == AppError::Persistence && pdv_find(
                old(state).active->Some_0.store.project_dirs_v(),
                project_id@,
                dir_type_id@,
            ) is None && old(state).active->Some_0.store.project_dirs_v().len() > 0
                && *final(state) == *old(state),
        }),
{
    match &mut state.active {
        None => Err(AppError::NoActiveWorkspace),
        Some(a) => {
            let fresh_id = fresh_uuid();
            let now = now_rfc3339();
            a.store.project_dir_create_or_update(
                project_id,
                dir_type_id,
                relative_path,
                fresh_id,
                now,
            )
        },
    }
}

/// Which editor opens a repository, and where: the explicit choice when one
/// is given, else the workspace's default editor. The repository must be
/// registered; without any editor the request is invalid. The caller starts
/// the process.
pub fn ide_open_resolve(state: &AppState, repo_id: &String, ide: Option<IdeConfig>) -> (r: Result<
    (String, IdeConfig),
    AppError,
>)
    ensures
        state.active is None ==> r == Err::<(String, IdeConfig), AppError>(
            AppError::NoActiveWorkspace,
        ),
        state.active is Some && !repov_has_id(state.active->Some_0.store.repos_v(), repo_id@) ==> r
            == Err::<(String, IdeConfig), AppError>(AppError::NotFound),
        state.active is Some && repov_has_id(state.active->Some_0.store.repos_v(), repo_id@) ==> (
        match r {
            Ok(pair) => {
                &&& exists|i: int|
                    0 <= i < state.active->Some_0.store.repos_v().len()
                        && state.active->Some_0.store.repos_v()[i].repo.id == repo_id@
                        && pair.0@ == state.active->Some_0.store.repos_v()[i].repo.path
                &&& (match ide {
                    Some(chosen) => pair.1.deep_view() == chosen.deep_view(),
                    None => crate::workspace::resolved_settings_v(
                        state.active->Some_0.store.settings.deep_view(),
                    ).default_ide == Some(pair.1.deep_view()),
                })
            },
            Err(e) => e == AppError::Validation && ide is None
                && crate::workspace::resolved_settings_v(
                state.active->Some_0.store.settings.deep_view(),
            ).default_ide is None,
        }),
{
    match &state.active {
        None => Err(AppError::NoActiveWorkspace),
        Some(a) => {
            let repo = match a.store.repo_get(repo_id) {
                Ok(repo) => repo,
                Err(e) => {
                    return Err(e);
                },
            };
            let chosen = match ide {
                Some(c) => c,
                None => {
                    let settings = match &a.store.settings {
                        Some(s) => s.clone(),
                        None => crate::types::WorkspaceSettings::default(),
                    };
                    match settings.default_ide {
                        Some(d) => d,
                        None => {
                            return Err(AppError::Validation);
                        },
                    }
                },
            };
            Ok((repo.path, chosen))
        },
    }
}

} // verus!
