//! Commands over the project registry. Creation is the delicate one: the
//! target directory is claimed on disk before the record is written, and an
//! existing path is rejected before anything changes.

use vstd::prelude::*;
use crate::errors::AppError;
use crate::ext::{fresh_uuid, now_rfc3339};
use crate::sort::{projects_dv, projects_sorted_desc};
use crate::store::{projv_has_id, projv_patched};
use crate::strutil::{check_blank, is_blank, path_join};
use crate::types::{IdeConfig, Project, ProjectDisplay};
use crate::workspace::AppState;

verus! {

/// What a creation takes: the name names both the record and the directory.
pub struct ProjectCreateInput {
    pub name: String,
    pub description: Option<String>,
    pub display: Option<ProjectDisplay>,
}

/// A partial update; absent fields keep their values.
pub struct ProjectUpdateInput {
    pub name: Option<String>,
    pub description: Option<String>,
    pub display: Option<ProjectDisplay>,
    pub ide_override: Option<IdeConfig>,
}

/// All projects of the active workspace, most recently updated first.
pub fn projects_list(state: &AppState) -> (r: Result<Vec<Project>, AppError>)
    ensures
        state.active is None ==> r == Err::<Vec<Project>, AppError>(AppError::NoActiveWorkspace),
        state.active is Some ==> (match r {
            Ok(v) => {
                &&& projects_dv(v@).to_multiset() == projects_dv(
                    state.active->Some_0.store.projects@,
                ).to_multiset()
                &&& projects_sorted_desc(v@)
                &&& v@.len() == state.active->Some_0.store.projects@.len()
            },
            Err(_) => false,
        }),
{
    match &state.active {
        None => Err(AppError::NoActiveWorkspace),
        Some(a) => Ok(a.store.projects_list()),
    }
}

/// Where a project of the given name would live: directly under the active
/// workspace root.
pub fn project_target_path(state: &AppState, name: &String) -> (r: Option<String>)
    ensures
        match state.active {
            Some(a) => match r {
                Some(p) => p@ == a.path@ + seq!['/'] + name@,
                None => false,
            },
            None => r is None,
        },
{
    match &state.active {
        Some(a) => Some(path_join(&a.path, name)),
        None => None,
    }
}

/// Creates a project: requires an open workspace and a non-blank name,
/// refuses a target path that already exists (nothing is written then), and
/// records the project only once its directory was created.
///
/// The caller observes `path_exists` for the target path and, when it may
/// proceed, attempts the directory creation and reports it as `dir_created`.
pub fn project_create(
    state: &mut AppState,
    input: ProjectCreateInput,
    path_exists: bool,
    dir_created: bool,
) -> (r: Result<Project, AppError>)
    requires
        old(state).wf(),
    ensures
        final(state).wf(),
        old(state).active is None ==> r == Err::<Project, AppError>(AppError::NoActiveWorkspace)
            && *final(state) == *old(state),
        old(state).active is Some && is_blank(input.name@) ==> r == Err::<Project, AppError>(
            AppError::Validation,
        ) && *final(state) == *old(state),
        old(state).active is Some && !is_blank(input.name@) && path_exists ==> r == Err::<
            Project,
            AppError,
        >(AppError::AlreadyExists) && *final(state) == *old(state),
        old(state).active is Some && !is_blank(input.name@) && !path_exists && !dir_created ==> r
            == Err::<Project, AppError>(AppError::Filesystem) && *final(state) == *old(state),
        old(state).active is Some && !is_blank(input.name@) && !path_exists && dir_created ==> (
        match r {
            Ok(p) => {
                &&& p.name@ == input.name@
                &&& p.description.deep_view() == input.description.deep_view()
                &&& p.display.deep_view() == input.display.deep_view()
                &&& p.ide_override is None
                &&& p.project_path@ == old(state).active->Some_0.path@ + seq!['/'] + input.name@
                &&& final(state).active is Some
                &&& final(state).active->Some_0.path == old(state).active->Some_0.path
                &&& final(state).active->Some_0.store.projects_v() == old(
                    state,
                ).active->Some_0.store.projects_v().push(p.deep_view())
                &&& final(state).active->Some_0.store.dir_types == old(
                    state,
                ).active->Some_0.store.dir_types
                &&& final(state).active->Some_0.store.project_dirs == old(
                    state,
                ).active->Some_0.store.project_dirs
                &&& final(state).active->Some_0.store.repos == old(state).active->Some_0.store.repos
                &&& final(state).active->Some_0.store.settings == old(
                    state,
                ).active->Some_0.store.settings
                &&& final(state).active->Some_0.store.last_opened == old(
                    state,
                ).active->Some_0.store.last_opened
            },
            // The one failure is a drawn-id collision, which needs a row to
            // collide with: an empty registry is owed success.
            Err(e) => e == AppError::Persistence && old(
                state,
            ).active->Some_0.store.projects_v().len() > 0 && *final(state) == *old(state),
        }),
{
    match &mut state.active {
        None => Err(AppError::NoActiveWorkspace),
        Some(a) => {
            if check_blank(&input.name) {
                return Err(AppError::Validation);
            }
            if path_exists {
                return Err(AppError::AlreadyExists);
            }
            if !dir_created {
                return Err(AppError::Filesystem);
            }
            let id = fresh_uuid();
            let now = now_rfc3339();
            let target = path_join(&a.path, &input.name);
            a.store.project_insert(id, now, input.name, input.description, input.display, target)
        },
    }
}

/// One project by id.
pub fn project_get(state: &AppState, id: &String) -> (r: Result<Project, AppError>)
    ensures
        state.active is None ==> r == Err::<Project, AppError>(AppError::NoActiveWorkspace),
        state.active is Some && !projv_has_id(state.active->Some_0.store.projects_v(), id@) ==> r
            == Err::<Project, AppError>(AppError::NotFound),
        state.active is Some && projv_has_id(state.active->Some_0.store.projects_v(), id@) ==> (
        match r {
            Ok(p) => exists|i: int|
                0 <= i < state.active->Some_0.store.projects_v().len()
                    && state.active->Some_0.store.projects_v()[i].id == id@ && p.deep_view()
                    == state.active->Some_0.store.projects_v()[i],
            Err(_) => false,
        }),
{
    match &state.active {
        None => Err(AppError::NoActiveWorkspace),
        Some(a) => a.store.project_get(id),
    }
}

/// Merges the given fields into one project and refreshes its update
/// timestamp.
pub fn project_update(state: &mut AppState, id: &String, patch: ProjectUpdateInput) -> (r: Result<
    Project,
    AppError,
>)
    requires
        old(state).wf(),
    ensures
        final(state).wf(),
        old(state).active is None ==> r == Err::<Project, AppError>(AppError::NoActiveWorkspace)
            && *final(state) == *old(state),
        old(state).active is Some && !projv_has_id(
            old(state).active->Some_0.store.projects_v(),
            id@,
        ) ==> r == Err::<Project, AppError>(AppError::NotFound) && *final(state) == *old(state),
        old(state).active is Some && projv_has_id(
            old(state).active->Some_0.store.projects_v(),
            id@,
        ) ==> (match r {
            Ok(p) => {
                &&& exists|i: int|
                    {
                        &&& 0 <= i < old(state).active->Some_0.store.projects_v().len()
                        &&& old(state).active->Some_0.store.projects_v()[i].id == id@
                        &&& p.deep_view() == projv_patched(
                            old(state).active->Some_0.store.projects_v()[i],
                            patch.name.deep_view(),
                            patch.description.deep_view(),
                            patch.display.deep_view(),
                            patch.ide_override.deep_view(),
                            p.updated_at@,
                        )
                        &&& final(state).active->Some_0.store.projects_v() == old(
                            state,
                        ).active->Some_0.store.projects_v().update(i, p.deep_view())
                    }
                &&& final(state).active is Some
                &&& final(state).active->Some_0.path == old(state).active->Some_0.path
                &&& final(state).active->Some_0.store.dir_types == old(
                    state,
                ).active->Some_0.store.dir_types
                &&& final(state).active->Some_0.store.project_dirs == old(
                    state,
                ).active->Some_0.store.project_dirs
                &&& final(state).active->Some_0.store.repos == old(state).active->Some_0.store.repos
                &&& final(state).active->Some_0.store.settings == old(
                    state,
                ).active->Some_0.store.settings
                &&& final(state).active->Some_0.store.last_opened == old(
                    state,
                ).active->Some_0.store.last_opened
            },
            Err(_) => false,
        }),
{
    match &mut state.active {
        None => Err(AppError::NoActiveWorkspace),
        Some(a) => {
            let now = now_rfc3339();
            a.store.project_update(
                id,
                patch.name,
                patch.description,
                patch.display,
                patch.ide_override,
                now,
            )
        },
    }
}

/// Deletes one project record; the on-disk directory and its files are
/// deliberately retained.
pub fn project_delete(state: &mut AppState, id: &String) -> (r: Result<(), AppError>)
    requires
        old(state).wf(),
    ensures
        final(state).wf(),
        old(state).active is None ==> r == Err::<(), AppError>(AppError::NoActiveWorkspace)
            && *final(state) == *old(state),
        old(state).active is Some && !projv_has_id(
            old(state).active->Some_0.store.projects_v(),
            id@,
        ) ==> r == Err::<(), AppError>(AppError::NotFound) && *final(state) == *old(state),
        old(state).active is Some && projv_has_id(
            old(state).active->Some_0.store.projects_v(),
            id@,
        ) ==> {
            &&& r == Ok::<(), AppError>(())
            &&& exists|i: int|
                {
                    &&& 0 <= i < old(state).active->Some_0.store.projects_v().len()
                    &&& old(state).active->Some_0.store.projects_v()[i].id == id@
                    &&& final(state).active->Some_0.store.projects_v() == old(
                        state,
                    ).active->Some_0.store.projects_v().remove(i)
                }
            &&& final(state).active is Some
            &&& final(state).active->Some_0.path == old(state).active->Some_0.path
            &&& final(state).active->Some_0.store.dir_types == old(
                state,
            ).active->Some_0.store.dir_types
            &&& final(state).active->Some_0.store.project_dirs == old(
                state,
            ).active->Some_0.store.project_dirs
            &&& final(state).active->Some_0.store.repos == old(state).active->Some_0.store.repos
            &&& final(state).active->Some_0.store.settings == old(
                state,
            ).active->Some_0.store.settings
            &&& final(state).active->Some_0.store.last_opened == old(
                state,
            ).active->Some_0.store.last_opened
        },
{
    match &mut state.active {
        None => Err(AppError::NoActiveWorkspace),
        Some(a) => a.store.project_delete(id),
    }
}

} // verus!
