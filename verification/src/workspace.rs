//! The workspace registry: one explicit application state object holding the
//! active workspace (its path and its store), swapped whole when another
//! workspace is opened, plus settings resolution and the path of the
//! process-wide recent-workspaces file.

use vstd::prelude::*;
use crate::errors::AppError;
use crate::ext::{config_dir_path, fresh_uuid, now_rfc3339};
use crate::recent::{add_to_recent_workspaces, db_path_of, recent_added};
use crate::store::{Store, seeded};
use crate::types::{
    IdeConfig, IdeConfigV, ThemeMode, WorkspaceInfo, WorkspaceSettings, WorkspaceSettingsV,
};

verus! {

/// The one active workspace: its root path and its open store.
pub struct ActiveWorkspace {
    pub path: String,
    pub store: Store,
}

/// Process-wide application state; at most one workspace is active at a
/// time, and opening another replaces the whole value at once.
pub struct AppState {
    pub active: Option<ActiveWorkspace>,
}

impl AppState {
    /// The state is sound when the active store keeps its invariants.
    pub open spec fn wf(&self) -> bool {
        match self.active {
            Some(a) => a.store.wf(),
            None => true,
        }
    }

    /// The state at startup: no workspace open.
    pub fn new() -> (r: AppState)
        ensures
            r.wf(),
            r.active is None,
    {
        AppState { active: None }
    }
}

/// The root path of the active workspace, if one is open.
pub fn get_workspace_path(state: &AppState) -> (r: Option<String>)
    ensures
        match state.active {
            Some(a) => match r {
                Some(p) => p@ == a.path@,
                None => false,
            },
            None => r is None,
        },
{
    match &state.active {
        Some(a) => Some(a.path.clone()),
        None => None,
    }
}

/// What the caller observed about a workspace path on disk before opening.
#[derive(Debug, Clone, Copy)]
pub struct PathProbe {
    pub exists: bool,
    pub is_dir: bool,
    pub writable: bool,
}

/// The settings in force: the stored blob, or the defaults when none is
/// stored.
pub open spec fn resolved_settings_v(s: Option<WorkspaceSettingsV>) -> WorkspaceSettingsV {
    match s {
        Some(x) => x,
        None => default_settings_v(),
    }
}

pub open spec fn default_settings_v() -> WorkspaceSettingsV {
    WorkspaceSettingsV { theme_mode: ThemeMode::System, custom_theme_id: None, default_ide: None }
}

/// Resolves the store's settings blob to the settings in force.
fn resolved_settings(store: &Store) -> (r: WorkspaceSettings)
    ensures
        r.deep_view() == resolved_settings_v(store.settings.deep_view()),
{
    match &store.settings {
        Some(s) => s.clone(),
        None => WorkspaceSettings::default(),
    }
}

/// Opens or creates the workspace at a path and makes it the active one.
///
/// The caller hands in what only the outside world knows: the path probe,
/// the store loaded from the workspace's database (empty for a fresh one),
/// and the current recent-workspaces cache. An invalid path or an
/// unwritable directory is rejected before anything changes. On success the
/// built-in directory kinds are seeded insert-if-absent and all four are
/// present afterwards, the path moves to the front of the returned cache,
/// and the active workspace is replaced whole. The one other failure is a
/// persistence error, when a drawn id collides and a built-in kind could
/// not be inserted; nothing changes then.
pub fn workspace_init_or_open(
    state: &mut AppState,
    recent: Vec<WorkspaceInfo>,
    path: String,
    probe: PathProbe,
    store: Store,
) -> (r: Result<(WorkspaceInfo, Vec<WorkspaceInfo>), AppError>)
    requires
        old(state).wf(),
        store.wf(),
    ensures
        final(state).wf(),
        !(probe.exists && probe.is_dir) ==> r == Err::<(WorkspaceInfo, Vec<WorkspaceInfo>), AppError>(
            AppError::Validation,
        ) && *final(state) == *old(state),
        probe.exists && probe.is_dir && !probe.writable ==> r == Err::<
            (WorkspaceInfo, Vec<WorkspaceInfo>),
            AppError,
        >(AppError::Filesystem) && *final(state) == *old(state),
        // Reopening an already-seeded workspace is owed success: the seeding
        // is a no-op then, and nothing else can fail.
        probe.exists && probe.is_dir && probe.writable && crate::store::dtv_has_kind(
            store.dir_types.deep_view(),
            crate::types::DirectoryTypeKind::Code,
        ) && crate::store::dtv_has_kind(
            store.dir_types.deep_view(),
            crate::types::DirectoryTypeKind::Docs,
        ) && crate::store::dtv_has_kind(
            store.dir_types.deep_view(),
            crate::types::DirectoryTypeKind::UiDesign,
        ) && crate::store::dtv_has_kind(
            store.dir_types.deep_view(),
            crate::types::DirectoryTypeKind::ProjectPlanning,
        ) ==> r is Ok,
        probe.exists && probe.is_dir && probe.writable ==> (match r {
            Ok(pair) => {
                &&& pair.0.path@ == path@
                &&& pair.0.db_path@ == path@ + "/.app/app.db"@
                &&& pair.0.settings.deep_view() == Some(
                    resolved_settings_v(store.settings.deep_view()),
                )
                &&& pair.0.alias is None
                &&& pair.1.deep_view() == recent_added(
                    recent.deep_view(),
                    path@,
                    pair.0.last_opened_at@,
                    None,
                )
                &&& final(state).active is Some
                &&& final(state).active->Some_0.path@ == path@
                &&& final(state).active->Some_0.store.projects == store.projects
                &&& final(state).active->Some_0.store.project_dirs == store.project_dirs
                &&& final(state).active->Some_0.store.repos == store.repos
                &&& final(state).active->Some_0.store.settings == store.settings
                &&& final(state).active->Some_0.store.last_opened.deep_view() == Some(path@)
                &&& exists|ids: Seq<Seq<char>>|
                    ids.len() == 4 && final(state).active->Some_0.store.dir_types.deep_view()
                        == #[trigger] seeded(
                        store.dir_types.deep_view(),
                        ids,
                        pair.0.last_opened_at@,
                    )
                &&& (crate::store::dtv_has_kind(
                    store.dir_types.deep_view(),
                    crate::types::DirectoryTypeKind::Code,
                ) && crate::store::dtv_has_kind(
                    store.dir_types.deep_view(),
                    crate::types::DirectoryTypeKind::Docs,
                ) && crate::store::dtv_has_kind(
                    store.dir_types.deep_view(),
                    crate::types::DirectoryTypeKind::UiDesign,
                ) && crate::store::dtv_has_kind(
                    store.dir_types.deep_view(),
                    crate::types::DirectoryTypeKind::ProjectPlanning,
                )) ==> final(state).active->Some_0.store.dir_types.deep_view()
                    == store.dir_types.deep_view()
                &&& crate::store::dtv_has_kind(
                    final(state).active->Some_0.store.dir_types_v(),
                    crate::types::DirectoryTypeKind::Code,
                )
                &&& crate::store::dtv_has_kind(
                    final(state).active->Some_0.store.dir_types_v(),
                    crate::types::DirectoryTypeKind::Docs,
                )
                &&& crate::store::dtv_has_kind(
                    final(state).active->Some_0.store.dir_types_v(),
                    crate::types::DirectoryTypeKind::UiDesign,
                )
                &&& crate::store::dtv_has_kind(
                    final(state).active->Some_0.store.dir_types_v(),
                    crate::types::DirectoryTypeKind::ProjectPlanning,
                )
            },
            Err(e) => e == AppError::Persistence && *final(state) == *old(state),
        }),
{
    if !probe.exists || !probe.is_dir {
        return Err(AppError::Validation);
    }
    if !probe.writable {
        return Err(AppError::Filesystem);
    }
    let now = now_rfc3339();
    let mut store = store;
    let ghost dts0 = store.dir_types.deep_view();
    let mut ids: Vec<String> = Vec::new();
    ids.push(fresh_uuid());
    ids.push(fresh_uuid());
    ids.push(fresh_uuid());
    ids.push(fresh_uuid());
    store.seed_defaults(&ids, &now);
    if !(store.has_kind(crate::types::DirectoryTypeKind::Code) && store.has_kind(
        crate::types::DirectoryTypeKind::Docs,
    ) && store.has_kind(crate::types::DirectoryTypeKind::UiDesign) && store.has_kind(
        crate::types::DirectoryTypeKind::ProjectPlanning,
    )) {
        proof {
            // Unreachable when every kind was present: the seeding then
            // changed nothing, and the checks above would all hold.
            if crate::store::dtv_has_kind(dts0, crate::types::DirectoryTypeKind::Code)
                && crate::store::dtv_has_kind(dts0, crate::types::DirectoryTypeKind::Docs)
                && crate::store::dtv_has_kind(dts0, crate::types::DirectoryTypeKind::UiDesign)
                && crate::store::dtv_has_kind(
                dts0,
                crate::types::DirectoryTypeKind::ProjectPlanning,
            ) {
                crate::store::lemma_seed_stable(dts0, ids.deep_view(), now@);
                assert(false);
            }
        }
        // A drawn id collided and blocked an insert: report it rather than
        // activate a workspace missing a built-in kind.
        return Err(AppError::Persistence);
    }
    store.set_last_opened(&path);
    let resolved = resolved_settings(&store);
    let rec2 = add_to_recent_workspaces(recent, path.clone(), now.clone(), None);
    let info = WorkspaceInfo {
        path: path.clone(),
        db_path: db_path_of(&path),
        last_opened_at: now,
        settings: Some(resolved),
        alias: None,
    };
    proof {
        assert(ids.deep_view().len() == 4);
        assert(store.dir_types.deep_view() == seeded(dts0, ids.deep_view(), info.last_opened_at@));
        assert(exists|idsv: Seq<Seq<char>>|
            idsv.len() == 4 && store.dir_types.deep_view() == #[trigger] seeded(
                dts0,
                idsv,
                info.last_opened_at@,
            ));
        if crate::store::dtv_has_kind(dts0, crate::types::DirectoryTypeKind::Code)
            && crate::store::dtv_has_kind(dts0, crate::types::DirectoryTypeKind::Docs)
            && crate::store::dtv_has_kind(dts0, crate::types::DirectoryTypeKind::UiDesign)
            && crate::store::dtv_has_kind(dts0, crate::types::DirectoryTypeKind::ProjectPlanning) {
            crate::store::lemma_seed_stable(dts0, ids.deep_view(), info.last_opened_at@);
        }
    }
    state.active = Some(ActiveWorkspace { path: path, store: store });
    Ok((info, rec2))
}

/// The settings in force for the active workspace; the defaults when no
/// workspace is open or none were ever stored.
pub fn workspace_settings_get(state: &AppState) -> (r: Result<WorkspaceSettings, AppError>)
    ensures
        match r {
            Ok(s) => s.deep_view() == (match state.active {
                Some(a) => resolved_settings_v(a.store.settings.deep_view()),
                None => default_settings_v(),
            }),
            Err(_) => false,
        },
{
    match &state.active {
        Some(a) => Ok(resolved_settings(&a.store)),
        None => Ok(WorkspaceSettings::default()),
    }
}

/// A partial update of the settings; an absent field keeps its value, a
/// present one overwrites (clearing when it carries nothing).
pub struct SettingsPatch {
    pub theme_mode: Option<ThemeMode>,
    pub custom_theme_id: Option<Option<String>>,
    pub default_ide: Option<Option<IdeConfig>>,
}

/// The settings after a patch.
pub open spec fn settings_patched_v(
    cur: WorkspaceSettingsV,
    theme_mode: Option<ThemeMode>,
    custom_theme_id: Option<Option<Seq<char>>>,
    default_ide: Option<Option<IdeConfigV>>,
) -> WorkspaceSettingsV {
    WorkspaceSettingsV {
        theme_mode: match theme_mode {
            Some(t) => t,
            None => cur.theme_mode,
        },
        custom_theme_id: match custom_theme_id {
            Some(c) => c,
            None => cur.custom_theme_id,
        },
        default_ide: match default_ide {
            Some(d) => d,
            None => cur.default_ide,
        },
    }
}

/// Merges a patch into the active workspace's settings and stores the
/// result; fails when no workspace is open.
pub fn workspace_settings_update(state: &mut AppState, patch: SettingsPatch) -> (r: Result<
    WorkspaceSettings,
    AppError,
>)
    requires
        old(state).wf(),
    ensures
        final(state).wf(),
        old(state).active is None ==> r == Err::<WorkspaceSettings, AppError>(
            AppError::NoActiveWorkspace,
        ) && *final(state) == *old(state),
        old(state).active is Some ==> (match r {
            Ok(s) => {
                &&& s.deep_view() == settings_patched_v(
                    resolved_settings_v(old(state).active->Some_0.store.settings.deep_view()),
                    patch.theme_mode,
                    patch.custom_theme_id.deep_view(),
                    patch.default_ide.deep_view(),
                )
                &&& final(state).active is Some
                &&& final(state).active->Some_0.path == old(state).active->Some_0.path
                &&& final(state).active->Some_0.store.settings.deep_view() == Some(s.deep_view())
                &&& final(state).active->Some_0.store.projects == old(
                    state,
                ).active->Some_0.store.projects
                &&& final(state).active->Some_0.store.dir_types == old(
                    state,
                ).active->Some_0.store.dir_types
                &&& final(state).active->Some_0.store.project_dirs == old(
                    state,
                ).active->Some_0.store.project_dirs
                &&& final(state).active->Some_0.store.repos == old(state).active->Some_0.store.repos
                &&& final(state).active->Some_0.store.last_opened == old(
                    state,
                ).active->Some_0.store.last_opened
            },
            Err(_) => false,
        }),
{
    match &mut state.active {
        None => Err(AppError::NoActiveWorkspace),
        Some(a) => {
            let cur = resolved_settings(&a.store);
            let theme_mode = match patch.theme_mode {
                Some(t) => t,
                None => cur.theme_mode,
            };
            let custom_theme_id = match patch.custom_theme_id {
                Some(c) => c,
                None => cur.custom_theme_id,
            };
            let default_ide = match patch.default_ide {
                Some(d) => d,
                None => cur.default_ide,
            };
            let merged = WorkspaceSettings { theme_mode, custom_theme_id, default_ide };
            let out = merged.clone();
            a.store.set_settings(merged);
            proof {
                assert(out.deep_view() =~= settings_patched_v(
                    resolved_settings_v(old(state).active->Some_0.store.settings.deep_view()),
                    patch.theme_mode,
                    patch.custom_theme_id.deep_view(),
                    patch.default_ide.deep_view(),
                ));
            }
            Ok(out)
        },
    }
}

/// The theme mode a settings patch names; anything unrecognized falls back
/// to following the system.
pub open spec fn theme_mode_of(s: Seq<char>) -> ThemeMode {
    if s == "light"@ {
        ThemeMode::Light
    } else if s == "dark"@ {
        ThemeMode::Dark
    } else if s == "custom"@ {
        ThemeMode::Custom
    } else {
        ThemeMode::System
    }
}

/// Maps a theme-mode name to the mode it stands for.
pub fn theme_mode_from_str(s: &String) -> (r: ThemeMode)
    ensures
        r == theme_mode_of(s@),
{
    if *s == "light".to_owned() {
        ThemeMode::Light
    } else if *s == "dark".to_owned() {
        ThemeMode::Dark
    } else if *s == "custom".to_owned() {
        ThemeMode::Custom
    } else {
        ThemeMode::System
    }
}

/// Where the process-wide recent-workspaces cache lives: a fixed file under
/// the user's config directory, when the platform defines one.
pub fn get_recent_workspaces_file() -> (r: Option<String>)
    ensures
        match r {
            Some(p) => exists|base: Seq<char>|
                p@ == #[trigger] (base + "/pm-app/recent_workspaces.json"@),
            None => true,
        },
{
    match config_dir_path() {
        None => None,
        Some(base) => {
            let ghost basev = base@;
            let mut p = base;
            p.append("/pm-app/recent_workspaces.json");
            proof {
                assert(p@ == basev + "/pm-app/recent_workspaces.json"@);
            }
            Some(p)
        },
    }
}

} // verus!
