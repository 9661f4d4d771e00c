use pm_core::dir_type::{dir_type_create_custom, dir_type_update, dir_types_list,
    project_dir_create_or_update, project_dirs_list};
use pm_core::errors::{AppError, GitErrorKind};
use pm_core::project::{ProjectCreateInput, ProjectUpdateInput, project_create, project_delete,
    project_get, project_update, projects_list};
use pm_core::store::{DirTypePatch, Store};
use pm_core::types::{DirectoryTypeKind, ThemeMode};
use pm_core::workspace::{AppState, PathProbe, SettingsPatch, get_workspace_path,
    theme_mode_from_str, workspace_init_or_open, workspace_settings_get,
    workspace_settings_update};

fn probe_ok() -> PathProbe {
    PathProbe { exists: true, is_dir: true, writable: true }
}

fn open_tmp(state: &mut AppState) {
    let r = workspace_init_or_open(state, Vec::new(), "/tmp".to_string(), probe_ok(), Store::new());
    assert!(r.is_ok());
}

#[test]
fn workspace_open_validates_path() {
    let mut state = AppState::new();
    let missing = PathProbe { exists: false, is_dir: false, writable: false };
    let r = workspace_init_or_open(&mut state, Vec::new(), "/nope".to_string(), missing, Store::new());
    assert_eq!(r.err().unwrap(), AppError::Validation);
    assert!(state.active.is_none());

    let not_writable = PathProbe { exists: true, is_dir: true, writable: false };
    let r = workspace_init_or_open(&mut state, Vec::new(), "/tmp".to_string(), not_writable, Store::new());
    assert_eq!(r.err().unwrap(), AppError::Filesystem);
    assert!(state.active.is_none());
}

#[test]
fn workspace_open_seeds_builtins_once() {
    // Opening the same workspace twice never duplicates the seeded kinds.
    let mut state = AppState::new();
    open_tmp(&mut state);
    let first = state.active.take().unwrap().store;
    assert_eq!(first.dir_types.len(), 4);

    let r = workspace_init_or_open(&mut state, Vec::new(), "/tmp".to_string(), probe_ok(), first);
    assert!(r.is_ok());
    let second = &state.active.as_ref().unwrap().store;
    assert_eq!(second.dir_types.len(), 4);
    let kinds: Vec<DirectoryTypeKind> = second.dir_types.iter().map(|d| d.kind).collect();
    assert!(kinds.contains(&DirectoryTypeKind::Code));
    assert!(kinds.contains(&DirectoryTypeKind::Docs));
    assert!(kinds.contains(&DirectoryTypeKind::UiDesign));
    assert!(kinds.contains(&DirectoryTypeKind::ProjectPlanning));
    let code = second.dir_types.iter().find(|d| d.kind == DirectoryTypeKind::Code).unwrap();
    assert_eq!(code.name, "\u{4ee3}\u{7801}");
    assert_eq!(code.category.as_deref(), Some("code"));
    assert_eq!(code.sort_order, 1);
}

#[test]
fn workspace_open_reports_info() {
    let mut state = AppState::new();
    let r = workspace_init_or_open(
        &mut state,
        Vec::new(),
        "/tmp".to_string(),
        probe_ok(),
        Store::new(),
    );
    let (info, recent) = r.unwrap();
    assert_eq!(info.path, "/tmp");
    assert_eq!(info.db_path, "/tmp/.app/app.db");
    assert!(info.settings.is_some());
    assert!(info.alias.is_none());
    assert_eq!(recent.len(), 1);
    assert_eq!(recent[0].path, "/tmp");
    assert_eq!(get_workspace_path(&state).unwrap(), "/tmp");
}

#[test]
fn dir_type_ids_are_uuid_length() {
    let mut state = AppState::new();
    open_tmp(&mut state);
    let dt = dir_type_create_custom(&mut state, "Notes".to_string(), None, None).unwrap();
    assert_eq!(dt.id.chars().count(), 36);
}

#[test]
fn dir_type_create_rejects_empty_name() {
    let mut state = AppState::new();
    open_tmp(&mut state);
    let r = dir_type_create_custom(&mut state, "".to_string(), None, None);
    assert_eq!(r.err().unwrap(), AppError::Validation);
    assert_eq!(state.active.as_ref().unwrap().store.dir_types.len(), 4);
}

#[test]
fn dir_type_defaults_and_ordering() {
    // A custom type at order 50 lists after the built-ins (1..4) and before
    // anything with a larger order, such as another custom type at the
    // default order.
    let mut state = AppState::new();
    open_tmp(&mut state);
    let design = dir_type_create_custom(
        &mut state,
        "Design Assets".to_string(),
        None,
        Some(50),
    )
    .unwrap();
    assert_eq!(design.sort_order, 50);
    let other = dir_type_create_custom(&mut state, "Later".to_string(), None, None).unwrap();
    assert_eq!(other.sort_order, 100);

    let listed = dir_types_list(&state).unwrap();
    assert_eq!(listed.len(), 6);
    for w in listed.windows(2) {
        assert!(w[0].sort_order <= w[1].sort_order);
    }
    assert_eq!(listed[4].name, "Design Assets");
    for dt in &listed {
        if dt.sort_order > 50 {
            let pos_design = listed.iter().position(|x| x.id == design.id).unwrap();
            let pos_other = listed.iter().position(|x| x.id == dt.id).unwrap();
            assert!(pos_design < pos_other);
        }
    }
}

#[test]
fn dir_type_update_merges_fields() {
    let mut state = AppState::new();
    open_tmp(&mut state);
    let dt = dir_type_create_custom(
        &mut state,
        "Art".to_string(),
        Some("misc".to_string()),
        Some(7),
    )
    .unwrap();
    let updated = dir_type_update(
        &mut state,
        &dt.id,
        DirTypePatch { name: Some("Artwork".to_string()), category: None, sort_order: None },
    )
    .unwrap();
    assert_eq!(updated.name, "Artwork");
    assert_eq!(updated.category.as_deref(), Some("misc"));
    assert_eq!(updated.sort_order, 7);
    assert_eq!(updated.kind, DirectoryTypeKind::Custom);

    let missing = dir_type_update(
        &mut state,
        &"no-such-id".to_string(),
        DirTypePatch { name: None, category: None, sort_order: None },
    );
    assert_eq!(missing.err().unwrap(), AppError::NotFound);
}

#[test]
fn project_create_requires_workspace_and_name() {
    let mut state = AppState::new();
    let input = ProjectCreateInput { name: "p".to_string(), description: None, display: None };
    let r = project_create(&mut state, input, false, true);
    assert_eq!(r.err().unwrap(), AppError::NoActiveWorkspace);

    open_tmp(&mut state);
    let blank = ProjectCreateInput { name: "   ".to_string(), description: None, display: None };
    let r = project_create(&mut state, blank, false, true);
    assert_eq!(r.err().unwrap(), AppError::Validation);
    assert_eq!(state.active.as_ref().unwrap().store.projects.len(), 0);
}

#[test]
fn project_create_rejects_unicode_blank_name() {
    // Blankness follows the trim notion: Unicode white space counts too.
    let mut state = AppState::new();
    open_tmp(&mut state);
    let nbsp_name = "\u{a0}\u{2003} \u{3000}".to_string();
    let r = project_create(
        &mut state,
        ProjectCreateInput { name: nbsp_name, description: None, display: None },
        false,
        true,
    );
    assert_eq!(r.err().unwrap(), AppError::Validation);
}

#[test]
fn project_create_rejects_existing_path() {
    // An existing target path always fails with AlreadyExists and writes
    // nothing.
    let mut state = AppState::new();
    open_tmp(&mut state);
    let input = ProjectCreateInput { name: "taken".to_string(), description: None, display: None };
    let r = project_create(&mut state, input, true, true);
    assert_eq!(r.err().unwrap(), AppError::AlreadyExists);
    assert_eq!(state.active.as_ref().unwrap().store.projects.len(), 0);
}

#[test]
fn project_create_reports_failed_mkdir() {
    let mut state = AppState::new();
    open_tmp(&mut state);
    let input = ProjectCreateInput { name: "p".to_string(), description: None, display: None };
    let r = project_create(&mut state, input, false, false);
    assert_eq!(r.err().unwrap(), AppError::Filesystem);
    assert_eq!(state.active.as_ref().unwrap().store.projects.len(), 0);
}

#[test]
fn project_crud_roundtrip() {
    let mut state = AppState::new();
    open_tmp(&mut state);
    let input = ProjectCreateInput {
        name: "alpha".to_string(),
        description: Some("first".to_string()),
        display: None,
    };
    let p = project_create(&mut state, input, false, true).unwrap();
    assert_eq!(p.name, "alpha");
    assert_eq!(p.project_path, "/tmp/alpha");
    assert_eq!(p.description.as_deref(), Some("first"));
    assert!(p.ide_override.is_none());

    let got = project_get(&state, &p.id).unwrap();
    assert_eq!(got.name, "alpha");

    let patch = ProjectUpdateInput {
        name: Some("beta".to_string()),
        description: None,
        display: None,
        ide_override: None,
    };
    let up = project_update(&mut state, &p.id, patch).unwrap();
    assert_eq!(up.name, "beta");
    assert_eq!(up.description.as_deref(), Some("first"));
    assert!(up.updated_at >= p.updated_at);

    project_delete(&mut state, &p.id).unwrap();
    assert_eq!(
        project_get(&state, &p.id).err().unwrap(),
        AppError::NotFound
    );
    assert_eq!(
        project_delete(&mut state, &p.id).err().unwrap(),
        AppError::NotFound
    );
}

#[test]
fn projects_list_most_recent_first() {
    let mut state = AppState::new();
    open_tmp(&mut state);
    let store = &mut state.active.as_mut().unwrap().store;
    store
        .project_insert(
            "id-a".to_string(),
            "2024-01-01T00:00:00Z".to_string(),
            "older".to_string(),
            None,
            None,
            "/tmp/older".to_string(),
        )
        .unwrap();
    store
        .project_insert(
            "id-b".to_string(),
            "2025-06-01T00:00:00Z".to_string(),
            "newer".to_string(),
            None,
            None,
            "/tmp/newer".to_string(),
        )
        .unwrap();
    let listed = projects_list(&state).unwrap();
    assert_eq!(listed.len(), 2);
    assert_eq!(listed[0].name, "newer");
    assert_eq!(listed[1].name, "older");
}

#[test]
fn project_insert_refuses_duplicate_id() {
    let mut store = Store::new();
    store
        .project_insert(
            "same-id".to_string(),
            "t1".to_string(),
            "one".to_string(),
            None,
            None,
            "/tmp/one".to_string(),
        )
        .unwrap();
    let dup = store.project_insert(
        "same-id".to_string(),
        "t2".to_string(),
        "two".to_string(),
        None,
        None,
        "/tmp/two".to_string(),
    );
    assert_eq!(dup.err().unwrap(), AppError::Persistence);
    assert_eq!(store.projects.len(), 1);
}

#[test]
fn project_dir_upsert_keeps_one_row() {
    // Two upserts for the same (project, directory type) leave exactly one
    // row, carrying the latest path.
    let mut state = AppState::new();
    open_tmp(&mut state);
    let first = project_dir_create_or_update(
        &mut state,
        "proj-1".to_string(),
        "type-1".to_string(),
        "docs".to_string(),
    )
    .unwrap();
    let second = project_dir_create_or_update(
        &mut state,
        "proj-1".to_string(),
        "type-1".to_string(),
        "documents".to_string(),
    )
    .unwrap();
    assert_eq!(second.id, first.id);
    assert_eq!(second.relative_path, "documents");

    let rows = project_dirs_list(&state, &"proj-1".to_string()).unwrap();
    assert_eq!(rows.len(), 1);
    assert_eq!(rows[0].relative_path, "documents");

    let other = project_dir_create_or_update(
        &mut state,
        "proj-1".to_string(),
        "type-2".to_string(),
        "code".to_string(),
    )
    .unwrap();
    assert_ne!(other.id, first.id);
    let rows = project_dirs_list(&state, &"proj-1".to_string()).unwrap();
    assert_eq!(rows.len(), 2);
}

#[test]
fn settings_get_and_update() {
    let mut state = AppState::new();
    let defaults = workspace_settings_get(&state).unwrap();
    assert_eq!(defaults.theme_mode, ThemeMode::System);

    let patch = SettingsPatch {
        theme_mode: Some(ThemeMode::Dark),
        custom_theme_id: None,
        default_ide: None,
    };
    let r = workspace_settings_update(&mut state, patch);
    assert_eq!(r.err().unwrap(), AppError::NoActiveWorkspace);

    open_tmp(&mut state);
    let patch = SettingsPatch {
        theme_mode: Some(ThemeMode::Dark),
        custom_theme_id: Some(Some("midnight".to_string())),
        default_ide: None,
    };
    let s = workspace_settings_update(&mut state, patch).unwrap();
    assert_eq!(s.theme_mode, ThemeMode::Dark);
    assert_eq!(s.custom_theme_id.as_deref(), Some("midnight"));

    let again = workspace_settings_get(&state).unwrap();
    assert_eq!(again.theme_mode, ThemeMode::Dark);
    assert_eq!(again.custom_theme_id.as_deref(), Some("midnight"));

    let clearing = SettingsPatch {
        theme_mode: None,
        custom_theme_id: Some(None),
        default_ide: None,
    };
    let s = workspace_settings_update(&mut state, clearing).unwrap();
    assert_eq!(s.theme_mode, ThemeMode::Dark);
    assert!(s.custom_theme_id.is_none());
}

#[test]
fn theme_mode_names() {
    assert_eq!(theme_mode_from_str(&"light".to_string()), ThemeMode::Light);
    assert_eq!(theme_mode_from_str(&"dark".to_string()), ThemeMode::Dark);
    assert_eq!(theme_mode_from_str(&"custom".to_string()), ThemeMode::Custom);
    assert_eq!(theme_mode_from_str(&"system".to_string()), ThemeMode::System);
    assert_eq!(theme_mode_from_str(&"anything".to_string()), ThemeMode::System);
}

#[test]
fn validate_decides_the_invariant() {
    let mut state = AppState::new();
    open_tmp(&mut state);
    let store = state.active.take().unwrap().store;
    assert!(store.validate());

    // A second row of one built-in kind breaks the invariant.
    let mut broken = store;
    let mut copy = broken.dir_types[0].clone();
    copy.id = "another-id".to_string();
    broken.dir_types.push(copy);
    assert!(!broken.validate());
}

#[test]
fn validate_rejects_duplicate_ids() {
    let mut store = Store::new();
    store
        .project_insert(
            "dup".to_string(),
            "t1".to_string(),
            "one".to_string(),
            None,
            None,
            "/tmp/one".to_string(),
        )
        .unwrap();
    assert!(store.validate());
    let row = store.projects[0].clone();
    store.projects.push(row);
    assert!(!store.validate());
}

#[test]
fn error_messages_are_nonempty() {
    let errors = vec![
        AppError::Validation,
        AppError::NotFound,
        AppError::AlreadyExists,
        AppError::NoActiveWorkspace,
        AppError::Persistence,
        AppError::Filesystem,
        AppError::Git(GitErrorKind::InitFailed),
        AppError::Git(GitErrorKind::CloneError),
        AppError::Git(GitErrorKind::RepoOpenError),
        AppError::Git(GitErrorKind::RemoteNotFound),
        AppError::Git(GitErrorKind::FetchFailed),
        AppError::NetworkUnreachable,
    ];
    for e in errors {
        assert!(!e.message().is_empty());
    }
}
