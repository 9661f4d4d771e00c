use pm_core::types::{
    DirectoryTypeKind, FileNode, NetworkState, PreviewKind, ProjectDirectory, SupportedIdeKind,
    ThemeMode, WorkspaceSettings,
};

#[test]
fn test_workspace_settings_default() {
    let settings = WorkspaceSettings::default();
    assert_eq!(settings.theme_mode, ThemeMode::System);
    assert!(settings.custom_theme_id.is_none());
    assert!(settings.default_ide.is_none());
}

#[test]
fn test_preview_kind() {
    let _ = PreviewKind::Image;
    let _ = PreviewKind::Markdown;
    let _ = PreviewKind::Text;
}

#[test]
fn test_directory_type_kind() {
    let _ = DirectoryTypeKind::Code;
    let _ = DirectoryTypeKind::Docs;
    let _ = DirectoryTypeKind::UiDesign;
    let _ = DirectoryTypeKind::ProjectPlanning;
    let _ = DirectoryTypeKind::Custom;
}

#[test]
fn test_theme_mode() {
    let _ = ThemeMode::Light;
    let _ = ThemeMode::Dark;
    let _ = ThemeMode::System;
    let _ = ThemeMode::Custom;
}

#[test]
fn test_network_state() {
    let _ = NetworkState::Online;
    let _ = NetworkState::Offline;
    let _ = NetworkState::Unknown;
}

#[test]
fn test_supported_ide_kind() {
    let _ = SupportedIdeKind::Vscode;
    let _ = SupportedIdeKind::VisualStudio;
    let _ = SupportedIdeKind::Jetbrains;
    let _ = SupportedIdeKind::Custom;
}

#[test]
fn test_file_node() {
    let node = FileNode {
        path: "test/file.rs".to_string(),
        name: "file.rs".to_string(),
        kind: "file".to_string(),
        children: None,
    };

    assert_eq!(node.kind, "file");
    assert!(node.children.is_none());

    let dir_node = FileNode {
        path: "test".to_string(),
        name: "test".to_string(),
        kind: "dir".to_string(),
        children: Some(vec![]),
    };

    assert_eq!(dir_node.kind, "dir");
    assert!(dir_node.children.is_some());
}

#[test]
fn test_project_directory() {
    let pd = ProjectDirectory {
        id: "pd-id".to_string(),
        project_id: "proj-id".to_string(),
        dir_type_id: "dt-id".to_string(),
        relative_path: "docs".to_string(),
        created_at: "2024-01-01T00:00:00Z".to_string(),
        updated_at: "2024-01-01T00:00:00Z".to_string(),
    };

    assert_eq!(pd.relative_path, "docs");
}
