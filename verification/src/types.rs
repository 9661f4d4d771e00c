//! The entity model: workspaces, projects, directory types, Git repositories
//! and their status snapshots, plus the small input records the operations
//! take.

use vstd::prelude::*;

verus! {

/// Theme preference stored in the workspace settings.
#[derive(Debug, Clone, Copy, PartialEq, Eq, Structural)]
pub enum ThemeMode {
    Light,
    Dark,
    System,
    Custom,
}

impl Default for ThemeMode {
    fn default() -> (r: Self)
        ensures
            r == ThemeMode::System,
    {
        ThemeMode::System
    }
}

/// The editors the launcher knows how to detect and start.
#[derive(Debug, Clone, Copy, PartialEq, Eq, Structural)]
pub enum SupportedIdeKind {
    Vscode,
    VisualStudio,
    Jetbrains,
    Custom,
}

/// How to start one editor: kind, display name, executable and arguments.
#[derive(Debug)]
pub struct IdeConfig {
    pub kind: SupportedIdeKind,
    pub name: String,
    pub exe_path: String,
    pub args: Option<Vec<String>>,
}

/// Per-workspace settings, resolved to defaults when never persisted.
#[derive(Debug)]
pub struct WorkspaceSettings {
    pub theme_mode: ThemeMode,
    pub custom_theme_id: Option<String>,
    pub default_ide: Option<IdeConfig>,
}

impl Default for WorkspaceSettings {
    fn default() -> (r: Self)
        ensures
            r.theme_mode == ThemeMode::System,
            r.custom_theme_id is None,
            r.default_ide is None,
    {
        WorkspaceSettings { theme_mode: ThemeMode::System, custom_theme_id: None, default_ide: None }
    }
}

/// One entry of the recent-workspaces cache, and what an open returns.
#[derive(Debug)]
pub struct WorkspaceInfo {
    pub path: String,
    pub db_path: String,
    pub last_opened_at: String,
    pub settings: Option<WorkspaceSettings>,
    pub alias: Option<String>,
}

/// Optional display preferences of one project.
#[derive(Debug)]
pub struct ProjectDisplay {
    pub theme_mode: Option<String>,
    pub theme_color: Option<String>,
}

/// Registry record of one Git working copy inside a project.
#[derive(Debug)]
pub struct GitRepository {
    pub id: String,
    pub project_id: String,
    pub name: String,
    pub path: String,
    pub remote_url: Option<String>,
    pub branch: Option<String>,
    pub last_sync_at: Option<String>,
    pub last_status_checked_at: Option<String>,
}

/// Whether the last status check could reach the network.
#[derive(Debug, Clone, Copy, PartialEq, Eq, Structural)]
pub enum NetworkState {
    Online,
    Offline,
    Unknown,
}

/// Point-in-time status reading of one repository; each check overwrites
/// the previous one.
#[derive(Debug)]
pub struct GitRepoStatus {
    pub repo_id: String,
    pub branch: Option<String>,
    pub dirty: bool,
    pub ahead: i32,
    pub behind: i32,
    pub last_checked_at: String,
    pub network: NetworkState,
    pub last_error: Option<String>,
}

/// One project: a named unit of work bound to one directory under the
/// workspace root.
#[derive(Debug)]
pub struct Project {
    pub id: String,
    pub name: String,
    pub description: Option<String>,
    pub project_path: String,
    pub display: Option<ProjectDisplay>,
    pub ide_override: Option<IdeConfig>,
    pub updated_at: String,
}

/// One node of a project file tree listing.
#[derive(Debug)]
pub struct FileNode {
    pub path: String,
    pub name: String,
    pub kind: String,
    pub children: Option<Vec<FileNode>>,
}

/// Input of a clone: remote URL, directory name under the project, branch.
#[derive(Debug)]
pub struct GitCloneInput {
    pub remote_url: String,
    pub target_dir_name: String,
    pub branch: Option<String>,
}

/// What a pull reports back: success flag, message, sync timestamp.
#[derive(Debug)]
pub struct GitPullResult {
    pub ok: bool,
    pub message: Option<String>,
    pub synced_at: Option<String>,
}

/// The fixed built-in directory kinds, plus user-created custom kinds.
#[derive(Debug, Clone, Copy, PartialEq, Eq, Structural)]
pub enum DirectoryTypeKind {
    Code,
    Docs,
    UiDesign,
    ProjectPlanning,
    Custom,
}

/// One directory kind of the taxonomy: built-in or custom.
#[derive(Debug)]
pub struct DirectoryType {
    pub id: String,
    pub kind: DirectoryTypeKind,
    pub name: String,
    pub category: Option<String>,
    pub sort_order: i32,
    pub created_at: String,
    pub updated_at: String,
}

/// A binding of one directory kind to a relative path within one project;
/// unique per (project, directory type).
#[derive(Debug)]
pub struct ProjectDirectory {
    pub id: String,
    pub project_id: String,
    pub dir_type_id: String,
    pub relative_path: String,
    pub created_at: String,
    pub updated_at: String,
}

// ---------------------------------------------------------------------------
// Mathematical views.
//
// Contracts speak of these ghost records rather than of the executable
// structs, so that two values that print the same are the same to a proof
// (String becomes Seq<char>, Vec<String> becomes Seq<Seq<char>>).
// ---------------------------------------------------------------------------

#[verifier::ext_equal]
pub ghost struct IdeConfigV {
    pub kind: SupportedIdeKind,
    pub name: Seq<char>,
    pub exe_path: Seq<char>,
    pub args: Option<Seq<Seq<char>>>,
}

impl DeepView for IdeConfig {
    type V = IdeConfigV;

    open spec fn deep_view(&self) -> IdeConfigV {
        IdeConfigV {
            kind: self.kind,
            name: self.name@,
            exe_path: self.exe_path@,
            args: self.args.deep_view(),
        }
    }
}

#[verifier::ext_equal]
pub ghost struct WorkspaceSettingsV {
    pub theme_mode: ThemeMode,
    pub custom_theme_id: Option<Seq<char>>,
    pub default_ide: Option<IdeConfigV>,
}

impl DeepView for WorkspaceSettings {
    type V = WorkspaceSettingsV;

    open spec fn deep_view(&self) -> WorkspaceSettingsV {
        WorkspaceSettingsV {
            theme_mode: self.theme_mode,
            custom_theme_id: self.custom_theme_id.deep_view(),
            default_ide: self.default_ide.deep_view(),
        }
    }
}

#[verifier::ext_equal]
pub ghost struct WorkspaceInfoV {
    pub path: Seq<char>,
    pub db_path: Seq<char>,
    pub last_opened_at: Seq<char>,
    pub settings: Option<WorkspaceSettingsV>,
    pub alias: Option<Seq<char>>,
}

impl DeepView for WorkspaceInfo {
    type V = WorkspaceInfoV;

    open spec fn deep_view(&self) -> WorkspaceInfoV {
        WorkspaceInfoV {
            path: self.path@,
            db_path: self.db_path@,
            last_opened_at: self.last_opened_at@,
            settings: self.settings.deep_view(),
            alias: self.alias.deep_view(),
        }
    }
}

#[verifier::ext_equal]
pub ghost struct ProjectDisplayV {
    pub theme_mode: Option<Seq<char>>,
    pub theme_color: Option<Seq<char>>,
}

impl DeepView for ProjectDisplay {
    type V = ProjectDisplayV;

    open spec fn deep_view(&self) -> ProjectDisplayV {
        ProjectDisplayV {
            theme_mode: self.theme_mode.deep_view(),
            theme_color: self.theme_color.deep_view(),
        }
    }
}

#[verifier::ext_equal]
pub ghost struct ProjectV {
    pub id: Seq<char>,
    pub name: Seq<char>,
    pub description: Option<Seq<char>>,
    pub project_path: Seq<char>,
    pub display: Option<ProjectDisplayV>,
    pub ide_override: Option<IdeConfigV>,
    pub updated_at: Seq<char>,
}

impl DeepView for Project {
    type V = ProjectV;

    open spec fn deep_view(&self) -> ProjectV {
        ProjectV {
            id: self.id@,
            name: self.name@,
            description: self.description.deep_view(),
            project_path: self.project_path@,
            display: self.display.deep_view(),
            ide_override: self.ide_override.deep_view(),
            updated_at: self.updated_at@,
        }
    }
}

#[verifier::ext_equal]
pub ghost struct GitRepositoryV {
    pub id: Seq<char>,
    pub project_id: Seq<char>,
    pub name: Seq<char>,
    pub path: Seq<char>,
    pub remote_url: Option<Seq<char>>,
    pub branch: Option<Seq<char>>,
    pub last_sync_at: Option<Seq<char>>,
    pub last_status_checked_at: Option<Seq<char>>,
}

impl DeepView for GitRepository {
    type V = GitRepositoryV;

    open spec fn deep_view(&self) -> GitRepositoryV {
        GitRepositoryV {
            id: self.id@,
            project_id: self.project_id@,
            name: self.name@,
            path: self.path@,
            remote_url: self.remote_url.deep_view(),
            branch: self.branch.deep_view(),
            last_sync_at: self.last_sync_at.deep_view(),
            last_status_checked_at: self.last_status_checked_at.deep_view(),
        }
    }
}

#[verifier::ext_equal]
pub ghost struct GitRepoStatusV {
    pub repo_id: Seq<char>,
    pub branch: Option<Seq<char>>,
    pub dirty: bool,
    pub ahead: i32,
    pub behind: i32,
    pub last_checked_at: Seq<char>,
    pub network: NetworkState,
    pub last_error: Option<Seq<char>>,
}

impl DeepView for GitRepoStatus {
    type V = GitRepoStatusV;

    open spec fn deep_view(&self) -> GitRepoStatusV {
        GitRepoStatusV {
            repo_id: self.repo_id@,
            branch: self.branch.deep_view(),
            dirty: self.dirty,
            ahead: self.ahead,
            behind: self.behind,
            last_checked_at: self.last_checked_at@,
            network: self.network,
            last_error: self.last_error.deep_view(),
        }
    }
}

#[verifier::ext_equal]
pub ghost struct DirectoryTypeV {
    pub id: Seq<char>,
    pub kind: DirectoryTypeKind,
    pub name: Seq<char>,
    pub category: Option<Seq<char>>,
    pub sort_order: i32,
    pub created_at: Seq<char>,
    pub updated_at: Seq<char>,
}

impl DeepView for DirectoryType {
    type V = DirectoryTypeV;

    open spec fn deep_view(&self) -> DirectoryTypeV {
        DirectoryTypeV {
            id: self.id@,
            kind: self.kind,
            name: self.name@,
            category: self.category.deep_view(),
            sort_order: self.sort_order,
            created_at: self.created_at@,
            updated_at: self.updated_at@,
        }
    }
}

#[verifier::ext_equal]
pub ghost struct ProjectDirectoryV {
    pub id: Seq<char>,
    pub project_id: Seq<char>,
    pub dir_type_id: Seq<char>,
    pub relative_path: Seq<char>,
    pub created_at: Seq<char>,
    pub updated_at: Seq<char>,
}

impl DeepView for ProjectDirectory {
    type V = ProjectDirectoryV;

    open spec fn deep_view(&self) -> ProjectDirectoryV {
        ProjectDirectoryV {
            id: self.id@,
            project_id: self.project_id@,
            dir_type_id: self.dir_type_id@,
            relative_path: self.relative_path@,
            created_at: self.created_at@,
            updated_at: self.updated_at@,
        }
    }
}

// ---------------------------------------------------------------------------
// Cloning.
//
// The derived `Clone` says nothing to a proof, so each entity clones by hand
// and promises that the view is kept.
// ---------------------------------------------------------------------------

/// Clones a borrowed optional string into an owned one with the same view.
pub fn clone_opt_string(s: &Option<String>) -> (r: Option<String>)
    ensures
        r == *s,
{
    match s {
        Option::None => Option::None,
        Option::Some(x) => Option::Some(x.clone()),
    }
}

/// Clones a vector of strings element by element, keeping every view.
pub fn clone_string_vec(v: &Vec<String>) -> (r: Vec<String>)
    ensures
        r@ == v@,
{
    let mut r: Vec<String> = Vec::new();
    let mut i: usize = 0;
    while i < v.len()
        invariant
            i <= v.len(),
            r@ == v@.subrange(0, i as int),
        decreases v.len() - i,
    {
        r.push(v[i].clone());
        proof {
            assert(r@ =~= v@.subrange(0, i + 1 as int));
        }
        i = i + 1;
    }
    proof {
        assert(r@ =~= v@);
    }
    r
}

impl Clone for IdeConfig {
    fn clone(&self) -> (r: Self)
        ensures
            r.deep_view() == self.deep_view(),
            r.kind == self.kind,
            r.name == self.name,
            r.exe_path == self.exe_path,
    {
        let args = match &self.args {
            Option::None => Option::None,
            Option::Some(v) => Option::Some(clone_string_vec(v)),
        };
        let r = IdeConfig {
            kind: self.kind,
            name: self.name.clone(),
            exe_path: self.exe_path.clone(),
            args,
        };
        proof {
            assert(r.args.deep_view() =~= self.args.deep_view());
            assert(r.deep_view() =~= self.deep_view());
        }
        r
    }
}

/// Clones an optional editor configuration, keeping its view.
pub fn clone_opt_ide(s: &Option<IdeConfig>) -> (r: Option<IdeConfig>)
    ensures
        r.deep_view() == s.deep_view(),
{
    match s {
        Option::None => Option::None,
        Option::Some(x) => Option::Some(x.clone()),
    }
}

impl Clone for ProjectDisplay {
    fn clone(&self) -> (r: Self)
        ensures
            r == *self,
    {
        ProjectDisplay {
            theme_mode: clone_opt_string(&self.theme_mode),
            theme_color: clone_opt_string(&self.theme_color),
        }
    }
}

/// Clones optional display preferences, keeping the value.
pub fn clone_opt_display(s: &Option<ProjectDisplay>) -> (r: Option<ProjectDisplay>)
    ensures
        r == *s,
{
    match s {
        Option::None => Option::None,
        Option::Some(x) => Option::Some(x.clone()),
    }
}

impl Clone for WorkspaceSettings {
    fn clone(&self) -> (r: Self)
        ensures
            r.deep_view() == self.deep_view(),
            r.theme_mode == self.theme_mode,
            r.custom_theme_id == self.custom_theme_id,
    {
        let r = WorkspaceSettings {
            theme_mode: self.theme_mode,
            custom_theme_id: clone_opt_string(&self.custom_theme_id),
            default_ide: clone_opt_ide(&self.default_ide),
        };
        proof {
            assert(r.deep_view() =~= self.deep_view());
        }
        r
    }
}

/// Clones optional settings, keeping the view.
pub fn clone_opt_settings(s: &Option<WorkspaceSettings>) -> (r: Option<WorkspaceSettings>)
    ensures
        r.deep_view() == s.deep_view(),
{
    match s {
        Option::None => Option::None,
        Option::Some(x) => Option::Some(x.clone()),
    }
}

impl Clone for WorkspaceInfo {
    fn clone(&self) -> (r: Self)
        ensures
            r.deep_view() == self.deep_view(),
            r.path == self.path,
            r.db_path == self.db_path,
            r.last_opened_at == self.last_opened_at,
            r.alias == self.alias,
    {
        let r = WorkspaceInfo {
            path: self.path.clone(),
            db_path: self.db_path.clone(),
            last_opened_at: self.last_opened_at.clone(),
            settings: clone_opt_settings(&self.settings),
            alias: clone_opt_string(&self.alias),
        };
        proof {
            assert(r.deep_view() =~= self.deep_view());
        }
        r
    }
}

impl Clone for Project {
    fn clone(&self) -> (r: Self)
        ensures
            r.deep_view() == self.deep_view(),
            r.id == self.id,
            r.name == self.name,
            r.description == self.description,
            r.project_path == self.project_path,
            r.display == self.display,
            r.updated_at == self.updated_at,
    {
        let r = Project {
            id: self.id.clone(),
            name: self.name.clone(),
            description: clone_opt_string(&self.description),
            project_path: self.project_path.clone(),
            display: clone_opt_display(&self.display),
            ide_override: clone_opt_ide(&self.ide_override),
            updated_at: self.updated_at.clone(),
        };
        proof {
            assert(r.deep_view() =~= self.deep_view());
        }
        r
    }
}

impl Clone for GitRepository {
    fn clone(&self) -> (r: Self)
        ensures
            r == *self,
    {
        GitRepository {
            id: self.id.clone(),
            project_id: self.project_id.clone(),
            name: self.name.clone(),
            path: self.path.clone(),
            remote_url: clone_opt_string(&self.remote_url),
            branch: clone_opt_string(&self.branch),
            last_sync_at: clone_opt_string(&self.last_sync_at),
            last_status_checked_at: clone_opt_string(&self.last_status_checked_at),
        }
    }
}

impl Clone for GitRepoStatus {
    fn clone(&self) -> (r: Self)
        ensures
            r == *self,
    {
        GitRepoStatus {
            repo_id: self.repo_id.clone(),
            branch: clone_opt_string(&self.branch),
            dirty: self.dirty,
            ahead: self.ahead,
            behind: self.behind,
            last_checked_at: self.last_checked_at.clone(),
            network: self.network,
            last_error: clone_opt_string(&self.last_error),
        }
    }
}

impl Clone for DirectoryType {
    fn clone(&self) -> (r: Self)
        ensures
            r == *self,
    {
        DirectoryType {
            id: self.id.clone(),
            kind: self.kind,
            name: self.name.clone(),
            category: clone_opt_string(&self.category),
            sort_order: self.sort_order,
            created_at: self.created_at.clone(),
            updated_at: self.updated_at.clone(),
        }
    }
}

impl Clone for ProjectDirectory {
    fn clone(&self) -> (r: Self)
        ensures
            r == *self,
    {
        ProjectDirectory {
            id: self.id.clone(),
            project_id: self.project_id.clone(),
            dir_type_id: self.dir_type_id.clone(),
            relative_path: self.relative_path.clone(),
            created_at: self.created_at.clone(),
            updated_at: self.updated_at.clone(),
        }
    }
}

impl Clone for GitCloneInput {
    fn clone(&self) -> (r: Self)
        ensures
            r == *self,
    {
        GitCloneInput {
            remote_url: self.remote_url.clone(),
            target_dir_name: self.target_dir_name.clone(),
            branch: clone_opt_string(&self.branch),
        }
    }
}

impl Clone for GitPullResult {
    fn clone(&self) -> (r: Self)
        ensures
            r == *self,
    {
        GitPullResult {
            ok: self.ok,
            message: clone_opt_string(&self.message),
            synced_at: clone_opt_string(&self.synced_at),
        }
    }
}

/// How a file should be previewed, decided from its extension.
#[derive(Debug, Clone, Copy, PartialEq, Eq, Structural)]
pub enum PreviewKind {
    Image,
    Markdown,
    Text,
}

/// Result of a preview detection.
#[derive(Debug)]
pub struct PreviewDetectResult {
    pub kind: PreviewKind,
}

} // verus!
