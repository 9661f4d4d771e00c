use pm_core::errors::AppError;
use pm_core::recent::{add_to_recent_workspaces, db_path_of, workspace_remove_from_recent,
    workspace_update_alias};
use pm_core::types::WorkspaceInfo;

fn entry(path: &str) -> WorkspaceInfo {
    WorkspaceInfo {
        path: path.to_string(),
        db_path: format!("{}/.app/app.db", path),
        last_opened_at: "2024-01-01T00:00:00Z".to_string(),
        settings: None,
        alias: None,
    }
}

#[test]
fn db_path_is_derived() {
    assert_eq!(db_path_of(&"/w".to_string()), "/w/.app/app.db");
}

#[test]
fn recent_cache_caps_at_ten() {
    let mut cache: Vec<WorkspaceInfo> = Vec::new();
    for i in 0..12 {
        cache = add_to_recent_workspaces(
            cache,
            format!("/w{}", i),
            "2024-01-01T00:00:00Z".to_string(),
            None,
        );
    }
    assert_eq!(cache.len(), 10);
    assert_eq!(cache[0].path, "/w11");
    // The two oldest were evicted.
    assert!(cache.iter().all(|w| w.path != "/w0" && w.path != "/w1"));
}

#[test]
fn recent_cache_moves_to_front_without_duplicates() {
    let mut cache: Vec<WorkspaceInfo> = Vec::new();
    cache = add_to_recent_workspaces(cache, "/a".to_string(), "t1".to_string(), None);
    cache = add_to_recent_workspaces(cache, "/b".to_string(), "t2".to_string(), None);
    cache = add_to_recent_workspaces(cache, "/c".to_string(), "t3".to_string(), None);
    cache = add_to_recent_workspaces(cache, "/a".to_string(), "t4".to_string(), None);
    assert_eq!(cache.len(), 3);
    assert_eq!(cache[0].path, "/a");
    assert_eq!(cache[0].last_opened_at, "t4");
    assert_eq!(cache.iter().filter(|w| w.path == "/a").count(), 1);
    assert_eq!(cache[1].path, "/c");
    assert_eq!(cache[2].path, "/b");
}

#[test]
fn recent_cache_keeps_alias_on_reopen() {
    let mut cache: Vec<WorkspaceInfo> = Vec::new();
    cache = add_to_recent_workspaces(
        cache,
        "/a".to_string(),
        "t1".to_string(),
        Some("home".to_string()),
    );
    assert_eq!(cache[0].alias.as_deref(), Some("home"));
    cache = add_to_recent_workspaces(cache, "/a".to_string(), "t2".to_string(), None);
    assert_eq!(cache[0].alias.as_deref(), Some("home"));
    cache = add_to_recent_workspaces(
        cache,
        "/a".to_string(),
        "t3".to_string(),
        Some("work".to_string()),
    );
    assert_eq!(cache[0].alias.as_deref(), Some("work"));
}

#[test]
fn alias_update_by_path() {
    let cache = vec![entry("/a"), entry("/b")];
    let (w, cache) = workspace_update_alias(cache, &"/b".to_string(), Some("two".to_string()))
        .unwrap();
    assert_eq!(w.path, "/b");
    assert_eq!(w.alias.as_deref(), Some("two"));
    assert_eq!(cache[1].alias.as_deref(), Some("two"));
    assert!(cache[0].alias.is_none());

    let missing = workspace_update_alias(cache, &"/zzz".to_string(), None);
    assert_eq!(missing.err().unwrap(), AppError::NotFound);
}

#[test]
fn remove_from_recent_by_path() {
    let cache = vec![entry("/a"), entry("/b"), entry("/c")];
    let cache = workspace_remove_from_recent(cache, &"/b".to_string()).unwrap();
    assert_eq!(cache.len(), 2);
    assert_eq!(cache[0].path, "/a");
    assert_eq!(cache[1].path, "/c");
    // A path that is no longer cached is reported as not found.
    let r = workspace_remove_from_recent(cache, &"/b".to_string());
    assert_eq!(r.err().unwrap(), AppError::NotFound);
}
