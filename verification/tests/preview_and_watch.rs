use pm_core::errors::AppError;
use pm_core::preview::preview_detect;
use pm_core::types::PreviewKind;
use pm_core::watch::{WatchControl, git_status_watch_start, git_status_watch_stop};

fn kind_of(path: &str) -> PreviewKind {
    preview_detect(path.to_string()).unwrap().kind
}

#[test]
fn preview_detects_images() {
    assert_eq!(kind_of("shot.png"), PreviewKind::Image);
    assert_eq!(kind_of("a/b/photo.JPEG"), PreviewKind::Image);
    assert_eq!(kind_of("logo.svg"), PreviewKind::Image);
    assert_eq!(kind_of("c:\\art\\pix.BMP"), PreviewKind::Image);
    assert_eq!(kind_of("anim.gif"), PreviewKind::Image);
    assert_eq!(kind_of("w.webp"), PreviewKind::Image);
    assert_eq!(kind_of("j.jpg"), PreviewKind::Image);
}

#[test]
fn preview_detects_markdown() {
    assert_eq!(kind_of("README.md"), PreviewKind::Markdown);
    assert_eq!(kind_of("notes/guide.markdown"), PreviewKind::Markdown);
    assert_eq!(kind_of("notes/GUIDE.MD"), PreviewKind::Markdown);
}

#[test]
fn preview_falls_back_to_text() {
    assert_eq!(kind_of("main.rs"), PreviewKind::Text);
    assert_eq!(kind_of("noextension"), PreviewKind::Text);
    assert_eq!(kind_of(".gitignore"), PreviewKind::Text);
    assert_eq!(kind_of("dir.with.dots/file"), PreviewKind::Text);
    assert_eq!(kind_of("archive.tar.gz"), PreviewKind::Text);
    assert_eq!(kind_of(""), PreviewKind::Text);
    assert_eq!(kind_of("trailing."), PreviewKind::Text);
}

#[test]
fn watch_start_stop_one_repo() {
    let mut w = WatchControl::new();
    assert!(!w.is_watched(&"r1".to_string()));

    assert_eq!(git_status_watch_start(&mut w, Some("r1".to_string())), Ok(()));
    assert!(w.is_watched(&"r1".to_string()));
    assert!(!w.is_watched(&"r2".to_string()));

    // Watching the same repository again does not duplicate it.
    assert_eq!(git_status_watch_start(&mut w, Some("r1".to_string())), Ok(()));
    assert_eq!(w.watched.len(), 1);

    assert_eq!(git_status_watch_stop(&mut w, Some("r1".to_string())), Ok(()));
    assert!(!w.is_watched(&"r1".to_string()));
}

#[test]
fn watch_all_and_stop_all() {
    let mut w = WatchControl::new();
    assert_eq!(git_status_watch_start(&mut w, None), Ok(()));
    assert!(w.is_watched(&"anything".to_string()));
    assert_eq!(git_status_watch_stop(&mut w, None), Ok(()));
    assert!(!w.is_watched(&"anything".to_string()));
    let _ = AppError::NetworkUnreachable;
}

#[test]
fn one_check_in_flight_per_repo() {
    let mut w = WatchControl::new();
    let repo = "r1".to_string();
    assert!(w.begin_check(&repo));
    // A second check for the same repository is refused while the first is
    // in flight; another repository is independent.
    assert!(!w.begin_check(&repo));
    assert!(w.begin_check(&"r2".to_string()));
    w.finish_check(&repo);
    assert!(w.begin_check(&repo));
}
