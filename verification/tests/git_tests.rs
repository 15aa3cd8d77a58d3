//! Diffs and history walks.

use hindsight::git::{delta_path, delta_status, file_diff, DeltaKind, DiffSummary, GitError, WalkOptions, WalkVerdict};

#[test]
fn test_diff_summary_empty() {
    let d = DiffSummary::empty();
    assert_eq!(d.files_changed, 0);
    assert_eq!(d.insertions, 0);
    assert_eq!(d.deletions, 0);
    assert!(d.files.is_empty());
}

#[test]
fn test_delta_status_words() {
    assert_eq!(delta_status(DeltaKind::Added), "added");
    assert_eq!(delta_status(DeltaKind::Deleted), "deleted");
    assert_eq!(delta_status(DeltaKind::Modified), "modified");
    assert_eq!(delta_status(DeltaKind::Renamed), "renamed");
    assert_eq!(delta_status(DeltaKind::Copied), "copied");
    assert_eq!(delta_status(DeltaKind::Other), "unknown");
}

#[test]
fn test_delta_path_fallbacks() {
    assert_eq!(delta_path(Some("new.rs".into()), Some("old.rs".into())), "new.rs");
    assert_eq!(delta_path(None, Some("old.rs".into())), "old.rs");
    assert_eq!(delta_path(None, None), "<unknown>");
    let f = file_diff(DeltaKind::Added, Some("a.rs".into()), None, 12, 3);
    assert_eq!(f.path, "a.rs");
    assert_eq!(f.status, "added");
    assert_eq!(f.insertions, 12);
    assert_eq!(f.deletions, 3);
}

#[test]
fn test_walk_options_builders() {
    let w = WalkOptions::latest(5).with_diff().from("main").since(10).until(20);
    assert_eq!(w.limit, Some(5));
    assert!(w.include_diff);
    assert_eq!(w.from_ref, Some("main".to_string()));
    assert_eq!(w.since, Some(10));
    assert_eq!(w.until, Some(20));
    let d = WalkOptions::default();
    assert!(d.limit.is_none() && !d.include_diff);
}

#[test]
fn test_walk_verdicts() {
    let w = WalkOptions::latest(2).since(100).until(200);
    assert_eq!(w.verdict(0, 150), WalkVerdict::Take);
    assert_eq!(w.verdict(1, 99), WalkVerdict::Skip);
    assert_eq!(w.verdict(1, 201), WalkVerdict::Skip);
    assert_eq!(w.verdict(2, 150), WalkVerdict::Stop);
    assert_eq!(WalkOptions::default().verdict(1_000_000, -5), WalkVerdict::Take);
}

#[test]
fn test_git_error_messages() {
    assert_eq!(
        GitError::RepositoryNotFound { path: "/x".into() }.message(),
        "Repository not found: /x"
    );
    assert_eq!(
        GitError::InvalidReference { reference: "HEAD".into() }.message(),
        "Invalid commit reference: HEAD"
    );
}
