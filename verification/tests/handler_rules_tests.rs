//! The checks and choices of the tool handlers.

use hindsight::handlers::{
    check_commit_details, check_search, combine_ingest, commit_not_found, default_activity_days,
    default_failing_tests_limit, default_incremental, default_ingest_source, default_search_limit,
    default_search_source, default_timeline_limit, ingest_response, plan_ingest, workspace_filter,
    CommitDetailsInput, HandlerError, IngestInput, IngestSources, SearchInput, SearchScope,
};
use hindsight::ingest::{IngestError, IngestStats};

#[test]
fn test_defaults() {
    assert_eq!(default_timeline_limit(), 50);
    assert_eq!(default_search_source(), "all");
    assert_eq!(default_search_limit(), 20);
    assert_eq!(default_failing_tests_limit(), 50);
    assert_eq!(default_activity_days(), 7);
    assert_eq!(default_ingest_source(), "all");
    assert!(default_incremental());
}

#[test]
fn test_handle_search_empty_query() {
    let input = SearchInput { query: String::new(), source: "all".into(), limit: 20 };
    match check_search(&input) {
        Err(HandlerError::InvalidInput(m)) => assert!(m.contains("cannot be empty")),
        other => panic!("unexpected {other:?}"),
    }
}

#[test]
fn test_search_scopes() {
    let mk = |s: &str| SearchInput { query: "fix".into(), source: s.into(), limit: 20 };
    assert_eq!(check_search(&mk("commits")).unwrap(), SearchScope::Commits);
    assert_eq!(check_search(&mk("messages")).unwrap(), SearchScope::Messages);
    assert_eq!(check_search(&mk("all")).unwrap(), SearchScope::All);
    assert_eq!(check_search(&mk("anything")).unwrap(), SearchScope::All);
}

#[test]
fn test_handle_commit_details_empty_sha() {
    let r = check_commit_details(&CommitDetailsInput { sha: String::new() });
    assert!(matches!(r, Err(HandlerError::InvalidInput(_))));
    assert!(check_commit_details(&CommitDetailsInput { sha: "abc".into() }).is_ok());
    let e = commit_not_found("nonexistent");
    assert!(matches!(&e, HandlerError::NotFound(m) if m == "Commit not found: nonexistent"));
    assert_eq!(
        e.message(),
        "Commit not found: nonexistent. Use 'hindsight_search' to find available commits."
    );
}

#[test]
fn test_workspace_filter_prefers_input() {
    assert_eq!(workspace_filter(Some("/a"), Some("/b")), Some("/a"));
    assert_eq!(workspace_filter(None, Some("/b")), Some("/b"));
    assert_eq!(workspace_filter(None, None), None);
}

fn input(source: &str, incremental: bool, limit: Option<usize>) -> IngestInput {
    IngestInput { source: source.into(), workspace: "/repo".into(), incremental, limit }
}

#[test]
fn test_plan_ingest() {
    assert!(matches!(plan_ingest(&input("git", true, None), false, false), Err(HandlerError::WorkspaceNotFound(w)) if w == "/repo"));
    assert!(matches!(plan_ingest(&input("git", true, None), true, false), Err(HandlerError::InvalidInput(m)) if m == "Workspace path is not a directory: /repo"));
    let p = plan_ingest(&input("git", false, Some(100)), true, true).unwrap();
    assert_eq!(p.sources, IngestSources::Git);
    assert_eq!(p.options.commit_limit, Some(100));
    assert!(!p.options.incremental);
    assert!(p.options.include_diffs);
    let p = plan_ingest(&input("whatever", true, None), true, true).unwrap();
    assert_eq!(p.sources, IngestSources::All);
    assert!(p.options.incremental);
}

#[test]
fn test_combine_ingest() {
    let s = IngestStats { commits_inserted: 2, ..Default::default() };
    let t = IngestStats { messages_inserted: 3, ..Default::default() };
    let all = combine_ingest(IngestSources::All, Some(Ok(s)), Some(Err(IngestError::Copilot("x".into())))).unwrap();
    assert_eq!(all.commits_inserted, 2);
    assert_eq!(all.warnings, 0);
    let all = combine_ingest(IngestSources::All, Some(Ok(s)), Some(Ok(t))).unwrap();
    assert_eq!(all.messages_inserted, 3);
    let git = combine_ingest(IngestSources::Git, Some(Err(IngestError::Git("bad".into()))), None);
    assert!(matches!(git, Err(HandlerError::Ingest(m)) if m == "Git error: bad"));
}

#[test]
fn test_ingest_response_message() {
    let s = IngestStats { commits_inserted: 10, sessions_inserted: 2, messages_inserted: 3, ..Default::default() };
    let r = ingest_response("git".into(), s);
    assert_eq!(r.message, "Ingested 15 items from 'git' source");
    assert_eq!(r.stats.total_items, 15);
    assert_eq!(r.source, "git");
}

#[test]
fn test_handler_error_messages() {
    assert_eq!(
        HandlerError::WorkspaceNotFound("/x".into()).message(),
        "Workspace not found: /x. Ensure the path exists and is accessible."
    );
    assert_eq!(
        HandlerError::InvalidInput("bad".into()).message(),
        "Invalid input: bad. Check the tool's required parameters."
    );
}
