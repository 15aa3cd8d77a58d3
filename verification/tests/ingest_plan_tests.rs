//! What ingestion writes for commits, test runs and sessions.

use hindsight::copilot::{ChatMessage, ChatSession};
use hindsight::git::Commit;
use hindsight::ingest::{
    message_records, outcome_to_string, plan_commits, progress_due, session_record, test_result_records,
    test_run_record, workspace_name, CommitToStore, IngestError, IngestOptions, IngestStats, ProgressEvent,
};
use hindsight::testing::nextest::TestRunSummary;
use hindsight::testing::result::{TestOutcome, TestResult};

fn commit(sha: &str) -> CommitToStore {
    CommitToStore {
        commit: Commit {
            sha: sha.to_string(),
            message: format!("message {sha}"),
            author: "Ada".to_string(),
            author_email: "ada@example.com".to_string(),
            timestamp: 1_700_000_000_000,
            parents: vec!["p1".to_string()],
        },
        diff_json: Some("{\"files\":[]}".to_string()),
    }
}

#[test]
fn test_plan_commits_full() {
    let commits: Vec<CommitToStore> = (0..12).map(|i| commit(&format!("sha{i}"))).collect();
    let stored = vec![false; 12];
    let plan = plan_commits("ws", &commits, None, false, &stored);
    assert_eq!(plan.records.len(), 12);
    assert_eq!(plan.skipped, 0);
    assert_eq!(plan.records[3].sha, "sha3");
    assert_eq!(plan.records[3].workspace_id, "ws");
    assert_eq!(plan.records[3].author_email, Some("ada@example.com".to_string()));
    assert_eq!(plan.records[3].parents_json, Some("[\"p1\"]".to_string()));
    assert_eq!(plan.records[3].diff_json, Some("{\"files\":[]}".to_string()));
    assert_eq!(plan.records[3].timestamp, "2023-11-14T22:13:20+00:00");
    assert_eq!(plan.records[3].id.len(), 36);
    assert_eq!(plan.progress.len(), 1);
    match &plan.progress[0] {
        ProgressEvent::Progress { source, processed, total } => {
            assert_eq!(source, "git");
            assert_eq!(*processed, 10);
            assert_eq!(*total, Some(12));
        }
        other => panic!("unexpected event {other:?}"),
    }
}

#[test]
fn test_plan_commits_incremental_stops_and_skips() {
    let commits: Vec<CommitToStore> = (0..5).map(|i| commit(&format!("sha{i}"))).collect();
    let stored = vec![false, true, false, false, false];
    let plan = plan_commits("ws", &commits, Some("sha3"), true, &stored);
    let shas: Vec<&str> = plan.records.iter().map(|r| r.sha.as_str()).collect();
    assert_eq!(shas, vec!["sha0", "sha2"]);
    assert_eq!(plan.skipped, 1);
    assert!(plan.progress.is_empty());
}

#[test]
fn test_plan_commits_reingest_writes_nothing() {
    let commits: Vec<CommitToStore> = (0..4).map(|i| commit(&format!("sha{i}"))).collect();
    let all_stored = vec![true; 4];
    let plan = plan_commits("ws", &commits, None, true, &all_stored);
    assert!(plan.records.is_empty());
    assert_eq!(plan.skipped, 4);
    let plan = plan_commits("ws", &commits, Some("sha0"), false, &vec![false; 4]);
    assert!(plan.records.is_empty());
    assert_eq!(plan.skipped, 0);
}

#[test]
fn test_plan_commits_not_incremental_keeps_stored() {
    let commits: Vec<CommitToStore> = (0..3).map(|i| commit(&format!("sha{i}"))).collect();
    let stored = vec![true, true, true];
    let plan = plan_commits("ws", &commits, Some("sha0"), false, &stored);
    assert!(plan.records.is_empty());
    let plan = plan_commits("ws", &commits, None, false, &stored);
    assert_eq!(plan.records.len(), 3);
}

#[test]
fn test_outcome_strings() {
    assert_eq!(outcome_to_string(&TestOutcome::Passed), "passed");
    assert_eq!(outcome_to_string(&TestOutcome::Failed), "failed");
    assert_eq!(outcome_to_string(&TestOutcome::Ignored), "ignored");
    assert_eq!(outcome_to_string(&TestOutcome::TimedOut), "timedout");
}

#[test]
fn test_test_records() {
    let summary = TestRunSummary {
        total: 2,
        passed: 1,
        failed: 1,
        ignored: 0,
        exec_time_ms: 3,
        results: vec![
            TestResult { name: "suite::a::b".into(), outcome: TestOutcome::Passed, duration_ms: 1, timestamp: 0, output: None },
            TestResult {
                name: "lonely".into(),
                outcome: TestOutcome::Failed,
                duration_ms: 2,
                timestamp: 0,
                output: Some("boom".into()),
            },
        ],
    };
    let run = test_run_record("ws".to_string(), &summary, Some("abc123"));
    assert_eq!(run.passed_count, 1);
    assert_eq!(run.failed_count, 1);
    assert_eq!(run.ignored_count, 0);
    assert_eq!(run.commit_sha, Some("abc123".to_string()));
    assert!(run.finished_at.is_some());
    let unlinked = test_run_record("ws".to_string(), &summary, None);
    assert!(unlinked.commit_sha.is_none());

    let rows = test_result_records(&run.id, &summary.results);
    assert_eq!(rows.len(), 2);
    assert_eq!(rows[0].suite_name, "suite");
    assert_eq!(rows[0].test_name, "a::b");
    assert_eq!(rows[0].outcome, "passed");
    assert_eq!(rows[0].duration_ms, Some(1));
    assert!(rows[0].output_json.is_none());
    assert_eq!(rows[1].suite_name, "");
    assert_eq!(rows[1].test_name, "lonely");
    let out: serde_json::Value = serde_json::from_str(rows[1].output_json.as_ref().unwrap()).unwrap();
    assert_eq!(out.get("stdout").and_then(|v| v.as_str()), Some("boom"));
    assert!(out.get("stderr").unwrap().is_null());
    assert_eq!(rows[1].run_id, run.id);
}

#[test]
fn test_session_and_message_records() {
    let mut session = ChatSession::new("s-1".into(), "ws".into(), 0);
    session.add_message(ChatMessage::user("Hello".into(), 1_700_000_000_000));
    session.add_message(ChatMessage::assistant("Hi".into(), 1_700_000_001_000));
    let rec = session_record("ws-id".into(), &session);
    assert_eq!(rec.vscode_session_id, "s-1");
    assert_eq!(rec.workspace_id, "ws-id");
    let rows = message_records(&rec.id, &session.messages);
    assert_eq!(rows.len(), 2);
    assert_eq!(rows[0].role, "user");
    assert_eq!(rows[1].role, "assistant");
    assert_eq!(rows[1].content, "Hi");
    assert_eq!(rows[0].timestamp, "2023-11-14T22:13:20+00:00");
}

#[test]
fn test_workspace_names() {
    assert_eq!(workspace_name("/home/me/project"), "project");
    assert_eq!(workspace_name("/home/me/project/"), "project");
    assert_eq!(workspace_name("/home/me/project/."), "project");
    assert_eq!(workspace_name("relative"), "relative");
    assert_eq!(workspace_name("/"), "unknown");
    assert_eq!(workspace_name(""), "unknown");
    assert_eq!(workspace_name("."), "unknown");
    assert_eq!(workspace_name("a/.."), "unknown");
}

#[test]
fn test_progress_due() {
    assert!(progress_due(4, 20, 5));
    assert!(!progress_due(5, 20, 5));
    assert!(progress_due(19, 20, 5));
    assert!(progress_due(0, 1, 5));
}

#[test]
fn test_stats_absorb_and_walk_options() {
    let mut total = IngestStats::default();
    total.absorb(Some(&IngestStats { commits_inserted: 4, ..Default::default() }));
    total.absorb(None);
    assert_eq!(total.commits_inserted, 4);
    assert_eq!(total.warnings, 1);
    let w = IngestOptions::incremental().with_limit(3).walk_options();
    assert_eq!(w.limit, Some(3));
    assert!(w.include_diff);
    let w = IngestOptions::default().walk_options();
    assert!(w.limit.is_none());
    assert!(!w.include_diff);
}

#[test]
fn test_ingest_error_messages() {
    assert_eq!(IngestError::Git("bad".into()).message(), "Git error: bad");
    assert_eq!(
        IngestError::WorkspaceNotFound { path: "/p".into() }.message(),
        "Workspace not found: /p"
    );
}

#[test]
fn test_stats_merge_checks() {
    let big = IngestStats { commits_inserted: usize::MAX, ..IngestStats::default() };
    let one = IngestStats { commits_inserted: 1, ..IngestStats::default() };
    assert!(!big.can_merge_with(&one));
    assert!(one.can_merge_with(&one));
    assert!(!big.total_fits() || big.total_items() == usize::MAX);
    let two = IngestStats { commits_inserted: usize::MAX, messages_inserted: 1, ..IngestStats::default() };
    assert!(!two.total_fits());
    assert!(one.total_fits());
}
