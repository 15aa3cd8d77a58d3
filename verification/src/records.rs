//! The rows that ingestion writes: workspaces, commits, test runs and
//! results, and assistant sessions and messages.
//!
//! Identifiers are fresh v4 UUIDs; times are RFC 3339 text.

use vstd::prelude::*;

use crate::cli::parser::opt_str;
use crate::support::{
    json_pair, json_pair_text, json_string_list, json_string_list_text, new_record_id, now_rfc3339,
};

verus! {

pub open spec fn opt_ref(o: Option<&str>) -> Option<Seq<char>> {
    match o {
        Some(s) => Some(s@),
        None => None,
    }
}

/// A workspace row.
#[derive(Debug)]
pub struct WorkspaceRecord {
    /// Unique identifier.
    pub id: String,
    /// Workspace name.
    pub name: String,
    /// Filesystem path.
    pub path: String,
    /// Creation time.
    pub created_at: String,
    /// Last update time.
    pub updated_at: String,
}

impl WorkspaceRecord {
    /// A new workspace row, created and updated now.
    pub fn new(name: String, path: String) -> (r: WorkspaceRecord)
        ensures
            r.name == name,
            r.path == path,
            r.id@.len() == 36,
            r.created_at@ == r.updated_at@,
    {
        let now = now_rfc3339();
        WorkspaceRecord { id: new_record_id(), name, path, created_at: now.clone(), updated_at: now }
    }
}

/// A commit row.
#[derive(Debug)]
pub struct CommitRecord {
    pub id: String,
    pub workspace_id: String,
    pub sha: String,
    pub author: String,
    pub author_email: Option<String>,
    pub message: String,
    /// Commit time.
    pub timestamp: String,
    /// The parents' SHAs as a JSON list.
    pub parents_json: Option<String>,
    /// The diff summary as JSON.
    pub diff_json: Option<String>,
    pub created_at: String,
}

impl CommitRecord {
    /// A new commit row without parents or diff.
    pub fn new(
        workspace_id: String,
        sha: String,
        author: String,
        author_email: Option<String>,
        message: String,
        timestamp: String,
    ) -> (r: CommitRecord)
        ensures
            r.workspace_id == workspace_id,
            r.sha == sha,
            r.author == author,
            r.author_email == author_email,
            r.message == message,
            r.timestamp == timestamp,
            r.parents_json is None,
            r.diff_json is None,
            r.id@.len() == 36,
    {
        CommitRecord {
            id: new_record_id(),
            workspace_id,
            sha,
            author,
            author_email,
            message,
            timestamp,
            parents_json: None,
            diff_json: None,
            created_at: now_rfc3339(),
        }
    }

    /// The row with its parents' SHAs, as a JSON list.
    pub fn with_parents(self, parents: Vec<String>) -> (r: CommitRecord)
        ensures
            r == (CommitRecord { parents_json: r.parents_json, ..self }),
            opt_str(r.parents_json) == Some(json_string_list_text(parents.deep_view())),
    {
        let mut s = self;
        s.parents_json = Some(json_string_list(&parents));
        s
    }

    /// The row with its diff summary's JSON.
    pub fn with_diff_json(self, diff_json: String) -> (r: CommitRecord)
        ensures
            r == (CommitRecord { diff_json: Some(diff_json), ..self }),
    {
        let mut s = self;
        s.diff_json = Some(diff_json);
        s
    }
}

/// A test run row.
#[derive(Debug)]
pub struct TestRunRecord {
    pub id: String,
    pub workspace_id: String,
    pub commit_sha: Option<String>,
    pub started_at: String,
    pub finished_at: Option<String>,
    pub passed_count: i32,
    pub failed_count: i32,
    pub ignored_count: i32,
    pub metadata_json: Option<String>,
}

impl TestRunRecord {
    /// A new run row, started now, with no counts.
    pub fn new(workspace_id: String) -> (r: TestRunRecord)
        ensures
            r.workspace_id == workspace_id,
            r.commit_sha is None,
            r.finished_at is None,
            r.passed_count == 0,
            r.failed_count == 0,
            r.ignored_count == 0,
            r.metadata_json is None,
            r.id@.len() == 36,
    {
        TestRunRecord {
            id: new_record_id(),
            workspace_id,
            commit_sha: None,
            started_at: now_rfc3339(),
            finished_at: None,
            passed_count: 0,
            failed_count: 0,
            ignored_count: 0,
            metadata_json: None,
        }
    }

    /// The row linked to a commit.
    pub fn with_commit(self, sha: &str) -> (r: TestRunRecord)
        ensures
            r == (TestRunRecord { commit_sha: r.commit_sha, ..self }),
            opt_str(r.commit_sha) == Some(sha@),
    {
        let mut s = self;
        s.commit_sha = Some(String::from_str(sha));
        s
    }

    /// The row finished now, with its counts.
    pub fn finished(self, passed: i32, failed: i32, ignored: i32) -> (r: TestRunRecord)
        ensures
            r == (TestRunRecord {
                finished_at: r.finished_at,
                passed_count: passed,
                failed_count: failed,
                ignored_count: ignored,
                ..self
            }),
            r.finished_at is Some,
    {
        let mut s = self;
        s.finished_at = Some(now_rfc3339());
        s.passed_count = passed;
        s.failed_count = failed;
        s.ignored_count = ignored;
        s
    }
}

/// A test result row.
#[derive(Debug)]
pub struct TestResultRecord {
    pub id: String,
    pub run_id: String,
    pub suite_name: String,
    pub test_name: String,
    pub outcome: String,
    pub duration_ms: Option<i64>,
    /// Captured output as JSON.
    pub output_json: Option<String>,
    pub created_at: String,
}

impl TestResultRecord {
    /// A new result row without output.
    pub fn new(
        run_id: String,
        suite_name: String,
        test_name: String,
        outcome: String,
        duration_ms: Option<i64>,
    ) -> (r: TestResultRecord)
        ensures
            r.run_id == run_id,
            r.suite_name == suite_name,
            r.test_name == test_name,
            r.outcome == outcome,
            r.duration_ms == duration_ms,
            r.output_json is None,
            r.id@.len() == 36,
    {
        TestResultRecord {
            id: new_record_id(),
            run_id,
            suite_name,
            test_name,
            outcome,
            duration_ms,
            output_json: None,
            created_at: now_rfc3339(),
        }
    }

    /// The row with captured output: when there is any, the JSON object
    /// `{"stdout": .., "stderr": ..}`; otherwise the row is unchanged.
    pub fn with_output(self, stdout: Option<&str>, stderr: Option<&str>) -> (r: TestResultRecord)
        ensures
            r == (TestResultRecord { output_json: r.output_json, ..self }),
            if stdout is Some || stderr is Some {
                opt_str(r.output_json) == Some(json_pair_text("stdout"@, opt_ref(stdout), "stderr"@, opt_ref(stderr)))
            } else {
                r.output_json == self.output_json
            },
    {
        let mut s = self;
        if stdout.is_some() || stderr.is_some() {
            s.output_json = Some(json_pair("stdout", stdout, "stderr", stderr));
        }
        s
    }
}

/// An assistant session row.
#[derive(Debug)]
pub struct CopilotSessionRecord {
    pub id: String,
    pub workspace_id: String,
    pub vscode_session_id: String,
    pub created_at: String,
    pub updated_at: String,
    pub metadata_json: Option<String>,
}

impl CopilotSessionRecord {
    /// A new session row, created and updated now.
    pub fn new(workspace_id: String, vscode_session_id: String) -> (r: CopilotSessionRecord)
        ensures
            r.workspace_id == workspace_id,
            r.vscode_session_id == vscode_session_id,
            r.metadata_json is None,
            r.id@.len() == 36,
            r.created_at@ == r.updated_at@,
    {
        let now = now_rfc3339();
        CopilotSessionRecord {
            id: new_record_id(),
            workspace_id,
            vscode_session_id,
            created_at: now.clone(),
            updated_at: now,
            metadata_json: None,
        }
    }

    /// The row with its model and mode: when either is known, the JSON
    /// object `{"model": .., "mode": ..}`; otherwise the row is unchanged.
    pub fn with_metadata(self, model: Option<&str>, mode: Option<&str>) -> (r: CopilotSessionRecord)
        ensures
            r == (CopilotSessionRecord { metadata_json: r.metadata_json, ..self }),
            if model is Some || mode is Some {
                opt_str(r.metadata_json) == Some(json_pair_text("model"@, opt_ref(model), "mode"@, opt_ref(mode)))
            } else {
                r.metadata_json == self.metadata_json
            },
    {
        let mut s = self;
        if model.is_some() || mode.is_some() {
            s.metadata_json = Some(json_pair("model", model, "mode", mode));
        }
        s
    }
}

/// An assistant message row.
#[derive(Debug)]
pub struct CopilotMessageRecord {
    pub id: String,
    pub session_id: String,
    pub request_id: Option<String>,
    pub role: String,
    pub content: String,
    pub variables_json: Option<String>,
    /// When the message was sent.
    pub timestamp: String,
    pub created_at: String,
}

impl CopilotMessageRecord {
    /// A new message row.
    pub fn new(session_id: String, role: String, content: String, timestamp: String) -> (r: CopilotMessageRecord)
        ensures
            r.session_id == session_id,
            r.role == role,
            r.content == content,
            r.timestamp == timestamp,
            r.request_id is None,
            r.variables_json is None,
            r.id@.len() == 36,
    {
        CopilotMessageRecord {
            id: new_record_id(),
            session_id,
            request_id: None,
            role,
            content,
            variables_json: None,
            timestamp,
            created_at: now_rfc3339(),
        }
    }

    /// The row with the request it answers.
    pub fn with_request_id(self, request_id: &str) -> (r: CopilotMessageRecord)
        ensures
            r == (CopilotMessageRecord { request_id: r.request_id, ..self }),
            opt_str(r.request_id) == Some(request_id@),
    {
        let mut s = self;
        s.request_id = Some(String::from_str(request_id));
        s
    }

    /// The row with its variables' JSON.
    pub fn with_variables_json(self, json: String) -> (r: CopilotMessageRecord)
        ensures
            r == (CopilotMessageRecord { variables_json: Some(json), ..self }),
    {
        let mut s = self;
        s.variables_json = Some(json);
        s
    }
}

} // verus!
