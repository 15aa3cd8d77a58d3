//! The shapes of the answers the database gives, and the checks made on
//! the way to it.

use vstd::prelude::*;

use crate::records::opt_ref;
use crate::support::{json_files_paths, json_files_paths_text};
use crate::text::{decimal, decimal_text};

verus! {

/// Errors of the queries; each carries its message.
#[derive(Debug)]
pub enum QueryError {
    /// The database reported an error.
    Sqlite(String),
    /// A parameter is invalid.
    InvalidParameter(String),
}

impl QueryError {
    /// The error as a sentence.
    pub fn message(&self) -> (s: String)
        ensures
            s@ == match self {
                QueryError::Sqlite(m) => "SQLite error: "@ + m@,
                QueryError::InvalidParameter(m) => "Invalid parameter: "@ + m@,
            },
    {
        let (head, body) = match self {
            QueryError::Sqlite(m) => ("SQLite error: ", m),
            QueryError::InvalidParameter(m) => ("Invalid parameter: ", m),
        };
        let mut s = String::from_str(head);
        s.append(body.as_str());
        s
    }
}

/// An event of the timeline: a commit, a test run or a message.
#[derive(Debug)]
pub struct TimelineEvent {
    pub event_type: String,
    pub event_id: String,
    pub workspace_id: String,
    pub event_timestamp: String,
    pub summary: String,
    pub details_json: Option<String>,
}

/// A failing test of a recorded run.
#[derive(Debug)]
pub struct FailingTest {
    pub test_name: String,
    pub suite_name: String,
    pub full_name: String,
    pub duration_ms: Option<i64>,
    pub output_json: Option<String>,
    pub run_id: String,
    pub commit_sha: Option<String>,
    pub started_at: String,
}

/// The activity of the last days.
#[derive(Clone, Copy, Debug, PartialEq, Eq, Structural)]
pub struct ActivitySummary {
    pub days: u32,
    pub commits: u64,
    pub test_runs: u64,
    pub copilot_sessions: u64,
    pub failing_tests: u64,
}

/// The counts of a test run linked to a commit.
#[derive(Debug)]
pub struct TestRunSummary {
    pub id: String,
    pub timestamp: String,
    pub passed: i32,
    pub failed: i32,
    pub skipped: i32,
}

/// A commit with the files it changed and the test runs linked to it.
#[derive(Debug)]
pub struct CommitWithTests {
    pub id: String,
    pub sha: String,
    pub message: String,
    pub author: String,
    pub timestamp: String,
    pub files: Vec<String>,
    pub test_runs: Vec<TestRunSummary>,
}

/// Check a full-text query: it must not be empty.
pub fn check_query(query: &str) -> (r: Result<(), QueryError>)
    ensures
        query@.len() == 0 ==> (r matches Err(QueryError::InvalidParameter(m)) && m@ == "Query cannot be empty"@),
        query@.len() > 0 ==> r is Ok,
{
    if query.unicode_len() == 0 {
        Err(QueryError::InvalidParameter(String::from_str("Query cannot be empty")))
    } else {
        Ok(())
    }
}

/// The SQLite date modifier for "the last `days` days": `-N days`.
pub fn days_modifier(days: u32) -> (s: String)
    ensures
        s@ == "-"@ + decimal(days as nat) + " days"@,
{
    let mut s = String::from_str("-");
    let digits = decimal_text(days as usize);
    s.append(digits.as_str());
    s.append(" days");
    s
}

/// The activity summary from the four counts the database returns; a
/// negative count, which SQLite's `COUNT` never gives, wraps as `as` does.
pub fn activity_summary(days: u32, commits: i64, test_runs: i64, sessions: i64, failing: i64) -> (a: ActivitySummary)
    ensures
        a == (ActivitySummary {
            days,
            commits: commits as u64,
            test_runs: test_runs as u64,
            copilot_sessions: sessions as u64,
            failing_tests: failing as u64,
        }),
{
    ActivitySummary {
        days,
        commits: commits as u64,
        test_runs: test_runs as u64,
        copilot_sessions: sessions as u64,
        failing_tests: failing as u64,
    }
}

/// The paths among a list of optional paths, in order.
pub open spec fn present_paths(ps: Seq<Option<Seq<char>>>) -> Seq<Seq<char>>
    decreases ps.len(),
{
    if ps.len() == 0 {
        Seq::empty()
    } else {
        match ps.last() {
            Some(p) => present_paths(ps.drop_last()).push(p),
            None => present_paths(ps.drop_last()),
        }
    }
}

/// The files a stored diff names: none without a diff or when the diff has
/// no `files` array; else the string `path` of each entry, in order.
pub open spec fn stored_diff_files(diff_json: Option<Seq<char>>) -> Seq<Seq<char>> {
    match diff_json {
        None => Seq::empty(),
        Some(j) => match json_files_paths_text(j) {
            None => Seq::empty(),
            Some(ps) => present_paths(ps),
        },
    }
}

/// The files a commit's stored diff names.
pub fn diff_files(diff_json: Option<&str>) -> (files: Vec<String>)
    ensures
        files.deep_view() == stored_diff_files(opt_ref(diff_json)),
{
    let mut files: Vec<String> = Vec::new();
    let json = match diff_json {
        None => return files,
        Some(j) => j,
    };
    let paths = match json_files_paths(json) {
        None => return files,
        Some(ps) => ps,
    };
    let ghost ps = paths.deep_view();
    let mut i: usize = 0;
    assert(ps.take(0) =~= Seq::<Option<Seq<char>>>::empty());
    assert(files.deep_view() =~= Seq::<Seq<char>>::empty());
    while i < paths.len()
        invariant
            i <= paths@.len(),
            ps == paths.deep_view(),
            files.deep_view() == present_paths(ps.take(i as int)),
        decreases paths@.len() - i,
    {
        assert(ps.take(i + 1).drop_last() =~= ps.take(i as int));
        let ghost before = files.deep_view();
        match &paths[i] {
            Some(p) => {
                files.push(String::from_str(p.as_str()));
                assert(files.deep_view() =~= before.push(p@));
            },
            None => {},
        }
        i = i + 1;
    }
    assert(ps.take(i as int) =~= ps);
    files
}

} // verus!
