//! The tools' inputs and responses, and the checks and choices each tool
//! makes before and after it asks the database.

use vstd::prelude::*;

use crate::cli::parser::opt_str;
use crate::ingest::{IngestError, IngestOptions, IngestStats, merged, total_of, zero_stats, can_merge};
use crate::records::opt_ref;
use crate::text::{decimal, decimal_text, str_eq};

verus! {

/// Errors of the tool handlers; each carries its message.
#[derive(Debug)]
pub enum HandlerError {
    /// A database query failed.
    Query(String),
    /// Data ingestion failed.
    Ingest(String),
    /// The input is invalid.
    InvalidInput(String),
    /// JSON could not be processed.
    Json(String),
    /// Something asked for does not exist.
    NotFound(String),
    /// The workspace does not exist.
    WorkspaceNotFound(String),
}

/// The text of a handler error.
pub open spec fn handler_error_text(e: HandlerError) -> Seq<char> {
    match e {
        HandlerError::Query(m) => "Database query failed: "@ + m@
            + ". Try running 'hindsight_ingest' to populate the database."@,
        HandlerError::Ingest(m) => "Data ingestion failed: "@ + m@,
        HandlerError::InvalidInput(m) => "Invalid input: "@ + m@ + ". Check the tool's required parameters."@,
        HandlerError::Json(m) => "Failed to process JSON: "@ + m@,
        HandlerError::NotFound(m) => m@ + ". Use 'hindsight_search' to find available commits."@,
        HandlerError::WorkspaceNotFound(m) => "Workspace not found: "@ + m@
            + ". Ensure the path exists and is accessible."@,
    }
}

impl HandlerError {
    /// The error as a sentence.
    pub fn message(&self) -> (s: String)
        ensures
            s@ == handler_error_text(*self),
    {
        let (head, body, tail) = match self {
            HandlerError::Query(m) => (
                "Database query failed: ",
                m,
                ". Try running 'hindsight_ingest' to populate the database.",
            ),
            HandlerError::Ingest(m) => ("Data ingestion failed: ", m, ""),
            HandlerError::InvalidInput(m) => ("Invalid input: ", m, ". Check the tool's required parameters."),
            HandlerError::Json(m) => ("Failed to process JSON: ", m, ""),
            HandlerError::NotFound(m) => ("", m, ". Use 'hindsight_search' to find available commits."),
            HandlerError::WorkspaceNotFound(m) => (
                "Workspace not found: ",
                m,
                ". Ensure the path exists and is accessible.",
            ),
        };
        let mut s = String::from_str(head);
        s.append(body.as_str());
        s.append(tail);
        proof {
            reveal_strlit("");
            assert(s@ =~= handler_error_text(*self));
        }
        s
    }
}

// ---------------------------------------------------------------------------
// Inputs and their defaults
// ---------------------------------------------------------------------------

/// Input of the timeline tool.
#[derive(Debug)]
pub struct TimelineInput {
    /// Maximum number of events (default 50).
    pub limit: usize,
    /// Workspace to filter by.
    pub workspace: Option<String>,
}

/// The number of timeline events when none is asked for.
pub open spec fn timeline_limit_default() -> nat {
    50
}

/// The default number of timeline events.
pub fn default_timeline_limit() -> (n: usize)
    ensures
        n == timeline_limit_default(),
{
    50
}

/// Input of the search tool.
#[derive(Debug)]
pub struct SearchInput {
    /// What to search for.
    pub query: String,
    /// Where to search: commits, messages or all (default all).
    pub source: String,
    /// Maximum number of results (default 20).
    pub limit: usize,
}

/// The search source when none is asked for.
pub open spec fn search_source_default() -> Seq<char> {
    "all"@
}

/// The default search source.
pub fn default_search_source() -> (s: String)
    ensures
        s@ == search_source_default(),
{
    String::from_str("all")
}

/// The number of search results when none is asked for.
pub open spec fn search_limit_default() -> nat {
    20
}

/// The default number of search results.
pub fn default_search_limit() -> (n: usize)
    ensures
        n == search_limit_default(),
{
    20
}

/// Input of the failing-tests tool.
#[derive(Debug)]
pub struct FailingTestsInput {
    /// Maximum number of tests (default 50).
    pub limit: usize,
    /// Workspace to filter by.
    pub workspace: Option<String>,
    /// Commit to filter by.
    pub commit: Option<String>,
}

/// The number of failing tests when none is asked for.
pub open spec fn failing_tests_limit_default() -> nat {
    50
}

/// The default number of failing tests.
pub fn default_failing_tests_limit() -> (n: usize)
    ensures
        n == failing_tests_limit_default(),
{
    50
}

/// Input of the activity-summary tool.
#[derive(Debug)]
pub struct ActivitySummaryInput {
    /// Number of days to summarize (default 7).
    pub days: u32,
}

/// The number of days summarized when none is asked for.
pub open spec fn activity_days_default() -> nat {
    7
}

/// The default number of days of activity.
pub fn default_activity_days() -> (n: u32)
    ensures
        n == activity_days_default(),
{
    7
}

/// Input of the commit-details tool.
#[derive(Debug)]
pub struct CommitDetailsInput {
    /// The commit's full or partial SHA.
    pub sha: String,
}

/// Input of the ingest tool.
#[derive(Debug)]
pub struct IngestInput {
    /// What to ingest: git, copilot or all (default all).
    pub source: String,
    /// The workspace to ingest.
    pub workspace: String,
    /// Incremental sync (default true).
    pub incremental: bool,
    /// Maximum number of commits.
    pub limit: Option<usize>,
}

/// The ingestion source when none is asked for.
pub open spec fn ingest_source_default() -> Seq<char> {
    "all"@
}

/// The default ingest source.
pub fn default_ingest_source() -> (s: String)
    ensures
        s@ == ingest_source_default(),
{
    String::from_str("all")
}

/// Whether ingestion is incremental when nothing is asked for.
pub open spec fn incremental_default() -> bool {
    true
}

/// Ingestion is incremental by default.
pub fn default_incremental() -> (b: bool)
    ensures
        b == incremental_default(),
{
    true
}

// ---------------------------------------------------------------------------
// Choices made before the query
// ---------------------------------------------------------------------------

/// The workspace a query is restricted to: the one asked for, else the
/// server's default.
pub fn workspace_filter<'a>(asked: Option<&'a str>, default_workspace: Option<&'a str>) -> (w: Option<&'a str>)
    ensures
        opt_ref(w) == match asked {
            Some(a) => Some(a@),
            None => opt_ref(default_workspace),
        },
{
    match asked {
        Some(a) => Some(a),
        None => default_workspace,
    }
}

/// Where a search looks.
#[derive(Clone, Copy, PartialEq, Eq, Structural, Debug)]
pub enum SearchScope {
    Commits,
    Messages,
    All,
}

/// The scope a source word names; any other word means all.
pub open spec fn scope_of(source: Seq<char>) -> SearchScope {
    if source == "commits"@ {
        SearchScope::Commits
    } else if source == "messages"@ {
        SearchScope::Messages
    } else {
        SearchScope::All
    }
}

pub open spec fn empty_query_text() -> Seq<char> {
    "Search query cannot be empty. Provide a search term like 'refactor' or 'fix bug'."@
}

/// Check a search: the query must not be empty; the source picks the scope.
pub fn check_search(input: &SearchInput) -> (r: Result<SearchScope, HandlerError>)
    ensures
        input.query@.len() == 0 ==> (r matches Err(HandlerError::InvalidInput(m)) && m@ == empty_query_text()),
        input.query@.len() > 0 ==> r == Ok::<SearchScope, HandlerError>(scope_of(input.source@)),
{
    if input.query.as_str().unicode_len() == 0 {
        return Err(HandlerError::InvalidInput(String::from_str(
            "Search query cannot be empty. Provide a search term like 'refactor' or 'fix bug'.",
        )));
    }
    if str_eq(input.source.as_str(), "commits") {
        Ok(SearchScope::Commits)
    } else if str_eq(input.source.as_str(), "messages") {
        Ok(SearchScope::Messages)
    } else {
        Ok(SearchScope::All)
    }
}

pub open spec fn empty_sha_text() -> Seq<char> {
    "Commit SHA is required. Provide a full or partial SHA like 'abc123' or 'abc123def456789'."@
}

/// Check a commit-details request: the SHA must not be empty.
pub fn check_commit_details(input: &CommitDetailsInput) -> (r: Result<(), HandlerError>)
    ensures
        input.sha@.len() == 0 ==> (r matches Err(HandlerError::InvalidInput(m)) && m@ == empty_sha_text()),
        input.sha@.len() > 0 ==> r is Ok,
{
    if input.sha.as_str().unicode_len() == 0 {
        Err(HandlerError::InvalidInput(String::from_str(
            "Commit SHA is required. Provide a full or partial SHA like 'abc123' or 'abc123def456789'.",
        )))
    } else {
        Ok(())
    }
}

/// The answer when no commit matches a SHA.
pub fn commit_not_found(sha: &str) -> (e: HandlerError)
    ensures
        e matches HandlerError::NotFound(m) && m@ == "Commit not found: "@ + sha@,
{
    let mut m = String::from_str("Commit not found: ");
    m.append(sha);
    HandlerError::NotFound(m)
}

// ---------------------------------------------------------------------------
// Ingestion requests
// ---------------------------------------------------------------------------

/// Which sources an ingestion request reads.
#[derive(Clone, Copy, PartialEq, Eq, Structural, Debug)]
pub enum IngestSources {
    Git,
    Copilot,
    All,
}

/// What an ingestion request asks for.
#[derive(Debug)]
pub struct IngestPlan {
    pub options: IngestOptions,
    pub sources: IngestSources,
}

pub open spec fn sources_of(source: Seq<char>) -> IngestSources {
    if source == "git"@ {
        IngestSources::Git
    } else if source == "copilot"@ {
        IngestSources::Copilot
    } else {
        IngestSources::All
    }
}

/// The options an ingestion request asks for: incremental or full, limited
/// when a limit is given.
pub open spec fn options_of(input: IngestInput) -> IngestOptions {
    IngestOptions { commit_limit: input.limit, include_diffs: true, incremental: input.incremental }
}

/// An ingestion request's plan keeps what was asked: the limit unchanged
/// (incremental or not), incremental as asked, diffs always included; and
/// the source words `git` and `copilot` read that source alone, any other
/// word every source.
pub proof fn law_ingest_plan_keeps_request(input: IngestInput)
    ensures
        options_of(input).commit_limit == input.limit,
        options_of(input).incremental == input.incremental,
        options_of(input).include_diffs,
        input.source@ == "git"@ ==> sources_of(input.source@) == IngestSources::Git,
        input.source@ == "copilot"@ ==> sources_of(input.source@) == IngestSources::Copilot,
        input.source@ != "git"@ && input.source@ != "copilot"@ ==> sources_of(input.source@) == IngestSources::All,
{
    reveal_strlit("git");
    reveal_strlit("copilot");
    assert("copilot"@ != "git"@) by {
        assert("copilot"@[0] != "git"@[0]);
    }
}

/// Check an ingestion request, given whether its workspace path exists and
/// is a directory, and say what to ingest.
pub fn plan_ingest(input: &IngestInput, exists: bool, is_dir: bool) -> (r: Result<IngestPlan, HandlerError>)
    ensures
        !exists ==> (r matches Err(HandlerError::WorkspaceNotFound(w)) && w@ == input.workspace@),
        exists && !is_dir ==> (r matches Err(HandlerError::InvalidInput(m)) && m@ == "Workspace path is not a directory: "@
            + input.workspace@),
        exists && is_dir ==> (r matches Ok(p) && p.options == options_of(*input) && p.sources == sources_of(
            input.source@,
        )),
        exists && is_dir ==> (r matches Ok(p) && p.options.commit_limit == input.limit && p.options.incremental
            == input.incremental && p.options.include_diffs),
{
    if !exists {
        return Err(HandlerError::WorkspaceNotFound(input.workspace.clone()));
    }
    if !is_dir {
        let mut m = String::from_str("Workspace path is not a directory: ");
        m.append(input.workspace.as_str());
        return Err(HandlerError::InvalidInput(m));
    }
    let options = if input.incremental {
        IngestOptions::incremental()
    } else {
        IngestOptions::full()
    };
    let options = match input.limit {
        Some(limit) => options.with_limit(limit),
        None => options,
    };
    let sources = if str_eq(input.source.as_str(), "git") {
        IngestSources::Git
    } else if str_eq(input.source.as_str(), "copilot") {
        IngestSources::Copilot
    } else {
        IngestSources::All
    };
    Ok(IngestPlan { options, sources })
}

/// The statistics of an ingestion request, from the outcome of each source
/// that was read: a single source's failure fails the request; when all
/// sources are read, failures are passed over.
pub fn combine_ingest(
    sources: IngestSources,
    git: Option<Result<IngestStats, IngestError>>,
    copilot: Option<Result<IngestStats, IngestError>>,
) -> (r: Result<IngestStats, HandlerError>)
    requires
        match (git, copilot) {
            (Some(Ok(g)), Some(Ok(c))) => can_merge(g, c),
            _ => true,
        },
    ensures
        sources == IngestSources::Git ==> match git {
            Some(Ok(g)) => r == Ok::<IngestStats, HandlerError>(g),
            Some(Err(_)) => r matches Err(HandlerError::Ingest(_)),
            None => r == Ok::<IngestStats, HandlerError>(zero_stats()),
        },
        sources == IngestSources::Copilot ==> match copilot {
            Some(Ok(c)) => r == Ok::<IngestStats, HandlerError>(c),
            Some(Err(_)) => r matches Err(HandlerError::Ingest(_)),
            None => r == Ok::<IngestStats, HandlerError>(zero_stats()),
        },
        sources == IngestSources::All ==> r == Ok::<IngestStats, HandlerError>(match (git, copilot) {
            (Some(Ok(g)), Some(Ok(c))) => merged(g, c),
            (Some(Ok(g)), _) => g,
            (_, Some(Ok(c))) => c,
            _ => zero_stats(),
        }),
{
    let mut total = IngestStats::default();
    match sources {
        IngestSources::Git => match git {
            Some(Ok(g)) => {
                total.merge(&g);
                Ok(total)
            },
            Some(Err(e)) => Err(HandlerError::Ingest(e.message())),
            None => Ok(total),
        },
        IngestSources::Copilot => match copilot {
            Some(Ok(c)) => {
                total.merge(&c);
                Ok(total)
            },
            Some(Err(e)) => Err(HandlerError::Ingest(e.message())),
            None => Ok(total),
        },
        IngestSources::All => {
            if let Some(Ok(g)) = &git {
                total.merge(g);
            }
            if let Some(Ok(c)) = &copilot {
                total.merge(c);
            }
            Ok(total)
        },
    }
}

// ---------------------------------------------------------------------------
// Responses
// ---------------------------------------------------------------------------

/// The statistics an ingestion answers with.
#[derive(Debug)]
pub struct IngestStatsResponse {
    pub commits_inserted: usize,
    pub commits_skipped: usize,
    pub test_runs_inserted: usize,
    pub test_results_inserted: usize,
    pub sessions_inserted: usize,
    pub messages_inserted: usize,
    /// The number of items inserted (saturating at the largest `usize`).
    pub total_items: usize,
}

/// The number of items inserted, saturating at the largest `usize`.
pub open spec fn saturated_total(s: IngestStats) -> usize {
    if total_of(s) <= usize::MAX {
        total_of(s) as usize
    } else {
        usize::MAX
    }
}

pub open spec fn stats_response(s: IngestStats) -> IngestStatsResponse {
    IngestStatsResponse {
        commits_inserted: s.commits_inserted,
        commits_skipped: s.commits_skipped,
        test_runs_inserted: s.test_runs_inserted,
        test_results_inserted: s.test_results_inserted,
        sessions_inserted: s.sessions_inserted,
        messages_inserted: s.messages_inserted,
        total_items: saturated_total(s),
    }
}

fn saturating_total(s: &IngestStats) -> (n: usize)
    ensures
        n == saturated_total(*s),
{
    let a = s.commits_inserted.checked_add(s.test_runs_inserted);
    let b = match a {
        Some(a) => a.checked_add(s.test_results_inserted),
        None => None,
    };
    let c = match b {
        Some(b) => b.checked_add(s.sessions_inserted),
        None => None,
    };
    let d = match c {
        Some(c) => c.checked_add(s.messages_inserted),
        None => None,
    };
    match d {
        Some(d) => d,
        None => usize::MAX,
    }
}

impl From<IngestStats> for IngestStatsResponse {
    fn from(stats: IngestStats) -> (r: IngestStatsResponse) {
        IngestStatsResponse {
            commits_inserted: stats.commits_inserted,
            commits_skipped: stats.commits_skipped,
            test_runs_inserted: stats.test_runs_inserted,
            test_results_inserted: stats.test_results_inserted,
            sessions_inserted: stats.sessions_inserted,
            messages_inserted: stats.messages_inserted,
            total_items: saturating_total(&stats),
        }
    }
}

impl vstd::std_specs::convert::FromSpecImpl<IngestStats> for IngestStatsResponse {
    open spec fn obeys_from_spec() -> bool {
        true
    }

    open spec fn from_spec(v: IngestStats) -> IngestStatsResponse {
        stats_response(v)
    }
}

/// The answer to an ingestion request.
#[derive(Debug)]
pub struct IngestResponse {
    /// The source asked for.
    pub source: String,
    /// What was inserted.
    pub stats: IngestStatsResponse,
    /// A sentence for people.
    pub message: String,
}

/// The answer to an ingestion request that read `source`:
/// "Ingested N items from 'source' source".
pub fn ingest_response(source: String, stats: IngestStats) -> (r: IngestResponse)
    requires
        total_of(stats) <= usize::MAX,
    ensures
        r.source == source,
        r.stats == stats_response(stats),
        r.message@ == "Ingested "@ + decimal(total_of(stats) as nat) + " items from '"@ + source@ + "' source"@,
{
    let n = stats.total_items();
    let mut message = String::from_str("Ingested ");
    let digits = decimal_text(n);
    message.append(digits.as_str());
    message.append(" items from '");
    message.append(source.as_str());
    message.append("' source");
    IngestResponse { source, stats: IngestStatsResponse::from(stats), message }
}

/// The response's total is the statistics' total of inserted items.
pub proof fn law_response_total(s: IngestStats)
    requires
        total_of(s) <= usize::MAX,
    ensures
        stats_response(s).total_items == total_of(s),
        stats_response(s).commits_inserted == s.commits_inserted,
{
}

} // verus!
