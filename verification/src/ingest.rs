//! Ingestion: the options and statistics of a run, and the rules that turn
//! commits, test runs and assistant sessions into rows.
//!
//! The database and the sources are read and written by the caller; the
//! functions here decide what is written.

use vstd::prelude::*;

use crate::cli::parser::opt_str;
use crate::copilot::{ChatMessage, ChatSession, role_text};
use crate::git::{Commit, WalkOptions};
use crate::records::{
    CommitRecord, CopilotMessageRecord, CopilotSessionRecord, TestResultRecord, TestRunRecord, opt_ref,
};
use crate::support::{json_pair_text, json_string_list_text, now_rfc3339, rfc3339_from_millis, rfc3339_text};
use crate::testing::nextest::TestRunSummary;
use crate::testing::result::{TestOutcome, TestResult};
use crate::text::{chars_of, find_pair, find_pair_exec, lemma_find_pair, str_eq, string_of};

verus! {

// ---------------------------------------------------------------------------
// Errors and progress
// ---------------------------------------------------------------------------

/// Ingestion errors; each carries the cause's message.
#[derive(Debug)]
pub enum IngestError {
    /// Database error.
    Database(String),
    /// Git error.
    Git(String),
    /// Assistant-session error.
    Copilot(String),
    /// Test-report error.
    Tests(String),
    /// JSON serialization error.
    Json(String),
    /// Workspace not found.
    WorkspaceNotFound { path: String },
}

impl IngestError {
    /// The error as a sentence.
    pub fn message(&self) -> (s: String)
        ensures
            s@ == match self {
                IngestError::Database(m) => "Database error: "@ + m@,
                IngestError::Git(m) => "Git error: "@ + m@,
                IngestError::Copilot(m) => "Copilot error: "@ + m@,
                IngestError::Tests(m) => "Tests error: "@ + m@,
                IngestError::Json(m) => "JSON error: "@ + m@,
                IngestError::WorkspaceNotFound { path } => "Workspace not found: "@ + path@,
            },
    {
        let (head, tail) = match self {
            IngestError::Database(m) => ("Database error: ", m),
            IngestError::Git(m) => ("Git error: ", m),
            IngestError::Copilot(m) => ("Copilot error: ", m),
            IngestError::Tests(m) => ("Tests error: ", m),
            IngestError::Json(m) => ("JSON error: ", m),
            IngestError::WorkspaceNotFound { path } => ("Workspace not found: ", path),
        };
        let mut s = String::from_str(head);
        s.append(tail.as_str());
        s
    }
}

/// Statistics from an ingestion.
#[derive(Clone, Copy, Debug, PartialEq, Eq, Structural)]
pub struct IngestStats {
    /// Commits inserted.
    pub commits_inserted: usize,
    /// Commits skipped because they were already stored.
    pub commits_skipped: usize,
    /// Test runs inserted.
    pub test_runs_inserted: usize,
    /// Test results inserted.
    pub test_results_inserted: usize,
    /// Assistant sessions inserted.
    pub sessions_inserted: usize,
    /// Assistant messages inserted.
    pub messages_inserted: usize,
    /// Warnings or errors met.
    pub warnings: usize,
}

/// Progress of an ingestion.
#[derive(Debug)]
pub enum ProgressEvent {
    /// Ingestion of a source starts.
    Started { source: String, total_items: Option<usize> },
    /// Items were processed.
    Progress { source: String, processed: usize, total: Option<usize> },
    /// A non-fatal error occurred.
    Warning { source: String, message: String },
    /// Ingestion of a source completed.
    Completed { source: String, stats: IngestStats },
}

// ---------------------------------------------------------------------------
// Options and statistics
// ---------------------------------------------------------------------------

/// Options for git ingestion.
#[derive(Clone, Copy, Debug, PartialEq, Eq, Structural)]
pub struct IngestOptions {
    /// Maximum commits to ingest (`None`: all).
    pub commit_limit: Option<usize>,
    /// Include diff information.
    pub include_diffs: bool,
    /// Skip commits already stored, and stop at the last one ingested.
    pub incremental: bool,
}

impl Default for IngestOptions {
    fn default() -> (o: IngestOptions)
        ensures
            o == (IngestOptions { commit_limit: None, include_diffs: false, incremental: false }),
    {
        IngestOptions { commit_limit: None, include_diffs: false, incremental: false }
    }
}

impl IngestOptions {
    /// Options for a full ingestion: all commits, with diffs.
    pub fn full() -> (o: IngestOptions)
        ensures
            o == (IngestOptions { commit_limit: None, include_diffs: true, incremental: false }),
    {
        IngestOptions { commit_limit: None, include_diffs: true, incremental: false }
    }

    /// Options for an incremental sync: new commits, with diffs.
    pub fn incremental() -> (o: IngestOptions)
        ensures
            o == (IngestOptions { commit_limit: None, include_diffs: true, incremental: true }),
    {
        IngestOptions { commit_limit: None, include_diffs: true, incremental: true }
    }

    /// The same options, limited to the `limit` most recent commits.
    pub fn with_limit(self, limit: usize) -> (o: IngestOptions)
        ensures
            o == (IngestOptions { commit_limit: Some(limit), ..self }),
    {
        let mut s = self;
        s.commit_limit = Some(limit);
        s
    }

    /// The same options, with diffs.
    pub fn with_diffs(self) -> (o: IngestOptions)
        ensures
            o == (IngestOptions { include_diffs: true, ..self }),
    {
        let mut s = self;
        s.include_diffs = true;
        s
    }

    /// The history walk these options ask for: the latest `commit_limit`
    /// commits (or all), with diffs when asked.
    pub fn walk_options(&self) -> (w: WalkOptions)
        ensures
            w.limit == self.commit_limit,
            w.from_ref is None,
            w.since is None,
            w.until is None,
            w.include_diff == self.include_diffs,
    {
        let w = match self.commit_limit {
            Some(n) => WalkOptions::latest(n),
            None => WalkOptions::default(),
        };
        if self.include_diffs {
            w.with_diff()
        } else {
            w
        }
    }
}

pub open spec fn zero_stats() -> IngestStats {
    IngestStats {
        commits_inserted: 0,
        commits_skipped: 0,
        test_runs_inserted: 0,
        test_results_inserted: 0,
        sessions_inserted: 0,
        messages_inserted: 0,
        warnings: 0,
    }
}

impl Default for IngestStats {
    fn default() -> (s: IngestStats)
        ensures
            s == zero_stats(),
    {
        IngestStats {
            commits_inserted: 0,
            commits_skipped: 0,
            test_runs_inserted: 0,
            test_results_inserted: 0,
            sessions_inserted: 0,
            messages_inserted: 0,
            warnings: 0,
        }
    }
}

/// The number of items an ingestion inserted.
pub open spec fn total_of(s: IngestStats) -> int {
    s.commits_inserted + s.test_runs_inserted + s.test_results_inserted + s.sessions_inserted
        + s.messages_inserted
}

/// Whether adding two statistics field by field stays within `usize`.
pub open spec fn can_merge(a: IngestStats, b: IngestStats) -> bool {
    &&& a.commits_inserted + b.commits_inserted <= usize::MAX
    &&& a.commits_skipped + b.commits_skipped <= usize::MAX
    &&& a.test_runs_inserted + b.test_runs_inserted <= usize::MAX
    &&& a.test_results_inserted + b.test_results_inserted <= usize::MAX
    &&& a.sessions_inserted + b.sessions_inserted <= usize::MAX
    &&& a.messages_inserted + b.messages_inserted <= usize::MAX
    &&& a.warnings + b.warnings <= usize::MAX
}

/// Two statistics added field by field.
pub open spec fn merged(a: IngestStats, b: IngestStats) -> IngestStats {
    IngestStats {
        commits_inserted: (a.commits_inserted + b.commits_inserted) as usize,
        commits_skipped: (a.commits_skipped + b.commits_skipped) as usize,
        test_runs_inserted: (a.test_runs_inserted + b.test_runs_inserted) as usize,
        test_results_inserted: (a.test_results_inserted + b.test_results_inserted) as usize,
        sessions_inserted: (a.sessions_inserted + b.sessions_inserted) as usize,
        messages_inserted: (a.messages_inserted + b.messages_inserted) as usize,
        warnings: (a.warnings + b.warnings) as usize,
    }
}

impl IngestStats {
    /// The number of items inserted: commits, runs, results, sessions and
    /// messages (skips and warnings are not items).
    pub fn total_items(&self) -> (n: usize)
        requires
            total_of(*self) <= usize::MAX,
        ensures
            n == total_of(*self),
    {
        self.commits_inserted + self.test_runs_inserted + self.test_results_inserted
            + self.sessions_inserted + self.messages_inserted
    }

    /// Whether these statistics and `other` can be merged without any
    /// field leaving `usize`.
    pub fn can_merge_with(&self, other: &IngestStats) -> (b: bool)
        ensures
            b == can_merge(*self, *other),
    {
        self.commits_inserted.checked_add(other.commits_inserted).is_some()
            && self.commits_skipped.checked_add(other.commits_skipped).is_some()
            && self.test_runs_inserted.checked_add(other.test_runs_inserted).is_some()
            && self.test_results_inserted.checked_add(other.test_results_inserted).is_some()
            && self.sessions_inserted.checked_add(other.sessions_inserted).is_some()
            && self.messages_inserted.checked_add(other.messages_inserted).is_some()
            && self.warnings.checked_add(other.warnings).is_some()
    }

    /// Whether the number of items inserted fits in a `usize`.
    pub fn total_fits(&self) -> (b: bool)
        ensures
            b == (total_of(*self) <= usize::MAX),
    {
        let a = self.commits_inserted.checked_add(self.test_runs_inserted);
        let b = match a {
            Some(a) => a.checked_add(self.test_results_inserted),
            None => None,
        };
        let c = match b {
            Some(b) => b.checked_add(self.sessions_inserted),
            None => None,
        };
        let d = match c {
            Some(c) => c.checked_add(self.messages_inserted),
            None => None,
        };
        d.is_some()
    }

    /// Add another ingestion's statistics to these, field by field.
    pub fn merge(&mut self, other: &IngestStats)
        requires
            can_merge(*old(self), *other),
        ensures
            *final(self) == merged(*old(self), *other),
    {
        self.commits_inserted = self.commits_inserted + other.commits_inserted;
        self.commits_skipped = self.commits_skipped + other.commits_skipped;
        self.test_runs_inserted = self.test_runs_inserted + other.test_runs_inserted;
        self.test_results_inserted = self.test_results_inserted + other.test_results_inserted;
        self.sessions_inserted = self.sessions_inserted + other.sessions_inserted;
        self.messages_inserted = self.messages_inserted + other.messages_inserted;
        self.warnings = self.warnings + other.warnings;
    }

    /// Count a source's outcome into these statistics: its statistics when
    /// it succeeded, one more warning when it failed.
    pub fn absorb(&mut self, outcome: Option<&IngestStats>)
        requires
            match outcome {
                Some(o) => can_merge(*old(self), *o),
                None => old(self).warnings < usize::MAX,
            },
        ensures
            *final(self) == match outcome {
                Some(o) => merged(*old(self), *o),
                None => IngestStats { warnings: (old(self).warnings + 1) as usize, ..*old(self) },
            },
    {
        match outcome {
            Some(o) => self.merge(o),
            None => {
                self.warnings = self.warnings + 1;
            },
        }
    }
}

/// Merging the empty statistics changes nothing, and merging adds the
/// totals of inserted items.
pub proof fn law_merge_adds(a: IngestStats, b: IngestStats)
    requires
        can_merge(a, b),
    ensures
        merged(a, zero_stats()) == a,
        total_of(merged(a, b)) == total_of(a) + total_of(b),
        merged(a, b) == merged(b, a),
{
}

// ---------------------------------------------------------------------------
// Names
// ---------------------------------------------------------------------------

/// The text stored for an outcome.
pub open spec fn outcome_text(o: TestOutcome) -> Seq<char> {
    match o {
        TestOutcome::Passed => "passed"@,
        TestOutcome::Failed => "failed"@,
        TestOutcome::Ignored => "ignored"@,
        TestOutcome::TimedOut => "timedout"@,
    }
}

/// The text stored for an outcome.
pub fn outcome_to_string(outcome: &TestOutcome) -> (s: String)
    ensures
        s@ == outcome_text(*outcome),
{
    match outcome {
        TestOutcome::Passed => String::from_str("passed"),
        TestOutcome::Failed => String::from_str("failed"),
        TestOutcome::Ignored => String::from_str("ignored"),
        TestOutcome::TimedOut => String::from_str("timedout"),
    }
}

/// A test name's suite and test parts: around the first `::`, or an empty
/// suite and the whole name.
pub open spec fn split_name(name: Seq<char>) -> (Seq<char>, Seq<char>) {
    let k = find_pair(name, ':', ':', 0);
    if k < name.len() {
        (name.subrange(0, k), name.subrange(k + 2, name.len() as int))
    } else {
        (Seq::empty(), name)
    }
}

/// Split a test name into its suite and test parts.
pub fn split_test_name(name: &str) -> (r: (String, String))
    ensures
        (r.0@, r.1@) == split_name(name@),
        r.0@.len() > 0 ==> r.0@ + "::"@ + r.1@ == name@,
        r.0@.len() == 0 ==> r.1@ == name@ || r.1@ == name@.subrange(2, name@.len() as int),
{
    let n = name.unicode_len();
    let k = find_pair_exec(name, ':', ':');
    proof {
        lemma_find_pair(name@, ':', ':', 0);
        reveal_strlit("::");
    }
    if k < n {
        let suite = String::from_str(name.substring_char(0, k));
        let test = String::from_str(name.substring_char(k + 2, n));
        assert(suite@ + "::"@ + test@ =~= name@);
        (suite, test)
    } else {
        (String::new(), String::from_str(name))
    }
}

/// The last component of a path up to `end`, as `Path::file_name` finds it:
/// empty and `.` components are passed over, and `..` names no file.
pub open spec fn seg_start(s: Seq<char>, end: int) -> int
    decreases end,
{
    if end <= 0 {
        0
    } else if s[end - 1] == '/' {
        end
    } else {
        seg_start(s, end - 1)
    }
}

pub open spec fn file_name_before(s: Seq<char>, end: int) -> Option<Seq<char>>
    decreases end,
{
    if end <= 0 || end > s.len() {
        None
    } else {
        let b = seg_start(s, end);
        if b < 0 || b > end {
            None
        } else {
            let seg = s.subrange(b, end);
            if seg.len() == 0 || seg == "."@ {
                if b == 0 {
                    None
                } else {
                    file_name_before(s, b - 1)
                }
            } else if seg == ".."@ {
                None
            } else {
                Some(seg)
            }
        }
    }
}

/// The name a workspace is stored under: its path's last component, or
/// `unknown`.
pub open spec fn workspace_name_of(path: Seq<char>) -> Seq<char> {
    match file_name_before(path, path.len() as int) {
        Some(n) => n,
        None => "unknown"@,
    }
}

proof fn lemma_seg_start(s: Seq<char>, end: int)
    requires
        0 <= end <= s.len(),
    ensures
        0 <= seg_start(s, end) <= end,
        seg_start(s, end) > 0 ==> s[seg_start(s, end) - 1] == '/',
        forall|k: int| seg_start(s, end) <= k < end ==> s[k] != '/',
    decreases end,
{
    if end > 0 && s[end - 1] != '/' {
        lemma_seg_start(s, end - 1);
    }
}

/// Whether `cs[a..b]` is exactly the text `t`.
fn range_is(cs: &Vec<char>, a: usize, b: usize, t: &str) -> (r: bool)
    requires
        a <= b <= cs@.len(),
    ensures
        r == (cs@.subrange(a as int, b as int) == t@),
{
    let m = t.unicode_len();
    if b - a != m {
        return false;
    }
    let mut i: usize = 0;
    while i < m
        invariant
            m == t@.len(),
            b - a == m,
            a <= b <= cs@.len(),
            i <= m,
            forall|k: int| 0 <= k < i ==> cs@[a + k] == t@[k],
        decreases m - i,
    {
        if cs[a + i] != t.get_char(i) {
            assert(cs@.subrange(a as int, b as int)[i as int] != t@[i as int]);
            return false;
        }
        i = i + 1;
    }
    assert(cs@.subrange(a as int, b as int) =~= t@);
    true
}

/// The name a workspace is stored under: its path's last component, or
/// `unknown`.
pub fn workspace_name(path: &str) -> (n: String)
    ensures
        n@ == workspace_name_of(path@),
{
    let cs = chars_of(path);
    let mut end = cs.len();
    loop
        invariant
            cs@ == path@,
            end <= cs@.len(),
            file_name_before(path@, path@.len() as int) == file_name_before(path@, end as int),
        decreases end,
    {
        if end == 0 {
            return String::from_str("unknown");
        }
        let mut b = end;
        while b > 0 && cs[b - 1] != '/'
            invariant
                b <= end <= cs@.len(),
                seg_start(cs@, end as int) == seg_start(cs@, b as int),
            decreases b,
        {
            b = b - 1;
        }
        proof {
            lemma_seg_start(cs@, end as int);
        }
        if b == end || range_is(&cs, b, end, ".") {
            if b == 0 {
                return String::from_str("unknown");
            }
            end = b - 1;
        } else if range_is(&cs, b, end, "..") {
            return String::from_str("unknown");
        } else {
            return string_of(&cs, b, end);
        }
    }
}

// ---------------------------------------------------------------------------
// Commits
// ---------------------------------------------------------------------------

/// A commit to store, with its diff summary already written as JSON.
#[derive(Debug)]
pub struct CommitToStore {
    pub commit: Commit,
    pub diff_json: Option<String>,
}

/// The rows an ingestion writes for a history, with what it passed over.
#[derive(Debug)]
pub struct CommitPlan {
    /// The rows to insert, newest first.
    pub records: Vec<CommitRecord>,
    /// How many commits were passed over because they were already stored.
    pub skipped: usize,
    /// The progress reports made on the way.
    pub progress: Vec<ProgressEvent>,
}

/// Where an incremental walk stops: at the first commit already ingested
/// last time, or at the end.
pub open spec fn stop_index(cs: Seq<CommitToStore>, last: Option<Seq<char>>) -> int
    decreases cs.len(),
{
    if cs.len() == 0 {
        0
    } else if last == Some(cs[0].commit.sha@) {
        0
    } else {
        1 + stop_index(cs.drop_first(), last)
    }
}

/// The positions, below `k`, of the commits that are stored: all of them,
/// or, in an incremental ingestion, those not stored already.
pub open spec fn kept(k: int, stored: Seq<bool>, incremental: bool) -> Seq<int>
    decreases k,
{
    if k <= 0 {
        Seq::empty()
    } else if incremental && stored[k - 1] {
        kept(k - 1, stored, incremental)
    } else {
        kept(k - 1, stored, incremental).push(k - 1)
    }
}

/// Whether a row records a commit of a workspace.
pub open spec fn records_commit(r: CommitRecord, workspace_id: Seq<char>, c: CommitToStore) -> bool {
    &&& r.workspace_id@ == workspace_id
    &&& r.sha@ == c.commit.sha@
    &&& r.author@ == c.commit.author@
    &&& opt_str(r.author_email) == Some(c.commit.author_email@)
    &&& r.message@ == c.commit.message@
    &&& (rfc3339_text(c.commit.timestamp) matches Some(t) ==> r.timestamp@ == t)
    &&& opt_str(r.parents_json) == Some(json_string_list_text(c.commit.parents.deep_view()))
    &&& opt_str(r.diff_json) == opt_str(c.diff_json)
    &&& r.id@.len() == 36
}

/// The progress counts reported: every tenth position among those stored.
pub open spec fn progress_marks(ks: Seq<int>) -> Seq<int>
    decreases ks.len(),
{
    if ks.len() == 0 {
        Seq::empty()
    } else if (ks.last() + 1) % 10 == 0 {
        progress_marks(ks.drop_last()).push(ks.last() + 1)
    } else {
        progress_marks(ks.drop_last())
    }
}

proof fn lemma_stop_index(cs: Seq<CommitToStore>, last: Option<Seq<char>>, i: int)
    requires
        0 <= i <= cs.len(),
        forall|k: int| 0 <= k < i ==> last != Some(cs[k].commit.sha@),
    ensures
        stop_index(cs, last) == i + stop_index(cs.skip(i), last),
    decreases i,
{
    if i > 0 {
        assert(cs.skip(1) =~= cs.drop_first());
        lemma_stop_index(cs.drop_first(), last, i - 1);
        assert(cs.drop_first().skip(i - 1) =~= cs.skip(i));
    } else {
        assert(cs.skip(0) =~= cs);
    }
}

proof fn lemma_kept_bounds(k: int, stored: Seq<bool>, incremental: bool)
    requires
        0 <= k,
    ensures
        kept(k, stored, incremental).len() <= k,
        forall|j: int| 0 <= j < kept(k, stored, incremental).len() ==> 0 <= #[trigger] kept(k, stored, incremental)[j] < k,
    decreases k,
{
    if k > 0 {
        lemma_kept_bounds(k - 1, stored, incremental);
    }
}

proof fn lemma_stop_index_bound(cs: Seq<CommitToStore>, last: Option<Seq<char>>)
    ensures
        0 <= stop_index(cs, last) <= cs.len(),
        last is None ==> stop_index(cs, last) == cs.len(),
    decreases cs.len(),
{
    if cs.len() > 0 {
        lemma_stop_index_bound(cs.drop_first(), last);
    }
}

proof fn lemma_kept_counts(k: int, stored: Seq<bool>)
    requires
        0 <= k <= stored.len(),
    ensures
        (forall|i: int| 0 <= i < stored.len() ==> stored[i]) ==> kept(k, stored, true).len() == 0,
        kept(k, stored, false).len() == k,
    decreases k,
{
    if k > 0 {
        lemma_kept_counts(k - 1, stored);
    }
}

/// Ingesting a history again incrementally writes no rows when every
/// commit walked is stored already, and no ingestion writes any when the
/// newest commit walked is the one ingested last time; a full ingestion
/// with no last commit writes one row per commit walked.
pub proof fn law_reingest_writes_nothing(
    cs: Seq<CommitToStore>,
    stored: Seq<bool>,
    last: Option<Seq<char>>,
    incremental: bool,
)
    requires
        stored.len() == cs.len(),
    ensures
        (forall|i: int| 0 <= i < stored.len() ==> stored[i]) ==> kept(stop_index(cs, last), stored, true).len() == 0,
        cs.len() > 0 && last == Some(cs[0].commit.sha@) ==> kept(stop_index(cs, last), stored, incremental).len() == 0,
        kept(stop_index(cs, None), stored, false).len() == cs.len(),
{
    lemma_stop_index_bound(cs, last);
    lemma_stop_index_bound(cs, None);
    lemma_kept_counts(stop_index(cs, last), stored);
    lemma_kept_counts(stop_index(cs, None), stored);
}

/// The commit rows for a history, newest first: the walk stops at the
/// commit ingested last time (`last_sha`); in an incremental ingestion the
/// commits already stored (`stored[i]`) are counted as skipped instead.
pub fn plan_commits(
    workspace_id: &str,
    commits: &Vec<CommitToStore>,
    last_sha: Option<&str>,
    incremental: bool,
    stored: &Vec<bool>,
) -> (p: CommitPlan)
    requires
        stored@.len() == commits@.len(),
    ensures
        ({
            let stop = stop_index(commits@, opt_ref(last_sha));
            let ks = kept(stop, stored@, incremental);
            &&& 0 <= stop <= commits@.len()
            &&& p.records@.len() == ks.len()
            &&& forall|j: int| 0 <= j < ks.len() ==> records_commit(#[trigger] p.records@[j], workspace_id@, commits@[ks[j]])
            &&& p.skipped + p.records@.len() == stop
            &&& p.progress@.len() == progress_marks(ks).len()
            &&& forall|j: int| 0 <= j < p.progress@.len() ==> (#[trigger] p.progress@[j] matches ProgressEvent::Progress { source, processed, total }
                && source@ == "git"@ && processed == progress_marks(ks)[j] && total == Some(commits@.len() as usize))
        }),
{
    let n = commits.len();
    let mut records: Vec<CommitRecord> = Vec::new();
    let mut progress: Vec<ProgressEvent> = Vec::new();
    let mut skipped: usize = 0;
    let mut i: usize = 0;
    let ghost last = opt_ref(last_sha);
    while i < n
        invariant
            n == commits@.len(),
            stored@.len() == n,
            i <= n,
            last == opt_ref(last_sha),
            forall|k: int| 0 <= k < i ==> last != Some(commits@[k].commit.sha@),
            records@.len() == kept(i as int, stored@, incremental).len(),
            forall|j: int| 0 <= j < records@.len() ==> records_commit(#[trigger] records@[j], workspace_id@, commits@[kept(i as int, stored@, incremental)[j]]),
            skipped + records@.len() == i,
            progress@.len() == progress_marks(kept(i as int, stored@, incremental)).len(),
            forall|j: int| 0 <= j < progress@.len() ==> (#[trigger] progress@[j] matches ProgressEvent::Progress { source, processed, total }
                && source@ == "git"@ && processed == progress_marks(kept(i as int, stored@, incremental))[j] && total == Some(n)),
        ensures
            i <= n,
            i == n || last == Some(commits@[i as int].commit.sha@),
        decreases n - i,
    {
        let c = &commits[i];
        let at_last = match last_sha {
            Some(l) => str_eq(c.commit.sha.as_str(), l),
            None => false,
        };
        if at_last {
            break;
        }
        let ghost ks = kept(i as int, stored@, incremental);
        if incremental && stored[i] {
            skipped = skipped + 1;
        } else {
            let timestamp = match rfc3339_from_millis(c.commit.timestamp) {
                Some(t) => t,
                None => now_rfc3339(),
            };
            let record = CommitRecord::new(
                String::from_str(workspace_id),
                c.commit.sha.clone(),
                c.commit.author.clone(),
                Some(c.commit.author_email.clone()),
                c.commit.message.clone(),
                timestamp,
            ).with_parents(copy_strings(&c.commit.parents));
            let record = match &c.diff_json {
                Some(d) => record.with_diff_json(d.clone()),
                None => record,
            };
            records.push(record);
            proof {
                lemma_kept_bounds(i as int, stored@, incremental);
                assert(kept(i + 1, stored@, incremental) == ks.push(i as int));
                assert(kept(i + 1, stored@, incremental).drop_last() =~= ks);
            }
            if (i + 1) % 10 == 0 {
                progress.push(ProgressEvent::Progress { source: String::from_str("git"), processed: i + 1, total: Some(n) });
            }
        }
        i = i + 1;
    }
    proof {
        lemma_stop_index(commits@, last, i as int);
        if i < n {
            assert(commits@.skip(i as int)[0] == commits@[i as int]);
        } else {
            assert(commits@.skip(i as int).len() == 0);
        }
    }
    CommitPlan { records, skipped, progress }
}

/// A copy of a list of strings.
pub fn copy_strings(v: &Vec<String>) -> (r: Vec<String>)
    ensures
        r.deep_view() == v.deep_view(),
{
    let mut r: Vec<String> = Vec::new();
    let mut i: usize = 0;
    while i < v.len()
        invariant
            i <= v@.len(),
            r.deep_view() == v.deep_view().take(i as int),
        decreases v@.len() - i,
    {
        let ghost before = r.deep_view();
        r.push(v[i].clone());
        assert(r.deep_view() =~= before.push(v@[i as int]@));
        assert(v.deep_view().take(i + 1) =~= v.deep_view().take(i as int).push(v@[i as int]@));
        i = i + 1;
    }
    assert(v.deep_view().take(i as int) =~= v.deep_view());
    r
}

// ---------------------------------------------------------------------------
// Test runs
// ---------------------------------------------------------------------------

/// The run row for a summary: finished, with the summary's counts as the
/// database stores them (32-bit), linked to a commit when one is given.
pub fn test_run_record(workspace_id: String, summary: &TestRunSummary, commit_sha: Option<&str>) -> (r: TestRunRecord)
    ensures
        r.workspace_id == workspace_id,
        r.passed_count == summary.passed as i32,
        r.failed_count == summary.failed as i32,
        r.ignored_count == summary.ignored as i32,
        r.finished_at is Some,
        opt_str(r.commit_sha) == opt_ref(commit_sha),
        r.metadata_json is None,
        r.id@.len() == 36,
{
    let run = TestRunRecord::new(workspace_id).finished(
        summary.passed as i32,
        summary.failed as i32,
        summary.ignored as i32,
    );
    match commit_sha {
        Some(sha) => run.with_commit(sha),
        None => run,
    }
}

/// Whether a row records a test result of a run.
pub open spec fn records_result(r: TestResultRecord, run_id: Seq<char>, t: TestResult) -> bool {
    &&& r.run_id@ == run_id
    &&& (r.suite_name@, r.test_name@) == split_name(t.name@)
    &&& r.outcome@ == outcome_text(t.outcome)
    &&& r.duration_ms == Some(t.duration_ms as i64)
    &&& opt_str(r.output_json) == match t.output {
        Some(o) => Some(json_pair_text("stdout"@, Some(o@), "stderr"@, None)),
        None => None,
    }
    &&& r.id@.len() == 36
}

/// The result rows of a run, one per result, in order.
pub fn test_result_records(run_id: &str, results: &Vec<TestResult>) -> (rs: Vec<TestResultRecord>)
    ensures
        rs@.len() == results@.len(),
        forall|j: int| 0 <= j < rs@.len() ==> records_result(#[trigger] rs@[j], run_id@, results@[j]),
{
    let mut rs: Vec<TestResultRecord> = Vec::new();
    let mut i: usize = 0;
    while i < results.len()
        invariant
            i <= results@.len(),
            rs@.len() == i,
            forall|j: int| 0 <= j < i ==> records_result(#[trigger] rs@[j], run_id@, results@[j]),
        decreases results@.len() - i,
    {
        let t = &results[i];
        let (suite, test) = split_test_name(t.name.as_str());
        let record = TestResultRecord::new(
            String::from_str(run_id),
            suite,
            test,
            outcome_to_string(&t.outcome),
            Some(t.duration_ms as i64),
        );
        let record = match &t.output {
            Some(o) => record.with_output(Some(o.as_str()), None),
            None => record,
        };
        rs.push(record);
        i = i + 1;
    }
    rs
}

// ---------------------------------------------------------------------------
// Assistant sessions
// ---------------------------------------------------------------------------

/// The row of a session in a workspace.
pub fn session_record(workspace_id: String, session: &ChatSession) -> (r: CopilotSessionRecord)
    ensures
        r.workspace_id == workspace_id,
        r.vscode_session_id@ == session.id@,
        r.metadata_json is None,
        r.id@.len() == 36,
{
    CopilotSessionRecord::new(workspace_id, session.id.clone())
}

/// Whether a row records a message of a session.
pub open spec fn records_message(r: CopilotMessageRecord, session_id: Seq<char>, m: ChatMessage) -> bool {
    &&& r.session_id@ == session_id
    &&& r.role@ == role_text(m.role)
    &&& r.content@ == m.content@
    &&& (rfc3339_text(m.timestamp) matches Some(t) ==> r.timestamp@ == t)
    &&& r.request_id is None
    &&& r.variables_json is None
    &&& r.id@.len() == 36
}

/// The message rows of a session, one per message, in order.
pub fn message_records(session_id: &str, messages: &Vec<ChatMessage>) -> (rs: Vec<CopilotMessageRecord>)
    ensures
        rs@.len() == messages@.len(),
        forall|j: int| 0 <= j < rs@.len() ==> records_message(#[trigger] rs@[j], session_id@, messages@[j]),
{
    let mut rs: Vec<CopilotMessageRecord> = Vec::new();
    let mut i: usize = 0;
    while i < messages.len()
        invariant
            i <= messages@.len(),
            rs@.len() == i,
            forall|j: int| 0 <= j < i ==> records_message(#[trigger] rs@[j], session_id@, messages@[j]),
        decreases messages@.len() - i,
    {
        let m = &messages[i];
        let timestamp = match rfc3339_from_millis(m.timestamp) {
            Some(t) => t,
            None => now_rfc3339(),
        };
        let record = CopilotMessageRecord::new(
            String::from_str(session_id),
            m.role.stored_name(),
            m.content.clone(),
            timestamp,
        );
        rs.push(record);
        i = i + 1;
    }
    rs
}

/// Whether the progress of a source is reported after item `idx` of
/// `total`: every `every` items and after the last.
pub fn progress_due(idx: usize, total: usize, every: usize) -> (b: bool)
    requires
        every > 0,
        idx < total,
    ensures
        b == ((idx + 1) % (every as int) == 0 || idx + 1 == total),
{
    (idx + 1) % every == 0 || idx + 1 == total
}

} // verus!
