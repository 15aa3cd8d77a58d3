//! Commits and diffs, and the rules by which a history walk picks commits.

use vstd::prelude::*;

use crate::cli::parser::opt_str;

verus! {

/// A git commit. The time is in milliseconds since the Unix epoch.
#[derive(Debug)]
pub struct Commit {
    /// Commit SHA, 40 hexadecimal characters.
    pub sha: String,
    /// Commit message.
    pub message: String,
    /// Author name.
    pub author: String,
    /// Author email.
    pub author_email: String,
    /// Commit time, in milliseconds since the Unix epoch.
    pub timestamp: i64,
    /// Parent SHAs.
    pub parents: Vec<String>,
}

/// One changed file in a diff.
#[derive(Debug)]
pub struct FileDiff {
    /// File path.
    pub path: String,
    /// Status: added, deleted, modified, renamed, copied or unknown.
    pub status: String,
    /// Lines inserted.
    pub insertions: usize,
    /// Lines deleted.
    pub deletions: usize,
}

/// The summary of a commit's diff.
#[derive(Debug)]
pub struct DiffSummary {
    /// Number of files changed.
    pub files_changed: usize,
    /// Lines inserted.
    pub insertions: usize,
    /// Lines deleted.
    pub deletions: usize,
    /// The changed files.
    pub files: Vec<FileDiff>,
}

impl DiffSummary {
    /// A diff with no change.
    pub fn empty() -> (d: DiffSummary)
        ensures
            d.files_changed == 0,
            d.insertions == 0,
            d.deletions == 0,
            d.files@.len() == 0,
    {
        DiffSummary { files_changed: 0, insertions: 0, deletions: 0, files: Vec::new() }
    }
}

/// A commit with its diff, when it was asked for.
#[derive(Debug)]
pub struct CommitWithDiff {
    pub commit: Commit,
    pub diff: Option<DiffSummary>,
}

/// The kind of change a diff records for a file.
#[derive(Clone, Copy, PartialEq, Eq, Structural, Debug)]
pub enum DeltaKind {
    Added,
    Deleted,
    Modified,
    Renamed,
    Copied,
    Other,
}

/// The status word of a change.
pub open spec fn status_word(k: DeltaKind) -> Seq<char> {
    match k {
        DeltaKind::Added => "added"@,
        DeltaKind::Deleted => "deleted"@,
        DeltaKind::Modified => "modified"@,
        DeltaKind::Renamed => "renamed"@,
        DeltaKind::Copied => "copied"@,
        DeltaKind::Other => "unknown"@,
    }
}

/// The status word of a change.
pub fn delta_status(k: DeltaKind) -> (s: String)
    ensures
        s@ == status_word(k),
{
    match k {
        DeltaKind::Added => String::from_str("added"),
        DeltaKind::Deleted => String::from_str("deleted"),
        DeltaKind::Modified => String::from_str("modified"),
        DeltaKind::Renamed => String::from_str("renamed"),
        DeltaKind::Copied => String::from_str("copied"),
        DeltaKind::Other => String::from_str("unknown"),
    }
}

/// The path a changed file is listed under: the new path, else the old
/// one, else `<unknown>`.
pub fn delta_path(new_path: Option<String>, old_path: Option<String>) -> (p: String)
    ensures
        p@ == match (new_path, old_path) {
            (Some(n), _) => n@,
            (None, Some(o)) => o@,
            (None, None) => "<unknown>"@,
        },
{
    match new_path {
        Some(n) => n,
        None => match old_path {
            Some(o) => o,
            None => String::from_str("<unknown>"),
        },
    }
}

/// The file entry of a change, with the lines added to and deleted from
/// that file.
pub fn file_diff(
    kind: DeltaKind,
    new_path: Option<String>,
    old_path: Option<String>,
    insertions: usize,
    deletions: usize,
) -> (f: FileDiff)
    ensures
        f.status@ == status_word(kind),
        f.path@ == match (new_path, old_path) {
            (Some(n), _) => n@,
            (None, Some(o)) => o@,
            (None, None) => "<unknown>"@,
        },
        f.insertions == insertions,
        f.deletions == deletions,
{
    FileDiff { path: delta_path(new_path, old_path), status: delta_status(kind), insertions, deletions }
}

/// Options for walking a history.
#[derive(Debug)]
pub struct WalkOptions {
    /// Maximum number of commits to return.
    pub limit: Option<usize>,
    /// Start from this reference instead of HEAD.
    pub from_ref: Option<String>,
    /// Only commits at or after this time (milliseconds since the epoch).
    pub since: Option<i64>,
    /// Only commits at or before this time (milliseconds since the epoch).
    pub until: Option<i64>,
    /// Include each commit's diff.
    pub include_diff: bool,
}

impl Default for WalkOptions {
    fn default() -> (w: WalkOptions)
        ensures
            w.limit is None,
            w.from_ref is None,
            w.since is None,
            w.until is None,
            !w.include_diff,
    {
        WalkOptions { limit: None, from_ref: None, since: None, until: None, include_diff: false }
    }
}

/// What a walk does with the next commit.
#[derive(Clone, Copy, PartialEq, Eq, Structural, Debug)]
pub enum WalkVerdict {
    /// The limit is reached: the walk ends.
    Stop,
    /// The commit falls outside the time window: it is passed over.
    Skip,
    /// The commit is returned.
    Take,
}

/// What a walk does with a commit of time `ts` after taking `taken`.
pub open spec fn verdict(o: &WalkOptions, taken: nat, ts: i64) -> WalkVerdict {
    if o.limit matches Some(l) && taken >= l {
        WalkVerdict::Stop
    } else if o.since matches Some(s) && ts < s {
        WalkVerdict::Skip
    } else if o.until matches Some(u) && ts > u {
        WalkVerdict::Skip
    } else {
        WalkVerdict::Take
    }
}

/// The positions of the commits that a walk over commits of times `ts`
/// returns, and whether it stopped on its limit.
pub open spec fn walk_taken(o: &WalkOptions, ts: Seq<i64>) -> (Seq<int>, bool)
    decreases ts.len(),
{
    if ts.len() == 0 {
        (Seq::empty(), false)
    } else {
        let (prev, stopped) = walk_taken(o, ts.drop_last());
        if stopped {
            (prev, true)
        } else {
            match verdict(o, prev.len(), ts.last()) {
                WalkVerdict::Stop => (prev, true),
                WalkVerdict::Skip => (prev, false),
                WalkVerdict::Take => (prev.push(ts.len() - 1), false),
            }
        }
    }
}

/// A walk returns no more commits than its limit, each of them inside the
/// time window, in the order of the history.
pub proof fn law_walk_within_bounds(o: &WalkOptions, ts: Seq<i64>)
    ensures
        o.limit matches Some(l) ==> walk_taken(o, ts).0.len() <= l,
        forall|j: int| 0 <= j < walk_taken(o, ts).0.len() ==> {
            let i = #[trigger] walk_taken(o, ts).0[j];
            &&& 0 <= i < ts.len()
            &&& (o.since matches Some(s) ==> ts[i] >= s)
            &&& (o.until matches Some(u) ==> ts[i] <= u)
        },
        forall|j: int, k: int| 0 <= j < k < walk_taken(o, ts).0.len() ==> walk_taken(o, ts).0[j]
            < walk_taken(o, ts).0[k],
    decreases ts.len(),
{
    if ts.len() > 0 {
        law_walk_within_bounds(o, ts.drop_last());
        let (prev, stopped) = walk_taken(o, ts.drop_last());
        assert forall|j: int| 0 <= j < prev.len() implies 0 <= #[trigger] prev[j] < ts.drop_last().len() && ts.drop_last()[prev[j]] == ts[prev[j]] by {}
    }
}

/// A commit is taken exactly when the limit is not yet reached and its time
/// is inside the window; the walk stops exactly when the limit is reached.
pub proof fn law_verdict_takes_within_limit(o: &WalkOptions, taken: nat, ts: i64)
    ensures
        (verdict(o, taken, ts) == WalkVerdict::Stop) <==> (o.limit matches Some(l) && taken >= l),
        (verdict(o, taken, ts) == WalkVerdict::Take) <==> ({
            &&& (o.limit matches Some(l) ==> taken < l)
            &&& (o.since matches Some(s) ==> ts >= s)
            &&& (o.until matches Some(u) ==> ts <= u)
        }),
{
}

proof fn lemma_walk_in_window(o: &WalkOptions, ts: Seq<i64>)
    requires
        forall|i: int|
            0 <= i < ts.len() ==> (o.since matches Some(s) ==> #[trigger] ts[i] >= s) && (o.until matches Some(u)
                ==> ts[i] <= u),
    ensures
        walk_taken(o, ts).0.len() == match o.limit {
            Some(l) => if l < ts.len() { l as int } else { ts.len() as int },
            None => ts.len() as int,
        },
        walk_taken(o, ts).1 == (o.limit matches Some(l) && l < ts.len()),
        forall|j: int| 0 <= j < walk_taken(o, ts).0.len() ==> #[trigger] walk_taken(o, ts).0[j] == j,
    decreases ts.len(),
{
    if ts.len() > 0 {
        let pre = ts.drop_last();
        assert forall|i: int|
            0 <= i < pre.len() implies (o.since matches Some(s) ==> #[trigger] pre[i] >= s) && (o.until matches Some(u)
                ==> pre[i] <= u) by {
            assert(pre[i] == ts[i]);
        }
        lemma_walk_in_window(o, pre);
        assert(ts.last() == ts[ts.len() - 1]);
    }
}

/// A walk over commits that all fall inside its time window returns the
/// first `min(limit, number of commits)` of them (all of them without a
/// limit), in order.
pub proof fn law_walk_takes_latest(o: &WalkOptions, ts: Seq<i64>)
    requires
        forall|i: int|
            0 <= i < ts.len() ==> (o.since matches Some(s) ==> #[trigger] ts[i] >= s) && (o.until matches Some(u)
                ==> ts[i] <= u),
    ensures
        walk_taken(o, ts).0.len() == match o.limit {
            Some(l) => if l < ts.len() { l as int } else { ts.len() as int },
            None => ts.len() as int,
        },
        forall|j: int| 0 <= j < walk_taken(o, ts).0.len() ==> #[trigger] walk_taken(o, ts).0[j] == j,
{
    lemma_walk_in_window(o, ts);
}

impl WalkOptions {
    /// The latest `n` commits.
    pub fn latest(n: usize) -> (w: WalkOptions)
        ensures
            w.limit == Some(n),
            w.from_ref is None,
            w.since is None,
            w.until is None,
            !w.include_diff,
    {
        WalkOptions { limit: Some(n), from_ref: None, since: None, until: None, include_diff: false }
    }

    /// The same walk with diffs.
    pub fn with_diff(self) -> (w: WalkOptions)
        ensures
            w == (WalkOptions { include_diff: true, ..self }),
    {
        let mut s = self;
        s.include_diff = true;
        s
    }

    /// The same walk from a reference.
    pub fn from(self, reference: &str) -> (w: WalkOptions)
        ensures
            w == (WalkOptions { from_ref: w.from_ref, ..self }),
            opt_str(w.from_ref) == Some(reference@),
    {
        let mut s = self;
        s.from_ref = Some(String::from_str(reference));
        s
    }

    /// The same walk from a time on.
    pub fn since(self, date: i64) -> (w: WalkOptions)
        ensures
            w == (WalkOptions { since: Some(date), ..self }),
    {
        let mut s = self;
        s.since = Some(date);
        s
    }

    /// The same walk up to a time.
    pub fn until(self, date: i64) -> (w: WalkOptions)
        ensures
            w == (WalkOptions { until: Some(date), ..self }),
    {
        let mut s = self;
        s.until = Some(date);
        s
    }

    /// What the walk does with a commit of time `ts` after taking `taken`.
    pub fn verdict(&self, taken: usize, ts: i64) -> (v: WalkVerdict)
        ensures
            v == verdict(self, taken as nat, ts),
    {
        if let Some(l) = self.limit {
            if taken >= l {
                return WalkVerdict::Stop;
            }
        }
        if let Some(s) = self.since {
            if ts < s {
                return WalkVerdict::Skip;
            }
        }
        if let Some(u) = self.until {
            if ts > u {
                return WalkVerdict::Skip;
            }
        }
        WalkVerdict::Take
    }
}

/// Errors of the git layer.
#[derive(Debug)]
pub enum GitError {
    /// An error reported by git.
    Git2(String),
    /// Repository not found.
    RepositoryNotFound { path: String },
    /// Invalid commit reference.
    InvalidReference { reference: String },
}

impl GitError {
    /// The error as a sentence.
    pub fn message(&self) -> (s: String)
        ensures
            s@ == match self {
                GitError::Git2(m) => "Git error: "@ + m@,
                GitError::RepositoryNotFound { path } => "Repository not found: "@ + path@,
                GitError::InvalidReference { reference } => "Invalid commit reference: "@ + reference@,
            },
    {
        match self {
            GitError::Git2(m) => {
                let mut s = String::from_str("Git error: ");
                s.append(m.as_str());
                s
            },
            GitError::RepositoryNotFound { path } => {
                let mut s = String::from_str("Repository not found: ");
                s.append(path.as_str());
                s
            },
            GitError::InvalidReference { reference } => {
                let mut s = String::from_str("Invalid commit reference: ");
                s.append(reference.as_str());
                s
            },
        }
    }
}

} // verus!
