//! The decisions of the command-line subcommands: which commit a test run
//! is linked to, how nextest is invoked, whether the database is set up,
//! and what is reported.

use vstd::prelude::*;

use crate::cli::parser::opt_str;
use crate::text::{chars_of, decimal, decimal_text, is_space, is_space_exec};

verus! {

/// Where the commit a test run is linked to comes from.
#[derive(Debug)]
pub enum CommitSource {
    /// Linking is turned off.
    Disabled,
    /// The commit given on the command line.
    Explicit(String),
    /// The repository's HEAD, to be looked up.
    Detect,
}

/// Where a test run's commit comes from: none with `--no-commit`, else the
/// one given with `--commit`, else the repository's HEAD.
pub fn commit_source(no_commit: bool, commit: Option<String>) -> (s: CommitSource)
    ensures
        no_commit ==> s is Disabled,
        !no_commit && commit is Some ==> (s matches CommitSource::Explicit(c) && Some(c@) == opt_str(commit)),
        !no_commit && commit is None ==> s is Detect,
{
    if no_commit {
        CommitSource::Disabled
    } else {
        match commit {
            Some(c) => CommitSource::Explicit(c),
            None => CommitSource::Detect,
        }
    }
}

/// The arguments of the `cargo` invocation that runs the tests.
pub open spec fn nextest_args_of(
    package: Seq<Seq<char>>,
    bin: Seq<Seq<char>>,
    filter: Option<Seq<char>>,
    passthrough: Seq<Seq<char>>,
) -> Seq<Seq<char>> {
    seq!["nextest"@, "run"@, "--message-format"@, "libtest-json"@]
        + flag_pairs("--package"@, package)
        + flag_pairs("--bin"@, bin)
        + match filter {
            Some(f) => seq!["-E"@, f],
            None => Seq::empty(),
        }
        + passthrough
}

/// Each value preceded by the flag.
pub open spec fn flag_pairs(flag: Seq<char>, vs: Seq<Seq<char>>) -> Seq<Seq<char>>
    decreases vs.len(),
{
    if vs.len() == 0 {
        Seq::empty()
    } else {
        flag_pairs(flag, vs.drop_last()) + seq![flag, vs.last()]
    }
}

fn push_str(out: &mut Vec<String>, s: &str)
    ensures
        final(out).deep_view() == old(out).deep_view().push(s@),
{
    let ghost before = out.deep_view();
    out.push(String::from_str(s));
    assert(out.deep_view() =~= before.push(s@));
}

fn push_owned(out: &mut Vec<String>, s: String)
    ensures
        final(out).deep_view() == old(out).deep_view().push(s@),
{
    let ghost before = out.deep_view();
    let ghost v = s@;
    out.push(s);
    assert(out.deep_view() =~= before.push(v));
}

fn push_pairs(out: &mut Vec<String>, flag: &str, vs: &Vec<String>)
    ensures
        final(out).deep_view() == old(out).deep_view() + flag_pairs(flag@, vs.deep_view()),
{
    let ghost start = out.deep_view();
    let mut i: usize = 0;
    assert(vs.deep_view().take(0) =~= Seq::<Seq<char>>::empty());
    assert(start + flag_pairs(flag@, Seq::empty()) =~= start);
    while i < vs.len()
        invariant
            i <= vs@.len(),
            out.deep_view() == start + flag_pairs(flag@, vs.deep_view().take(i as int)),
        decreases vs@.len() - i,
    {
        push_str(out, flag);
        push_str(out, vs[i].as_str());
        assert(vs.deep_view().take(i + 1).drop_last() =~= vs.deep_view().take(i as int));
        assert(out.deep_view() =~= start + flag_pairs(flag@, vs.deep_view().take(i + 1)));
        i = i + 1;
    }
    assert(vs.deep_view().take(i as int) =~= vs.deep_view());
}

/// The arguments of the `cargo` invocation that runs the tests:
/// `nextest run --message-format libtest-json`, each package and binary
/// with its flag, the filter with `-E`, then the arguments passed through.
pub fn nextest_command_args(
    package: &Vec<String>,
    bin: &Vec<String>,
    filter: Option<&str>,
    passthrough: &Vec<String>,
) -> (args: Vec<String>)
    ensures
        args.deep_view() == nextest_args_of(
            package.deep_view(),
            bin.deep_view(),
            match filter {
                Some(f) => Some(f@),
                None => None,
            },
            passthrough.deep_view(),
        ),
{
    let mut out: Vec<String> = Vec::new();
    assert(out.deep_view() =~= Seq::<Seq<char>>::empty());
    push_str(&mut out, "nextest");
    push_str(&mut out, "run");
    push_str(&mut out, "--message-format");
    push_str(&mut out, "libtest-json");
    let ghost head = out.deep_view();
    push_pairs(&mut out, "--package", package);
    push_pairs(&mut out, "--bin", bin);
    let ghost mid = out.deep_view();
    match filter {
        Some(f) => {
            push_str(&mut out, "-E");
            push_str(&mut out, f);
        },
        None => {},
    }
    let ghost with_filter = out.deep_view();
    let mut i: usize = 0;
    while i < passthrough.len()
        invariant
            i <= passthrough@.len(),
            out.deep_view() == with_filter + passthrough.deep_view().take(i as int),
        decreases passthrough@.len() - i,
    {
        push_str(&mut out, passthrough[i].as_str());
        assert(passthrough.deep_view().take(i + 1) =~= passthrough.deep_view().take(i as int).push(passthrough@[i as int]@));
        assert(out.deep_view() =~= with_filter + passthrough.deep_view().take(i + 1));
        i = i + 1;
    }
    assert(passthrough.deep_view().take(i as int) =~= passthrough.deep_view());
    assert(out.deep_view() =~= nextest_args_of(
        package.deep_view(),
        bin.deep_view(),
        match filter {
            Some(f) => Some(f@),
            None => None,
        },
        passthrough.deep_view(),
    ));
    out
}

/// Whether a text holds only white space.
pub open spec fn all_space(s: Seq<char>) -> bool {
    forall|k: int| 0 <= k < s.len() ==> is_space(#[trigger] s[k])
}

/// Whether a text holds only white space (an empty input).
pub fn is_blank(input: &str) -> (b: bool)
    ensures
        b == all_space(input@),
{
    let cs = chars_of(input);
    let mut i: usize = 0;
    while i < cs.len()
        invariant
            cs@ == input@,
            i <= cs@.len(),
            forall|k: int| 0 <= k < i ==> is_space(#[trigger] cs@[k]),
        decreases cs@.len() - i,
    {
        if !is_space_exec(cs[i]) {
            return false;
        }
        i = i + 1;
    }
    true
}

/// What is done with the database schema at start-up.
#[derive(Clone, Copy, PartialEq, Eq, Structural, Debug)]
pub enum InitAction {
    /// Initialization is skipped; `warn` when the schema is missing.
    Skip { warn: bool },
    /// The schema is created.
    Initialize,
    /// The schema is there already.
    UpToDate,
}

/// What is done with the database schema at start-up.
pub fn init_action(skip_init: bool, initialized: bool) -> (a: InitAction)
    ensures
        a == if skip_init {
            InitAction::Skip { warn: !initialized }
        } else if !initialized {
            InitAction::Initialize
        } else {
            InitAction::UpToDate
        },
{
    if skip_init {
        InitAction::Skip { warn: !initialized }
    } else if !initialized {
        InitAction::Initialize
    } else {
        InitAction::UpToDate
    }
}

fn labelled(label: &str, n: usize) -> (s: String)
    ensures
        s@ == label@ + decimal(n as nat),
{
    let mut s = String::from_str(label);
    let d = decimal_text(n);
    s.append(d.as_str());
    s
}

/// The lines printed after a test run: the counts, and in a dry run the
/// commit and the workspace.
pub open spec fn report_lines(
    dry_run: bool,
    total: nat,
    passed: nat,
    failed: nat,
    ignored: nat,
    commit: Option<Seq<char>>,
    workspace: Seq<char>,
) -> Seq<Seq<char>> {
    let counts = seq![
        "  Total:   "@ + decimal(total),
        "  Passed:  "@ + decimal(passed),
        "  Failed:  "@ + decimal(failed),
        "  Ignored: "@ + decimal(ignored),
    ];
    if dry_run {
        seq!["Dry-run mode - no data will be written to database"@, ""@, "Test Summary:"@] + counts + seq![
            match commit {
                Some(c) => "  Commit:  "@ + c,
                None => "  Commit:  (none)"@,
            },
            ""@,
            "Workspace: "@ + workspace,
        ]
    } else {
        seq!["Test run completed:"@] + counts + seq![""@]
    }
}

/// A dry run prints ten lines: the counts as lines four to seven, then the
/// commit line, which names the given commit and reads `(none)` only
/// without one, and last the workspace; a real run prints the heading, the
/// four counts and a blank line.
pub proof fn law_report_names_commit(
    total: nat,
    passed: nat,
    failed: nat,
    ignored: nat,
    commit: Option<Seq<char>>,
    workspace: Seq<char>,
)
    ensures
        ({
            let dry = report_lines(true, total, passed, failed, ignored, commit, workspace);
            &&& dry.len() == 10
            &&& dry[3] == "  Total:   "@ + decimal(total)
            &&& dry[4] == "  Passed:  "@ + decimal(passed)
            &&& dry[5] == "  Failed:  "@ + decimal(failed)
            &&& dry[6] == "  Ignored: "@ + decimal(ignored)
            &&& (commit matches Some(c) ==> dry[7] == "  Commit:  "@ + c)
            &&& (commit is None ==> dry[7] == "  Commit:  (none)"@)
            &&& dry[9] == "Workspace: "@ + workspace
        }),
        ({
            let run = report_lines(false, total, passed, failed, ignored, commit, workspace);
            &&& run.len() == 6
            &&& run[1] == "  Total:   "@ + decimal(total)
            &&& run[2] == "  Passed:  "@ + decimal(passed)
            &&& run[3] == "  Failed:  "@ + decimal(failed)
            &&& run[4] == "  Ignored: "@ + decimal(ignored)
        }),
{
}

/// The lines printed after a test run.
pub fn test_report(
    dry_run: bool,
    total: usize,
    passed: usize,
    failed: usize,
    ignored: usize,
    commit: Option<&str>,
    workspace: &str,
) -> (lines: Vec<String>)
    ensures
        lines.deep_view() == report_lines(
            dry_run,
            total as nat,
            passed as nat,
            failed as nat,
            ignored as nat,
            match commit {
                Some(c) => Some(c@),
                None => None,
            },
            workspace@,
        ),
{
    let mut out: Vec<String> = Vec::new();
    let ghost v0 = out.deep_view();
    if dry_run {
        push_str(&mut out, "Dry-run mode - no data will be written to database");
        push_str(&mut out, "");
        push_str(&mut out, "Test Summary:");
    } else {
        push_str(&mut out, "Test run completed:");
    }
    push_owned(&mut out, labelled("  Total:   ", total));
    push_owned(&mut out, labelled("  Passed:  ", passed));
    push_owned(&mut out, labelled("  Failed:  ", failed));
    push_owned(&mut out, labelled("  Ignored: ", ignored));
    if dry_run {
        match commit {
            Some(c) => {
                let mut s = String::from_str("  Commit:  ");
                s.append(c);
                push_owned(&mut out, s);
            },
            None => push_str(&mut out, "  Commit:  (none)"),
        }
        push_str(&mut out, "");
        let mut w = String::from_str("Workspace: ");
        w.append(workspace);
        push_owned(&mut out, w);
    } else {
        push_str(&mut out, "");
    }
    assert(out.deep_view() =~= report_lines(
        dry_run,
        total as nat,
        passed as nat,
        failed as nat,
        ignored as nat,
        match commit {
            Some(c) => Some(c@),
            None => None,
        },
        workspace@,
    ));
    out
}

/// The line printed after `ingest --tests`.
pub fn ingest_report(results: usize, runs: usize) -> (s: String)
    ensures
        s@ == "Ingested "@ + decimal(results as nat) + " test results in "@ + decimal(runs as nat) + " test run(s)"@,
{
    let mut s = labelled("Ingested ", results);
    s.append(" test results in ");
    let d = decimal_text(runs);
    s.append(d.as_str());
    s.append(" test run(s)");
    s
}

} // verus!
