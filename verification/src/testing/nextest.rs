//! The reports of cargo-nextest: test lists, run events and run summaries.
//!
//! A run report is newline-delimited JSON. [`frame_lines`] cuts it into the
//! lines that carry events; once each line is decoded into a
//! [`LibtestEvent`], [`summarize_events`] folds the events into a
//! [`TestRunSummary`], and [`StreamingParser`] does the same one event at a
//! time.

use vstd::prelude::*;

use crate::cli::grammar::find_char;
use crate::cli::parser::find_char_from;
use crate::testing::result::{TestOutcome, TestResult};
use crate::cli::parser::opt_str;
use crate::text::{
    chars_of, find_pair, find_pair_exec, is_space, is_space_exec, lead_space, lemma_find_pair, str_eq,
    string_of, trail_space, trim_spec,
};

verus! {

// ---------------------------------------------------------------------------
// Test names
// ---------------------------------------------------------------------------

/// A nextest test name without its binary prefix: what follows the first
/// `$`; else what follows the first `::`; else the whole name.
pub open spec fn normalized_name(name: Seq<char>) -> Seq<char> {
    let d = find_char(name, '$', 0);
    let k = find_pair(name, ':', ':', 0);
    if d < name.len() {
        name.subrange(d + 1, name.len() as int)
    } else if k < name.len() {
        name.subrange(k + 2, name.len() as int)
    } else {
        name
    }
}

pub proof fn lemma_find_char_bounds(s: Seq<char>, c: char, i: int)
    requires
        0 <= i <= s.len(),
    ensures
        i <= find_char(s, c, i) <= s.len(),
        find_char(s, c, i) < s.len() ==> s[find_char(s, c, i)] == c,
        forall|k: int| i <= k < find_char(s, c, i) ==> s[k] != c,
    decreases s.len() - i,
{
    if i < s.len() && s[i] != c {
        lemma_find_char_bounds(s, c, i + 1);
    }
}

/// Normalize a nextest test name to a clean format.
pub fn normalize_test_name(name: &str) -> (r: String)
    ensures
        r@ == normalized_name(name@),
{
    let n = name.unicode_len();
    let d = find_char_from(name, '$', 0);
    if d < n {
        return String::from_str(name.substring_char(d + 1, n));
    }
    let k = find_pair_exec(name, ':', ':');
    proof {
        lemma_find_pair(name@, ':', ':', 0);
    }
    if k < n {
        String::from_str(name.substring_char(k + 2, n))
    } else {
        String::from_str(name)
    }
}

// ---------------------------------------------------------------------------
// Test lists
// ---------------------------------------------------------------------------

/// A single test case in a suite.
#[derive(Debug)]
pub struct TestCase {
    /// Kind of test (usually "test").
    pub kind: String,
    /// Whether the test is ignored.
    pub ignored: bool,
}

/// A test suite: a binary containing tests.
#[derive(Debug)]
pub struct TestSuite {
    /// Package name.
    pub package_name: String,
    /// Binary ID.
    pub binary_id: String,
    /// Binary name.
    pub binary_name: String,
    /// Kind of binary (lib, bin, test, etc.).
    pub kind: String,
    /// Test cases by name (see [`TestSuite::well_formed`]).
    pub testcases: Vec<(String, TestCase)>,
}

/// The tests that a `cargo nextest list` reports.
#[derive(Debug)]
pub struct TestList {
    /// Total number of tests.
    pub test_count: usize,
    /// Test suites by binary ID (see [`TestList::well_formed`]).
    pub rust_suites: Vec<(String, TestSuite)>,
}

impl TestSuite {
    /// A suite is well formed when no test name occurs twice in it.
    pub open spec fn well_formed(&self) -> bool {
        forall|i: int, j: int|
            0 <= i < j < self.testcases@.len() ==> #[trigger] self.testcases@[i].0@ != #[trigger] self.testcases@[j].0@
    }
}

impl TestList {
    /// A list is well formed, as a map keyed by ID is, when no suite ID
    /// occurs twice and each suite is well formed.
    pub open spec fn well_formed(&self) -> bool {
        &&& forall|i: int, j: int|
            0 <= i < j < self.rust_suites@.len() ==> #[trigger] self.rust_suites@[i].0@ != #[trigger] self.rust_suites@[j].0@
        &&& forall|i: int| 0 <= i < self.rust_suites@.len() ==> (#[trigger] self.rust_suites@[i]).1.well_formed()
    }
}

/// The full names of a suite's tests: the suite's ID, `::`, the test's name.
pub open spec fn suite_test_names(id: Seq<char>, cases: Seq<(String, TestCase)>) -> Seq<Seq<char>> {
    cases.map_values(|c: (String, TestCase)| id + "::"@ + c.0@)
}

/// The full names of all tests, suite by suite.
pub open spec fn all_names(suites: Seq<(String, TestSuite)>) -> Seq<Seq<char>>
    decreases suites.len(),
{
    if suites.len() == 0 {
        Seq::empty()
    } else {
        all_names(suites.drop_last()) + suite_test_names(suites.last().0@, suites.last().1.testcases@)
    }
}

/// The number of ignored tests among some cases.
pub open spec fn ignored_in(cases: Seq<(String, TestCase)>) -> nat
    decreases cases.len(),
{
    if cases.len() == 0 {
        0
    } else {
        ignored_in(cases.drop_last()) + if cases.last().1.ignored {
            1nat
        } else {
            0nat
        }
    }
}

/// The number of ignored tests over all suites.
pub open spec fn ignored_total(suites: Seq<(String, TestSuite)>) -> nat
    decreases suites.len(),
{
    if suites.len() == 0 {
        0
    } else {
        ignored_total(suites.drop_last()) + ignored_in(suites.last().1.testcases@)
    }
}

/// The number of test cases over all suites.
pub open spec fn case_total(suites: Seq<(String, TestSuite)>) -> nat
    decreases suites.len(),
{
    if suites.len() == 0 {
        0
    } else {
        case_total(suites.drop_last()) + suites.last().1.testcases@.len()
    }
}

/// The position of the first suite with the given ID.
pub open spec fn suite_index(suites: Seq<(String, TestSuite)>, id: Seq<char>) -> Option<int> {
    if exists|i: int| 0 <= i < suites.len() && suites[i].0@ == id {
        Some(choose|i: int| 0 <= i < suites.len() && suites[i].0@ == id && forall|j: int| 0 <= j < i ==> suites[j].0@ != id)
    } else {
        None
    }
}

/// The ignored count of some cases is the number of cases whose ignored
/// flag is set.
pub proof fn law_ignored_counts_flagged_cases(cases: Seq<(String, TestCase)>)
    ensures
        ignored_in(cases) == cases.filter(|c: (String, TestCase)| c.1.ignored).len(),
    decreases cases.len(),
{
    if cases.len() > 0 {
        let pre = cases.drop_last();
        law_ignored_counts_flagged_cases(pre);
        assert(pre.push(cases.last()) =~= cases);
        pre.lemma_filter_push(cases.last(), |c: (String, TestCase)| c.1.ignored);
    } else {
        assert(cases.filter(|c: (String, TestCase)| c.1.ignored) =~= Seq::<(String, TestCase)>::empty());
    }
}

/// The ignored total of two lists of suites together is the sum of their
/// ignored totals, and that of one suite is its ignored count; so every
/// suite's flagged cases count, each once.
pub proof fn law_ignored_total_adds(a: Seq<(String, TestSuite)>, b: Seq<(String, TestSuite)>)
    ensures
        ignored_total(a + b) == ignored_total(a) + ignored_total(b),
        b.len() == 1 ==> ignored_total(b) == ignored_in(b[0].1.testcases@),
    decreases b.len(),
{
    if b.len() == 1 {
        assert(b.drop_last() =~= Seq::<(String, TestSuite)>::empty());
    }
    if b.len() == 0 {
        assert(a + b =~= a);
    } else {
        law_ignored_total_adds(a, b.drop_last());
        assert((a + b).drop_last() =~= a + b.drop_last());
        assert((a + b).last() == b.last());
    }
}

pub proof fn lemma_ignored_in_bound(cases: Seq<(String, TestCase)>)
    ensures
        ignored_in(cases) <= cases.len(),
    decreases cases.len(),
{
    if cases.len() > 0 {
        lemma_ignored_in_bound(cases.drop_last());
    }
}

pub proof fn lemma_ignored_total_bound(suites: Seq<(String, TestSuite)>)
    ensures
        ignored_total(suites) <= case_total(suites),
    decreases suites.len(),
{
    if suites.len() > 0 {
        lemma_ignored_total_bound(suites.drop_last());
        lemma_ignored_in_bound(suites.last().1.testcases@);
    }
}

proof fn lemma_all_names_len(suites: Seq<(String, TestSuite)>)
    ensures
        all_names(suites).len() == case_total(suites),
    decreases suites.len(),
{
    if suites.len() > 0 {
        lemma_all_names_len(suites.drop_last());
    }
}

/// No more tests are ignored than a list names.
pub proof fn law_ignored_within_names(suites: Seq<(String, TestSuite)>)
    ensures
        ignored_total(suites) <= all_names(suites).len(),
{
    lemma_ignored_total_bound(suites);
    lemma_all_names_len(suites);
}

impl TestList {
    /// The full names of all tests, suite by suite.
    pub fn all_test_names(&self) -> (names: Vec<String>)
        ensures
            names.deep_view() == all_names(self.rust_suites@),
    {
        let mut names: Vec<String> = Vec::new();
        let mut i: usize = 0;
        while i < self.rust_suites.len()
            invariant
                i <= self.rust_suites@.len(),
                names.deep_view() == all_names(self.rust_suites@.take(i as int)),
            decreases self.rust_suites@.len() - i,
        {
            let id = &self.rust_suites[i].0;
            let cases = &self.rust_suites[i].1.testcases;
            let ghost before = names.deep_view();
            let mut j: usize = 0;
            while j < cases.len()
                invariant
                    j <= cases@.len(),
                    names.deep_view() == before + suite_test_names(id@, cases@.take(j as int)),
                decreases cases@.len() - j,
            {
                let mut full = id.clone();
                full.append("::");
                full.append(cases[j].0.as_str());
                let ghost mid = names.deep_view();
                names.push(full);
                assert(names.deep_view() =~= mid.push(full@));
                assert(suite_test_names(id@, cases@.take(j + 1)) =~= suite_test_names(id@, cases@.take(j as int)).push(
                    id@ + "::"@ + cases@[j as int].0@,
                ));
                assert(names.deep_view() =~= before + suite_test_names(id@, cases@.take(j + 1)));
                j = j + 1;
            }
            assert(cases@.take(j as int) =~= cases@);
            assert(self.rust_suites@.take(i + 1).drop_last() =~= self.rust_suites@.take(i as int));
            i = i + 1;
        }
        assert(self.rust_suites@.take(i as int) =~= self.rust_suites@);
        names
    }

    /// The names of the tests in the suite with the given ID; none when no
    /// suite has that ID.
    pub fn tests_in_suite(&self, suite_id: &str) -> (names: Vec<&str>)
        ensures
            names@.map_values(|s: &str| s@) == match suite_index(self.rust_suites@, suite_id@) {
                Some(i) => self.rust_suites@[i].1.testcases@.map_values(|c: (String, TestCase)| c.0@),
                None => Seq::empty(),
            },
            self.well_formed() ==> forall|k: int|
                0 <= k < self.rust_suites@.len() && #[trigger] self.rust_suites@[k].0@ == suite_id@
                    ==> names@.map_values(|s: &str| s@) == self.rust_suites@[k].1.testcases@.map_values(
                    |c: (String, TestCase)| c.0@,
                ),
    {
        let mut i: usize = 0;
        while i < self.rust_suites.len()
            invariant
                i <= self.rust_suites@.len(),
                forall|j: int| 0 <= j < i ==> self.rust_suites@[j].0@ != suite_id@,
            decreases self.rust_suites@.len() - i,
        {
            if str_eq(self.rust_suites[i].0.as_str(), suite_id) {
                let cases = &self.rust_suites[i].1.testcases;
                let mut names: Vec<&str> = Vec::new();
                let mut j: usize = 0;
                while j < cases.len()
                    invariant
                        j <= cases@.len(),
                        names@.len() == j,
                        forall|k: int| 0 <= k < j ==> #[trigger] names@[k]@ == cases@[k].0@,
                    decreases cases@.len() - j,
                {
                    let s = cases[j].0.as_str();
                    names.push(s);
                    j = j + 1;
                }
                assert(names@.map_values(|s: &str| s@) =~= cases@.map_values(|c: (String, TestCase)| c.0@));
                let ghost found = suite_index(self.rust_suites@, suite_id@);
                assert(found == Some(i as int)) by {
                    let k = found->0;
                    assert(0 <= k < self.rust_suites@.len() && self.rust_suites@[k].0@ == suite_id@);
                    assert(forall|j: int| 0 <= j < k ==> self.rust_suites@[j].0@ != suite_id@);
                    if k < i {
                    } else if k > i {
                    }
                }
                assert(self.well_formed() ==> forall|k: int|
                    0 <= k < self.rust_suites@.len() && #[trigger] self.rust_suites@[k].0@ == suite_id@ ==> k == i) by {
                    if self.well_formed() {
                        assert forall|k: int|
                            0 <= k < self.rust_suites@.len() && #[trigger] self.rust_suites@[k].0@ == suite_id@ implies k == i by {
                            if k < i {
                                assert(self.rust_suites@[k].0@ != self.rust_suites@[i as int].0@);
                            } else if k > i {
                                assert(self.rust_suites@[i as int].0@ != self.rust_suites@[k].0@);
                            }
                        }
                    }
                }
                return names;
            }
            i = i + 1;
        }
        let names: Vec<&str> = Vec::new();
        assert(names@.map_values(|s: &str| s@) =~= Seq::<Seq<char>>::empty());
        names
    }

    /// The number of ignored tests over all suites.
    pub fn ignored_count(&self) -> (n: usize)
        requires
            case_total(self.rust_suites@) <= usize::MAX,
        ensures
            n == ignored_total(self.rust_suites@),
            n <= all_names(self.rust_suites@).len(),
    {
        proof {
            law_ignored_within_names(self.rust_suites@);
        }
        let mut count: usize = 0;
        let mut i: usize = 0;
        while i < self.rust_suites.len()
            invariant
                i <= self.rust_suites@.len(),
                count == ignored_total(self.rust_suites@.take(i as int)),
                case_total(self.rust_suites@) <= usize::MAX,
            decreases self.rust_suites@.len() - i,
        {
            let cases = &self.rust_suites[i].1.testcases;
            let ghost before = count;
            let mut j: usize = 0;
            while j < cases.len()
                invariant
                    j <= cases@.len(),
                    count == before + ignored_in(cases@.take(j as int)),
                    before == ignored_total(self.rust_suites@.take(i as int)),
                    case_total(self.rust_suites@) <= usize::MAX,
                    i < self.rust_suites@.len(),
                    cases@ == self.rust_suites@[i as int].1.testcases@,
                decreases cases@.len() - j,
            {
                assert(cases@.take(j + 1).drop_last() =~= cases@.take(j as int));
                proof {
                    let pre = self.rust_suites@.take(i + 1);
                    assert(pre.drop_last() =~= self.rust_suites@.take(i as int));
                    assert(pre.last() == self.rust_suites@[i as int]);
                    lemma_ignored_total_bound(pre);
                    lemma_case_total_prefix(self.rust_suites@, i + 1);
                    lemma_ignored_in_mono(cases@, j + 1);
                }
                if cases[j].1.ignored {
                    count = count + 1;
                }
                j = j + 1;
            }
            assert(cases@.take(j as int) =~= cases@);
            assert(self.rust_suites@.take(i + 1).drop_last() =~= self.rust_suites@.take(i as int));
            i = i + 1;
        }
        assert(self.rust_suites@.take(i as int) =~= self.rust_suites@);
        count
    }
}

pub proof fn lemma_case_total_prefix(suites: Seq<(String, TestSuite)>, k: int)
    requires
        0 <= k <= suites.len(),
    ensures
        case_total(suites.take(k)) <= case_total(suites),
    decreases suites.len() - k,
{
    if k < suites.len() {
        lemma_case_total_prefix(suites, k + 1);
        assert(suites.take(k + 1).drop_last() =~= suites.take(k));
    } else {
        assert(suites.take(k) =~= suites);
    }
}

pub proof fn lemma_ignored_in_mono(cases: Seq<(String, TestCase)>, k: int)
    requires
        0 <= k <= cases.len(),
    ensures
        ignored_in(cases.take(k)) <= ignored_in(cases),
    decreases cases.len() - k,
{
    if k < cases.len() {
        lemma_ignored_in_mono(cases, k + 1);
        assert(cases.take(k + 1).drop_last() =~= cases.take(k));
    } else {
        assert(cases.take(k) =~= cases);
    }
}

// ---------------------------------------------------------------------------
// Framing a run report into lines
// ---------------------------------------------------------------------------

/// The lines of a report that carry an event: the text is cut at each
/// `'\n'`, each piece is trimmed of white space, and empty pieces are dropped.
pub open spec fn frame(s: Seq<char>) -> Seq<Seq<char>>
    decreases s.len(),
{
    let k = find_char(s, '\n', 0);
    if k < 0 || k > s.len() {
        Seq::empty()
    } else {
        let head = trim_spec(s.subrange(0, k));
        let rest = if k < s.len() {
            frame(s.subrange(k + 1, s.len() as int))
        } else {
            Seq::empty()
        };
        if head.len() > 0 {
            seq![head] + rest
        } else {
            rest
        }
    }
}

pub proof fn lemma_find_char_shift(s: Seq<char>, c: char, a: int, j: int)
    requires
        0 <= a <= s.len(),
        0 <= j <= s.len() - a,
    ensures
        find_char(s.subrange(a, s.len() as int), c, j) + a == find_char(s, c, a + j),
    decreases s.len() - a - j,
{
    let t = s.subrange(a, s.len() as int);
    if j < t.len() && t[j] != c {
        lemma_find_char_shift(s, c, a, j + 1);
    }
}

/// The first `c` in `cs` at or after `from`, or the length of `cs`.
fn find_in(cs: &Vec<char>, c: char, from: usize) -> (k: usize)
    requires
        from <= cs@.len(),
    ensures
        k == find_char(cs@, c, from as int),
        from <= k <= cs@.len(),
{
    let n = cs.len();
    let mut i = from;
    while i < n
        invariant
            n == cs@.len(),
            from <= i <= n,
            find_char(cs@, c, from as int) == find_char(cs@, c, i as int),
        decreases n - i,
    {
        if cs[i] == c {
            return i;
        }
        i = i + 1;
    }
    i
}

/// The bounds of `cs[a..b]` once trimmed of white space.
fn trim_range(cs: &Vec<char>, a: usize, b: usize) -> (r: (usize, usize))
    requires
        a <= b <= cs@.len(),
    ensures
        a <= r.0 <= r.1 <= b,
        cs@.subrange(r.0 as int, r.1 as int) == trim_spec(cs@.subrange(a as int, b as int)),
{
    let ghost sub = cs@.subrange(a as int, b as int);
    let mut lo = a;
    while lo < b && is_space_exec(cs[lo])
        invariant
            a <= lo <= b <= cs@.len(),
            sub == cs@.subrange(a as int, b as int),
            lead_space(sub, 0) == lead_space(sub, lo - a),
        decreases b - lo,
    {
        lo = lo + 1;
    }
    let mut hi = b;
    while hi > lo && is_space_exec(cs[hi - 1])
        invariant
            a <= lo <= hi <= b <= cs@.len(),
            sub == cs@.subrange(a as int, b as int),
            lo - a == lead_space(sub, 0),
            trail_space(sub, lo - a, b - a) == trail_space(sub, lo - a, hi - a),
        decreases hi - lo,
    {
        hi = hi - 1;
    }
    assert(cs@.subrange(lo as int, hi as int) =~= sub.subrange(lo - a, hi - a));
    (lo, hi)
}

/// The lines of a run report that carry an event, trimmed.
pub fn frame_lines(output: &str) -> (lines: Vec<String>)
    ensures
        lines.deep_view() == frame(output@),
{
    let cs = chars_of(output);
    let n = cs.len();
    let mut out: Vec<String> = Vec::new();
    let mut start: usize = 0;
    assert(cs@.subrange(0, n as int) =~= cs@);
    loop
        invariant
            n == cs@.len(),
            cs@ == output@,
            start <= n,
            out.deep_view() + frame(cs@.subrange(start as int, n as int)) == frame(output@),
        decreases n - start,
    {
        let ghost rest = cs@.subrange(start as int, n as int);
        let k = find_in(&cs, '\n', start);
        proof {
            lemma_find_char_shift(cs@, '\n', start as int, 0);
        }
        let ghost kr = k - start;
        assert(rest.subrange(0, kr) =~= cs@.subrange(start as int, k as int));
        let (lo, hi) = trim_range(&cs, start, k);
        let ghost before = out.deep_view();
        if lo < hi {
            let line = string_of(&cs, lo, hi);
            out.push(line);
            assert(out.deep_view() =~= before.push(line@));
        }
        if k == n {
            assert(frame(rest) == if hi > lo {
                seq![cs@.subrange(lo as int, hi as int)]
            } else {
                Seq::<Seq<char>>::empty()
            });
            assert(out.deep_view() =~= before + frame(rest));
            return out;
        }
        assert(rest.subrange(kr + 1, rest.len() as int) =~= cs@.subrange(k + 1, n as int));
        assert(out.deep_view() + frame(cs@.subrange(k + 1, n as int)) =~= before + frame(rest));
        start = k + 1;
    }
}

// ---------------------------------------------------------------------------
// Run events and summaries
// ---------------------------------------------------------------------------

/// Suite-level event.
#[derive(Debug)]
pub struct SuiteEvent {
    /// Event type: "started", or "ok" / "failed" at the end.
    pub event: String,
    /// Number of tests (in the "started" event).
    pub test_count: Option<usize>,
    /// Number of passed tests (in the final event).
    pub passed: Option<usize>,
    /// Number of failed tests (in the final event).
    pub failed: Option<usize>,
    /// Number of ignored tests (in the final event).
    pub ignored: Option<usize>,
    /// Execution time in milliseconds (in the final event).
    pub exec_time_ms: Option<u64>,
}

/// Test-level event.
#[derive(Debug)]
pub struct TestEvent {
    /// Event type: "started", "ok", "failed", "ignored".
    pub event: String,
    /// Full test name including binary.
    pub name: String,
    /// Execution time in milliseconds (in finished events).
    pub exec_time_ms: Option<u64>,
    /// Stdout output (in failed events).
    pub stdout: Option<String>,
}

/// A single event of a run report.
#[derive(Debug)]
pub enum LibtestEvent {
    /// Suite event.
    Suite(SuiteEvent),
    /// Test event.
    Test(TestEvent),
}

/// A test result as a value.
pub struct ResultModel {
    pub name: Seq<char>,
    pub outcome: TestOutcome,
    pub duration_ms: u64,
    pub timestamp: i64,
    pub output: Option<Seq<char>>,
}

impl TestResult {
    pub open spec fn model(&self) -> ResultModel {
        ResultModel {
            name: self.name@,
            outcome: self.outcome,
            duration_ms: self.duration_ms,
            timestamp: self.timestamp,
            output: opt_str(self.output),
        }
    }
}

pub open spec fn results_model(rs: Seq<TestResult>) -> Seq<ResultModel> {
    rs.map_values(|r: TestResult| r.model())
}

/// Aggregated results of a test run.
#[derive(Debug)]
pub struct TestRunSummary {
    /// Total tests run.
    pub total: usize,
    /// Tests passed.
    pub passed: usize,
    /// Tests failed.
    pub failed: usize,
    /// Tests ignored.
    pub ignored: usize,
    /// Total execution time in milliseconds.
    pub exec_time_ms: u64,
    /// Individual test results.
    pub results: Vec<TestResult>,
}

/// A run summary as a value.
pub struct SummaryModel {
    pub total: usize,
    pub passed: usize,
    pub failed: usize,
    pub ignored: usize,
    pub exec_time_ms: u64,
    pub results: Seq<ResultModel>,
}

impl TestRunSummary {
    pub open spec fn model(&self) -> SummaryModel {
        SummaryModel {
            total: self.total,
            passed: self.passed,
            failed: self.failed,
            ignored: self.ignored,
            exec_time_ms: self.exec_time_ms,
            results: results_model(self.results@),
        }
    }
}

pub open spec fn empty_summary() -> SummaryModel {
    SummaryModel { total: 0, passed: 0, failed: 0, ignored: 0, exec_time_ms: 0, results: Seq::empty() }
}

/// The outcome that a finished test event names.
pub open spec fn event_outcome(ev: Seq<char>) -> TestOutcome {
    if ev == "ok"@ {
        TestOutcome::Passed
    } else if ev == "failed"@ {
        TestOutcome::Failed
    } else if ev == "ignored"@ {
        TestOutcome::Ignored
    } else {
        TestOutcome::Failed
    }
}

/// The result that a finished test event records.
pub open spec fn finished_result(t: TestEvent, now: i64) -> ResultModel {
    ResultModel {
        name: normalized_name(t.name@),
        outcome: event_outcome(t.event@),
        duration_ms: match t.exec_time_ms {
            Some(d) => d,
            None => 0,
        },
        timestamp: now,
        output: opt_str(t.stdout),
    }
}

pub open spec fn or_keep<T>(o: Option<T>, keep: T) -> T {
    match o {
        Some(v) => v,
        None => keep,
    }
}

/// One event applied to a run summary.
pub open spec fn apply_event(s: SummaryModel, e: LibtestEvent, now: i64) -> SummaryModel {
    match e {
        LibtestEvent::Suite(se) => if se.event@ == "started"@ {
            SummaryModel { total: or_keep(se.test_count, s.total), ..s }
        } else {
            SummaryModel {
                passed: or_keep(se.passed, s.passed),
                failed: or_keep(se.failed, s.failed),
                ignored: or_keep(se.ignored, s.ignored),
                exec_time_ms: or_keep(se.exec_time_ms, s.exec_time_ms),
                ..s
            }
        },
        LibtestEvent::Test(te) => if te.event@ == "started"@ {
            s
        } else {
            SummaryModel { results: s.results.push(finished_result(te, now)), ..s }
        },
    }
}

/// The summary of a run's events, all stamped with the time `now`.
pub open spec fn summary_of(es: Seq<LibtestEvent>, now: i64) -> SummaryModel
    decreases es.len(),
{
    if es.len() == 0 {
        empty_summary()
    } else {
        apply_event(summary_of(es.drop_last(), now), es.last(), now)
    }
}

/// A finished suite event sets each count it carries, whatever its word
/// (`ok` or `failed`), keeps the others and the results; a `started` suite
/// event sets only the announced total; a finished test event appends its
/// result and leaves the counts alone.
pub proof fn law_summary_counts_from_suite(es: Seq<LibtestEvent>, e: LibtestEvent, now: i64)
    ensures
        ({
            let before = summary_of(es, now);
            let after = summary_of(es.push(e), now);
            match e {
                LibtestEvent::Suite(se) => if se.event@ != "started"@ {
                    &&& after.passed == (match se.passed { Some(p) => p, None => before.passed })
                    &&& after.failed == (match se.failed { Some(f) => f, None => before.failed })
                    &&& after.ignored == (match se.ignored { Some(g) => g, None => before.ignored })
                    &&& after.total == before.total
                    &&& after.results == before.results
                } else {
                    &&& after.total == (match se.test_count { Some(t) => t, None => before.total })
                    &&& after.passed == before.passed
                    &&& after.failed == before.failed
                    &&& after.ignored == before.ignored
                    &&& after.results == before.results
                },
                LibtestEvent::Test(te) => {
                    &&& after.passed == before.passed
                    &&& after.failed == before.failed
                    &&& after.ignored == before.ignored
                    &&& after.total == before.total
                    &&& after.results == (if te.event@ == "started"@ {
                        before.results
                    } else {
                        before.results.push(finished_result(te, now))
                    })
                },
            }
        }),
{
    assert(es.push(e).drop_last() =~= es);
}

fn copy_text(o: &Option<String>) -> (r: Option<String>)
    ensures
        opt_str(r) == opt_str(*o),
{
    match o {
        Some(s) => Some(s.clone()),
        None => None,
    }
}

/// The result that a finished test event records.
fn result_of(t: &TestEvent, now: i64) -> (r: TestResult)
    ensures
        r.model() == finished_result(*t, now),
{
    let outcome = if str_eq(t.event.as_str(), "ok") {
        TestOutcome::Passed
    } else if str_eq(t.event.as_str(), "failed") {
        TestOutcome::Failed
    } else if str_eq(t.event.as_str(), "ignored") {
        TestOutcome::Ignored
    } else {
        TestOutcome::Failed
    };
    let duration_ms = match t.exec_time_ms {
        Some(d) => d,
        None => 0,
    };
    TestResult {
        name: normalize_test_name(t.name.as_str()),
        outcome,
        duration_ms,
        timestamp: now,
        output: copy_text(&t.stdout),
    }
}

/// A copy of a result.
pub fn copy_result(r: &TestResult) -> (c: TestResult)
    ensures
        c.model() == r.model(),
{
    TestResult {
        name: r.name.clone(),
        outcome: r.outcome,
        duration_ms: r.duration_ms,
        timestamp: r.timestamp,
        output: copy_text(&r.output),
    }
}

impl TestRunSummary {
    /// An empty summary.
    pub fn empty() -> (s: TestRunSummary)
        ensures
            s.model() == empty_summary(),
    {
        let results: Vec<TestResult> = Vec::new();
        assert(results_model(results@) =~= Seq::<ResultModel>::empty());
        TestRunSummary { total: 0, passed: 0, failed: 0, ignored: 0, exec_time_ms: 0, results }
    }

    /// Whether no test failed.
    pub fn all_passed(&self) -> (b: bool)
        ensures
            b == (self.failed == 0),
    {
        self.failed == 0
    }

    /// The failing tests, in order.
    pub fn failing_tests(&self) -> (r: Vec<&TestResult>)
        ensures
            r@.map_values(|t: &TestResult| t.model()) == results_model(self.results@).filter(
                |m: ResultModel| m.outcome == TestOutcome::Failed,
            ),
    {
        let mut r: Vec<&TestResult> = Vec::new();
        let mut i: usize = 0;
        while i < self.results.len()
            invariant
                i <= self.results@.len(),
                r@.map_values(|t: &TestResult| t.model()) == results_model(self.results@.take(i as int)).filter(
                    |m: ResultModel| m.outcome == TestOutcome::Failed,
                ),
            decreases self.results@.len() - i,
        {
            let t = &self.results[i];
            let ghost pre = results_model(self.results@.take(i as int));
            assert(results_model(self.results@.take(i + 1)) =~= pre.push(t.model()));
            proof {
                pre.lemma_filter_push(t.model(), |m: ResultModel| m.outcome == TestOutcome::Failed);
            }
            if t.failed() {
                r.push(t);
            }
            assert(r@.map_values(|t: &TestResult| t.model()) =~= results_model(self.results@.take(i + 1)).filter(
                |m: ResultModel| m.outcome == TestOutcome::Failed,
            ));
            i = i + 1;
        }
        assert(self.results@.take(i as int) =~= self.results@);
        r
    }
}

/// Fold a run's events into a summary, stamping every result with `now`.
pub fn summarize_events(events: &Vec<LibtestEvent>, now: i64) -> (s: TestRunSummary)
    ensures
        s.model() == summary_of(events@, now),
{
    let mut s = TestRunSummary::empty();
    let mut i: usize = 0;
    while i < events.len()
        invariant
            i <= events@.len(),
            s.model() == summary_of(events@.take(i as int), now),
        decreases events@.len() - i,
    {
        assert(events@.take(i + 1).drop_last() =~= events@.take(i as int));
        match &events[i] {
            LibtestEvent::Suite(se) => {
                if str_eq(se.event.as_str(), "started") {
                    if let Some(c) = se.test_count {
                        s.total = c;
                    }
                } else {
                    if let Some(p) = se.passed {
                        s.passed = p;
                    }
                    if let Some(f) = se.failed {
                        s.failed = f;
                    }
                    if let Some(g) = se.ignored {
                        s.ignored = g;
                    }
                    if let Some(t) = se.exec_time_ms {
                        s.exec_time_ms = t;
                    }
                }
            },
            LibtestEvent::Test(te) => {
                if !str_eq(te.event.as_str(), "started") {
                    let r = result_of(te, now);
                    let ghost before = s.results@;
                    s.results.push(r);
                    assert(results_model(s.results@) =~= results_model(before).push(r.model()));
                }
            },
        }
        i = i + 1;
    }
    assert(events@.take(i as int) =~= events@);
    s
}

// ---------------------------------------------------------------------------
// Streaming
// ---------------------------------------------------------------------------

/// A parser that takes a run's events one at a time.
#[derive(Debug)]
pub struct StreamingParser {
    results: Vec<TestResult>,
    total: usize,
}

/// The state of a streaming parser as a value.
pub struct StreamModel {
    pub results: Seq<ResultModel>,
    pub total: usize,
}

/// One event applied to a streaming parser's state.
pub open spec fn stream_event(s: StreamModel, e: LibtestEvent, now: i64) -> StreamModel {
    match e {
        LibtestEvent::Suite(se) => if se.event@ == "started"@ {
            StreamModel { total: or_keep(se.test_count, s.total), ..s }
        } else {
            s
        },
        LibtestEvent::Test(te) => if te.event@ == "started"@ {
            s
        } else {
            StreamModel { results: s.results.push(finished_result(te, now)), ..s }
        },
    }
}

/// The streaming state after some events, each stamped with its own time.
pub open spec fn stream_of(es: Seq<LibtestEvent>, now: i64) -> StreamModel
    decreases es.len(),
{
    if es.len() == 0 {
        StreamModel { results: Seq::empty(), total: 0 }
    } else {
        stream_event(stream_of(es.drop_last(), now), es.last(), now)
    }
}

/// The number of results with a given outcome.
pub open spec fn count_outcome(rs: Seq<ResultModel>, o: TestOutcome) -> nat
    decreases rs.len(),
{
    if rs.len() == 0 {
        0
    } else {
        count_outcome(rs.drop_last(), o) + if rs.last().outcome == o {
            1nat
        } else {
            0nat
        }
    }
}

/// The sum of the results' durations.
pub open spec fn total_duration(rs: Seq<ResultModel>) -> nat
    decreases rs.len(),
{
    if rs.len() == 0 {
        0
    } else {
        total_duration(rs.drop_last()) + rs.last().duration_ms as nat
    }
}

pub proof fn lemma_count_bound(rs: Seq<ResultModel>, o: TestOutcome)
    ensures
        count_outcome(rs, o) <= rs.len(),
    decreases rs.len(),
{
    if rs.len() > 0 {
        lemma_count_bound(rs.drop_last(), o);
    }
}

pub proof fn lemma_duration_prefix(rs: Seq<ResultModel>, k: int)
    requires
        0 <= k <= rs.len(),
    ensures
        total_duration(rs.take(k)) <= total_duration(rs),
    decreases rs.len() - k,
{
    if k < rs.len() {
        lemma_duration_prefix(rs, k + 1);
        assert(rs.take(k + 1).drop_last() =~= rs.take(k));
    } else {
        assert(rs.take(k) =~= rs);
    }
}

impl StreamingParser {
    pub closed spec fn model(&self) -> StreamModel {
        StreamModel { results: results_model(self.results@), total: self.total }
    }

    /// A parser that has seen no event.
    pub fn new() -> (p: StreamingParser)
        ensures
            p.model() == (StreamModel { results: Seq::empty(), total: 0 }),
    {
        let results: Vec<TestResult> = Vec::new();
        assert(results_model(results@) =~= Seq::<ResultModel>::empty());
        StreamingParser { results, total: 0 }
    }

    /// Take one event, stamped with the time `now`; a finished test gives
    /// its result back.
    pub fn process_event(&mut self, event: &LibtestEvent, now: i64) -> (r: Option<TestResult>)
        ensures
            final(self).model() == stream_event(old(self).model(), *event, now),
            match event {
                LibtestEvent::Test(te) => if te.event@ == "started"@ {
                    r is None
                } else {
                    r matches Some(t) && t.model() == finished_result(*te, now)
                },
                LibtestEvent::Suite(_) => r is None,
            },
    {
        match event {
            LibtestEvent::Suite(se) => {
                if str_eq(se.event.as_str(), "started") {
                    if let Some(c) = se.test_count {
                        self.total = c;
                    }
                }
                None
            },
            LibtestEvent::Test(te) => {
                if str_eq(te.event.as_str(), "started") {
                    None
                } else {
                    let r = result_of(te, now);
                    let copy = copy_result(&r);
                    let ghost before = self.results@;
                    self.results.push(r);
                    assert(results_model(self.results@) =~= results_model(before).push(copy.model()));
                    Some(copy)
                }
            },
        }
    }

    /// The results so far.
    pub fn results(&self) -> (r: &[TestResult])
        ensures
            results_model(r@) == self.model().results,
    {
        self.results.as_slice()
    }

    /// The summary of what the parser has seen: counts by outcome and the
    /// sum of the durations.
    pub fn into_summary(self) -> (s: TestRunSummary)
        requires
            total_duration(self.model().results) <= u64::MAX,
        ensures
            s.total == self.model().total,
            s.passed == count_outcome(self.model().results, TestOutcome::Passed),
            s.failed == count_outcome(self.model().results, TestOutcome::Failed),
            s.ignored == count_outcome(self.model().results, TestOutcome::Ignored),
            s.exec_time_ms == total_duration(self.model().results),
            s.model().results == self.model().results,
    {
        let ghost all = results_model(self.results@);
        let mut passed: usize = 0;
        let mut failed: usize = 0;
        let mut ignored: usize = 0;
        let mut time: u64 = 0;
        let mut i: usize = 0;
        while i < self.results.len()
            invariant
                i <= self.results@.len(),
                all == results_model(self.results@),
                total_duration(all) <= u64::MAX,
                passed == count_outcome(all.take(i as int), TestOutcome::Passed),
                failed == count_outcome(all.take(i as int), TestOutcome::Failed),
                ignored == count_outcome(all.take(i as int), TestOutcome::Ignored),
                time == total_duration(all.take(i as int)),
            decreases self.results@.len() - i,
        {
            let r = &self.results[i];
            assert(all.take(i + 1).drop_last() =~= all.take(i as int));
            proof {
                lemma_count_bound(all.take(i as int), TestOutcome::Passed);
                lemma_count_bound(all.take(i as int), TestOutcome::Failed);
                lemma_count_bound(all.take(i as int), TestOutcome::Ignored);
                lemma_duration_prefix(all, i + 1);
            }
            if r.outcome == TestOutcome::Passed {
                passed = passed + 1;
            } else if r.outcome == TestOutcome::Failed {
                failed = failed + 1;
            } else if r.outcome == TestOutcome::Ignored {
                ignored = ignored + 1;
            }
            time = time + r.duration_ms;
            i = i + 1;
        }
        assert(all.take(i as int) =~= all);
        TestRunSummary { total: self.total, passed, failed, ignored, exec_time_ms: time, results: self.results }
    }
}

/// The streaming parser and the whole-report summary agree: fed the same
/// events, they hold the same results and the same announced total.
pub proof fn law_stream_matches_summary(es: Seq<LibtestEvent>, now: i64)
    ensures
        stream_of(es, now).results == summary_of(es, now).results,
        stream_of(es, now).total == summary_of(es, now).total,
    decreases es.len(),
{
    if es.len() > 0 {
        law_stream_matches_summary(es.drop_last(), now);
    }
}

} // verus!
