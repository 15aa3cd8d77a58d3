//! Test outcomes and results.

use vstd::prelude::*;

use crate::text::{pair_at, rfind_pair, rfind_pair_exec, lemma_rfind_pair};

verus! {

/// Possible test outcomes.
#[derive(Clone, Copy, PartialEq, Eq, Structural, Debug)]
pub enum TestOutcome {
    /// Test passed.
    Passed,
    /// Test failed.
    Failed,
    /// Test was ignored or skipped.
    Ignored,
    /// Test timed out.
    TimedOut,
}

/// The status symbol of an outcome.
pub open spec fn outcome_symbol(o: TestOutcome) -> Seq<char> {
    match o {
        TestOutcome::Passed => "✅"@,
        TestOutcome::Failed => "❌"@,
        TestOutcome::Ignored => "⏭️"@,
        TestOutcome::TimedOut => "⏰"@,
    }
}

impl TestOutcome {
    /// Whether the outcome counts as a success: passed or ignored.
    pub fn is_success(&self) -> (b: bool)
        ensures
            b == (*self == TestOutcome::Passed || *self == TestOutcome::Ignored),
    {
        match self {
            TestOutcome::Passed | TestOutcome::Ignored => true,
            _ => false,
        }
    }

    /// A human-readable status symbol.
    pub fn symbol(&self) -> (s: &'static str)
        ensures
            s@ == outcome_symbol(*self),
    {
        match self {
            TestOutcome::Passed => "✅",
            TestOutcome::Failed => "❌",
            TestOutcome::Ignored => "⏭️",
            TestOutcome::TimedOut => "⏰",
        }
    }
}

/// One test's result.
#[derive(Debug)]
pub struct TestResult {
    /// Test name (full path including module).
    pub name: String,
    /// Test outcome.
    pub outcome: TestOutcome,
    /// Duration in milliseconds.
    pub duration_ms: u64,
    /// When the test was run, in milliseconds since the Unix epoch.
    pub timestamp: i64,
    /// Test output, if any.
    pub output: Option<String>,
}

/// Where the module path of a test name ends: the last `::`, or -1.
pub open spec fn last_separator(name: Seq<char>) -> int {
    rfind_pair(name, ':', ':', name.len() as int)
}

impl TestResult {
    /// Whether the test passed.
    pub fn passed(&self) -> (b: bool)
        ensures
            b == (self.outcome == TestOutcome::Passed),
    {
        self.outcome == TestOutcome::Passed
    }

    /// Whether the test failed.
    pub fn failed(&self) -> (b: bool)
        ensures
            b == (self.outcome == TestOutcome::Failed),
    {
        self.outcome == TestOutcome::Failed
    }

    /// The module path: everything before the last `::`, if there is one.
    pub fn test_module_path(&self) -> (r: Option<&str>)
        ensures
            match r {
                Some(m) => last_separator(self.name@) >= 0 && m@ == self.name@.subrange(0, last_separator(self.name@)),
                None => last_separator(self.name@) == -1,
            },
    {
        let s = self.name.as_str();
        match rfind_pair_exec(s, ':', ':') {
            Some(k) => {
                proof {
                    lemma_rfind_pair(s@, ':', ':', s@.len() as int);
                }
                Some(s.substring_char(0, k))
            },
            None => None,
        }
    }

    /// The test function's name: everything after the last `::`, or the
    /// whole name.
    pub fn test_fn_name(&self) -> (r: &str)
        ensures
            r@ == if last_separator(self.name@) >= 0 {
                self.name@.subrange(last_separator(self.name@) + 2, self.name@.len() as int)
            } else {
                self.name@
            },
    {
        let s = self.name.as_str();
        match rfind_pair_exec(s, ':', ':') {
            Some(k) => {
                proof {
                    lemma_rfind_pair(s@, ':', ':', s@.len() as int);
                }
                let n = s.unicode_len();
                s.substring_char(k + 2, n)
            },
            None => s,
        }
    }
}

/// The module path, `::` and the function name give back the test's name.
pub proof fn law_test_name_parts(name: Seq<char>)
    requires
        last_separator(name) >= 0,
    ensures
        name.subrange(0, last_separator(name)) + "::"@ + name.subrange(last_separator(name) + 2, name.len() as int)
            == name,
{
    lemma_rfind_pair(name, ':', ':', name.len() as int);
    reveal_strlit("::");
    assert(name.subrange(0, last_separator(name)) + "::"@ + name.subrange(last_separator(name) + 2, name.len() as int)
        =~= name);
}

} // verus!
