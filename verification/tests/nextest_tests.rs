//! Run reports: framing, events, summaries and test lists.

use hindsight::testing::nextest::{
    frame_lines, normalize_test_name, summarize_events, LibtestEvent, StreamingParser, SuiteEvent,
    TestCase, TestEvent, TestList, TestRunSummary, TestSuite,
};
use hindsight::testing::result::{TestOutcome, TestResult};

fn suite_started(count: usize) -> LibtestEvent {
    LibtestEvent::Suite(SuiteEvent {
        event: "started".to_string(),
        test_count: Some(count),
        passed: None,
        failed: None,
        ignored: None,
        exec_time_ms: None,
    })
}

fn suite_done(event: &str, passed: usize, failed: usize, ignored: usize, ms: u64) -> LibtestEvent {
    LibtestEvent::Suite(SuiteEvent {
        event: event.to_string(),
        test_count: None,
        passed: Some(passed),
        failed: Some(failed),
        ignored: Some(ignored),
        exec_time_ms: Some(ms),
    })
}

fn test_event(event: &str, name: &str, ms: Option<u64>, stdout: Option<&str>) -> LibtestEvent {
    LibtestEvent::Test(TestEvent {
        event: event.to_string(),
        name: name.to_string(),
        exec_time_ms: ms,
        stdout: stdout.map(|s| s.to_string()),
    })
}

#[test]
fn test_normalize_test_name() {
    assert_eq!(
        normalize_test_name("hindsight-tests::hindsight_tests$result::tests::test_passed"),
        "result::tests::test_passed"
    );
    assert_eq!(normalize_test_name("crate::binary$module::test"), "module::test");
    assert_eq!(normalize_test_name("simple_test"), "simple_test");
}

#[test]
fn test_normalize_test_name_without_dollar_drops_prefix() {
    assert_eq!(normalize_test_name("crate::module::test"), "module::test");
    assert_eq!(normalize_test_name("a$b$c"), "b$c");
}

#[test]
fn test_frame_lines_trims_and_drops_blank_lines() {
    let lines = frame_lines("  {\"a\":1}  \r\n\n\t\n{\"b\":2}\n   ");
    assert_eq!(lines, vec!["{\"a\":1}".to_string(), "{\"b\":2}".to_string()]);
}

#[test]
fn test_frame_lines_empty() {
    assert!(frame_lines("").is_empty());
    assert!(frame_lines("\n\n  \n").is_empty());
}

#[test]
fn test_frame_lines_last_line_without_newline() {
    assert_eq!(frame_lines("x\ny"), vec!["x".to_string(), "y".to_string()]);
}

#[test]
fn test_parse_run_output_single_test() {
    let events = vec![
        suite_started(1),
        test_event("started", "my-crate::my_crate$tests::test_one", None, None),
        test_event("ok", "my-crate::my_crate$tests::test_one", Some(15), None),
        suite_done("ok", 1, 0, 0, 15),
    ];
    let summary = summarize_events(&events, 0);
    assert_eq!(summary.passed, 1);
    assert_eq!(summary.failed, 0);
    assert_eq!(summary.results.len(), 1);
    assert_eq!(summary.results[0].name, "tests::test_one");
    assert!(summary.results[0].passed());
    assert_eq!(summary.results[0].duration_ms, 15);
}

#[test]
fn test_parse_run_output_failed_test() {
    let events = vec![
        suite_started(1),
        test_event("started", "crate::bin$mod::test_fail", None, None),
        test_event("failed", "crate::bin$mod::test_fail", Some(5), Some("assertion failed")),
        suite_done("failed", 0, 1, 0, 5),
    ];
    let summary = summarize_events(&events, 0);
    assert_eq!(summary.failed, 1);
    assert!(summary.results[0].failed());
    assert_eq!(summary.results[0].output, Some("assertion failed".to_string()));
}

#[test]
fn test_parse_run_output_multiple_tests() {
    let events = vec![
        suite_started(3),
        test_event("started", "c::b$test_a", None, None),
        test_event("ok", "c::b$test_a", Some(1), None),
        test_event("started", "c::b$test_b", None, None),
        test_event("ignored", "c::b$test_b", Some(0), None),
        test_event("started", "c::b$test_c", None, None),
        test_event("ok", "c::b$test_c", Some(2), None),
        suite_done("ok", 2, 0, 1, 3),
    ];
    let summary = summarize_events(&events, 7);
    assert_eq!(summary.total, 3);
    assert_eq!(summary.passed, 2);
    assert_eq!(summary.ignored, 1);
    assert_eq!(summary.results.len(), 3);
    assert_eq!(summary.exec_time_ms, 3);
    assert!(summary.results.iter().all(|r| r.timestamp == 7));
    assert_eq!(summary.results[1].outcome, TestOutcome::Ignored);
}

#[test]
fn test_unknown_finished_event_counts_as_failure() {
    let events = vec![test_event("timeout", "c::b$slow", None, None)];
    let summary = summarize_events(&events, 0);
    assert_eq!(summary.results[0].outcome, TestOutcome::Failed);
    assert_eq!(summary.results[0].duration_ms, 0);
}

#[test]
fn test_parse_empty_output() {
    let summary = summarize_events(&Vec::new(), 0);
    assert_eq!(summary.total, 0);
    assert_eq!(summary.results.len(), 0);
}

#[test]
fn test_streaming_parser() {
    let mut parser = StreamingParser::new();
    assert!(parser.process_event(&suite_started(1), 0).is_none());
    assert!(parser.process_event(&test_event("started", "c::b$t", None, None), 0).is_none());
    let result = parser.process_event(&test_event("ok", "c::b$t", Some(10), None), 0);
    assert!(result.is_some());
    assert_eq!(result.unwrap().name, "t");
    assert_eq!(parser.results().len(), 1);
    let summary = parser.into_summary();
    assert_eq!(summary.passed, 1);
    assert_eq!(summary.total, 1);
    assert_eq!(summary.exec_time_ms, 10);
}

#[test]
fn test_streaming_matches_whole_report() {
    let events = vec![
        suite_started(2),
        test_event("ok", "c::b$one", Some(3), None),
        test_event("failed", "c::b$two", Some(4), Some("boom")),
        suite_done("failed", 1, 1, 0, 7),
    ];
    let whole = summarize_events(&events, 5);
    let mut parser = StreamingParser::new();
    for e in &events {
        parser.process_event(e, 5);
    }
    let streamed = parser.into_summary();
    assert_eq!(whole.results.len(), streamed.results.len());
    for (a, b) in whole.results.iter().zip(streamed.results.iter()) {
        assert_eq!(a.name, b.name);
        assert_eq!(a.outcome, b.outcome);
        assert_eq!(a.duration_ms, b.duration_ms);
        assert_eq!(a.output, b.output);
    }
    assert_eq!(whole.total, streamed.total);
    assert_eq!(streamed.passed, 1);
    assert_eq!(streamed.failed, 1);
}

fn result(name: &str, outcome: TestOutcome) -> TestResult {
    TestResult { name: name.to_string(), outcome, duration_ms: 50, timestamp: 0, output: None }
}

#[test]
fn test_test_run_summary_helpers() {
    let summary = TestRunSummary {
        total: 3,
        passed: 2,
        failed: 1,
        ignored: 0,
        exec_time_ms: 100,
        results: vec![result("test_pass", TestOutcome::Passed), result("test_fail", TestOutcome::Failed)],
    };
    assert!(!summary.all_passed());
    assert_eq!(summary.failing_tests().len(), 1);
    assert_eq!(summary.failing_tests()[0].name, "test_fail");
    assert!(TestRunSummary::empty().all_passed());
}

fn case(name: &str, ignored: bool) -> (String, TestCase) {
    (name.to_string(), TestCase { kind: "test".to_string(), ignored })
}

fn suite(id: &str, cases: Vec<(String, TestCase)>) -> (String, TestSuite) {
    (
        id.to_string(),
        TestSuite {
            package_name: id.to_string(),
            binary_id: id.to_string(),
            binary_name: id.to_string(),
            kind: "lib".to_string(),
            testcases: cases,
        },
    )
}

#[test]
fn test_test_list_helpers() {
    let list = TestList {
        test_count: 3,
        rust_suites: vec![
            suite("suite-a", vec![case("test_1", false), case("test_2", false)]),
            suite("suite-b", vec![case("test_3", true)]),
        ],
    };
    let all_names = list.all_test_names();
    assert_eq!(all_names, vec!["suite-a::test_1", "suite-a::test_2", "suite-b::test_3"]);
    assert_eq!(list.tests_in_suite("suite-a"), vec!["test_1", "test_2"]);
    assert!(list.tests_in_suite("missing").is_empty());
    assert_eq!(list.ignored_count(), 1);
}

#[test]
fn test_ignored_count_within_names() {
    let list = TestList {
        test_count: 2,
        rust_suites: vec![suite("tests", vec![case("test_one", false), case("test_two", true)])],
    };
    assert_eq!(list.ignored_count(), 1);
    assert!(list.ignored_count() <= list.all_test_names().len());
    assert_eq!(list.tests_in_suite("tests"), vec!["test_one", "test_two"]);
}
