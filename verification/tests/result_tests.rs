//! Test outcomes and results.

use hindsight::testing::result::{TestOutcome, TestResult};

fn sample_result() -> TestResult {
    TestResult {
        name: "hindsight_git::commit::tests::test_is_valid_sha".to_string(),
        outcome: TestOutcome::Passed,
        duration_ms: 42,
        timestamp: 1_768_617_186_000,
        output: None,
    }
}

#[test]
fn test_outcome_is_success() {
    assert!(TestOutcome::Passed.is_success());
    assert!(TestOutcome::Ignored.is_success());
    assert!(!TestOutcome::Failed.is_success());
    assert!(!TestOutcome::TimedOut.is_success());
}

#[test]
fn test_outcome_symbol() {
    assert_eq!(TestOutcome::Passed.symbol(), "✅");
    assert_eq!(TestOutcome::Failed.symbol(), "❌");
    assert_eq!(TestOutcome::Ignored.symbol(), "⏭️");
    assert_eq!(TestOutcome::TimedOut.symbol(), "⏰");
}

#[test]
fn test_passed_returns_true_for_passed() {
    let result = sample_result();
    assert!(result.passed());
    assert!(!result.failed());
}

#[test]
fn test_failed_returns_true_for_failed() {
    let mut result = sample_result();
    result.outcome = TestOutcome::Failed;
    assert!(result.failed());
    assert!(!result.passed());
}

#[test]
fn test_module_path() {
    let result = sample_result();
    assert_eq!(result.test_module_path(), Some("hindsight_git::commit::tests"));
}

#[test]
fn test_test_fn_name() {
    let result = sample_result();
    assert_eq!(result.test_fn_name(), "test_is_valid_sha");
}

#[test]
fn test_test_fn_name_no_module() {
    let mut result = sample_result();
    result.name = "simple_test".to_string();
    assert_eq!(result.test_fn_name(), "simple_test");
}
