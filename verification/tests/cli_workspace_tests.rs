//! Command-line parsing scenarios.

#![allow(unused_imports)]

use hindsight::cli::config::{Command, Config, LogLevel};

#[test]
fn test_workspace_flag_missing_value_fails() {
    let result = Config::try_parse_from(&["hindsight-mcp", "--workspace"]);
    assert!(result.is_err());
    let err = result.unwrap_err().message();
    assert!(
        err.contains("value") || err.contains("argument"),
        "Error should mention missing value: {}",
        err
    );
}

#[test]
fn test_workspace_relative_path() {
    let config = Config::try_parse_from(&["hindsight-mcp", "-w", "./relative/workspace"])
        .expect("parse should succeed");
    assert_eq!(
        config.workspace,
        Some(String::from("./relative/workspace"))
    );
    // Note: relative path won't pass validation unless it exists
}
