//! Command-line parsing scenarios.

#![allow(unused_imports)]

use hindsight::cli::config::{Command, Config, LogLevel};

#[test]
fn test_parse_test_command_with_package() {
    let config =
        Config::try_parse_from(&["hindsight-mcp", "test", "-p", "my-crate"]).expect("parse");
    match config.command {
        Some(Command::Test { package, .. }) => {
            assert_eq!(package, vec!["my-crate"]);
        }
        _ => panic!("Expected Test command"),
    }
}

#[test]
fn test_parse_test_command_with_multiple_packages() {
    let config =
        Config::try_parse_from(&["hindsight-mcp", "test", "-p", "crate-a", "-p", "crate-b"])
            .expect("parse");
    match config.command {
        Some(Command::Test { package, .. }) => {
            assert_eq!(package, vec!["crate-a", "crate-b"]);
        }
        _ => panic!("Expected Test command"),
    }
}

#[test]
fn test_parse_test_command_with_flags() {
    let config = Config::try_parse_from(&[
        "hindsight-mcp",
        "test",
        "--dry-run",
        "--show-output",
        "--stdin",
    ])
    .expect("parse");
    match config.command {
        Some(Command::Test {
            dry_run,
            show_output,
            stdin,
            ..
        }) => {
            assert!(dry_run);
            assert!(show_output);
            assert!(stdin);
        }
        _ => panic!("Expected Test command"),
    }
}

#[test]
fn test_parse_test_command_with_commit() {
    let config =
        Config::try_parse_from(&["hindsight-mcp", "test", "--commit", "abc123"]).expect("parse");
    match config.command {
        Some(Command::Test { commit, .. }) => {
            assert_eq!(commit, Some("abc123".to_string()));
        }
        _ => panic!("Expected Test command"),
    }
}

#[test]
fn test_parse_test_command_with_no_commit() {
    let config =
        Config::try_parse_from(&["hindsight-mcp", "test", "--no-commit"]).expect("parse");
    match config.command {
        Some(Command::Test { no_commit, .. }) => {
            assert!(no_commit);
        }
        _ => panic!("Expected Test command"),
    }
}

#[test]
fn test_parse_test_command_commit_conflicts_with_no_commit() {
    // --commit and --no-commit should conflict
    let result =
        Config::try_parse_from(&["hindsight-mcp", "test", "--commit", "abc123", "--no-commit"]);
    assert!(result.is_err());
}

#[test]
fn test_parse_test_command_with_filter() {
    let config = Config::try_parse_from(&["hindsight-mcp", "test", "-E", "test(/integration/)"])
        .expect("parse");
    match config.command {
        Some(Command::Test { filter, .. }) => {
            assert_eq!(filter, Some("test(/integration/)".to_string()));
        }
        _ => panic!("Expected Test command"),
    }
}

#[test]
fn test_parse_test_command_with_passthrough_args() {
    let config = Config::try_parse_from(&[
        "hindsight-mcp",
        "test",
        "-p",
        "my-crate",
        "--",
        "--retries",
        "3",
        "--no-fail-fast",
    ])
    .expect("parse");
    match config.command {
        Some(Command::Test {
            package,
            nextest_args,
            ..
        }) => {
            assert_eq!(package, vec!["my-crate"]);
            assert_eq!(nextest_args, vec!["--retries", "3", "--no-fail-fast"]);
        }
        _ => panic!("Expected Test command"),
    }
}

#[test]
fn test_parse_test_command_with_bin() {
    let config =
        Config::try_parse_from(&["hindsight-mcp", "test", "--bin", "my-bin"]).expect("parse");
    match config.command {
        Some(Command::Test { bin, .. }) => {
            assert_eq!(bin, vec!["my-bin"]);
        }
        _ => panic!("Expected Test command"),
    }
}
