//! Command-line parsing scenarios.

#![allow(unused_imports)]

use hindsight::cli::config::{Command, Config, LogLevel};

#[test]
fn test_verbose_short_flag_v() {
    let config = Config::try_parse_from(&["hindsight-mcp", "-v"]).expect("parse should succeed");
    assert!(config.verbose);
    assert!(!config.quiet);
}

#[test]
fn test_verbose_long_flag() {
    let config =
        Config::try_parse_from(&["hindsight-mcp", "--verbose"]).expect("parse should succeed");
    assert!(config.verbose);
}

#[test]
fn test_verbose_flag_value_syntax_not_supported() {
    // Boolean flags with default_value="false" don't support --flag=true syntax
    // They are toggled by presence only
    let result = Config::try_parse_from(&["hindsight-mcp", "--verbose=true"]);
    assert!(result.is_err(), "Boolean flags don't support =value syntax");
}

#[test]
fn test_verbose_flag_value_false_not_supported() {
    // Boolean flags don't support --flag=false syntax
    let result = Config::try_parse_from(&["hindsight-mcp", "--verbose=false"]);
    assert!(result.is_err(), "Boolean flags don't support =value syntax");
}

#[test]
fn test_quiet_short_flag_q() {
    let config = Config::try_parse_from(&["hindsight-mcp", "-q"]).expect("parse should succeed");
    assert!(config.quiet);
    assert!(!config.verbose);
}

#[test]
fn test_quiet_long_flag() {
    let config =
        Config::try_parse_from(&["hindsight-mcp", "--quiet"]).expect("parse should succeed");
    assert!(config.quiet);
}

#[test]
fn test_quiet_flag_value_syntax_not_supported() {
    // Boolean flags don't support =value syntax
    let result = Config::try_parse_from(&["hindsight-mcp", "--quiet=true"]);
    assert!(result.is_err(), "Boolean flags don't support =value syntax");
}

#[test]
fn test_quiet_flag_value_false_not_supported() {
    // Boolean flags don't support --flag=false syntax
    let result = Config::try_parse_from(&["hindsight-mcp", "--quiet=false"]);
    assert!(result.is_err(), "Boolean flags don't support =value syntax");
}

#[test]
fn test_no_flags_means_info_level() {
    let config = Config::try_parse_from(&["hindsight-mcp"]).expect("parse should succeed");
    assert!(!config.verbose);
    assert!(!config.quiet);
    assert_eq!(config.log_level(), LogLevel::Info);
}

#[test]
fn test_verbose_and_quiet_flags_both_parse() {
    // Both flags may be set
    let config =
        Config::try_parse_from(&["hindsight-mcp", "-v", "-q"]).expect("parse should succeed");
    assert!(config.verbose);
    assert!(config.quiet);
    // Verbose wins
    assert_eq!(config.log_level(), LogLevel::Debug);
}

#[test]
fn test_quiet_then_verbose_verbose_wins() {
    let config =
        Config::try_parse_from(&["hindsight-mcp", "-q", "-v"]).expect("parse should succeed");
    assert!(config.verbose);
    assert!(config.quiet);
    assert_eq!(config.log_level(), LogLevel::Debug);
}

#[test]
fn test_verbose_with_ingest_subcommand() {
    let config = Config::try_parse_from(&["hindsight-mcp", "-v", "ingest", "--tests"])
        .expect("parse should succeed");
    assert!(config.verbose);
    assert!(config.command.is_some());
}

#[test]
fn test_quiet_with_ingest_subcommand() {
    let config = Config::try_parse_from(&["hindsight-mcp", "-q", "ingest", "--tests"])
        .expect("parse should succeed");
    assert!(config.quiet);
}

#[test]
fn test_verbose_with_test_subcommand() {
    let config = Config::try_parse_from(&["hindsight-mcp", "--verbose", "test", "-p", "my-crate"])
        .expect("parse should succeed");
    assert!(config.verbose);
}

#[test]
fn test_quiet_with_test_subcommand() {
    let config = Config::try_parse_from(&["hindsight-mcp", "--quiet", "test", "-p", "my-crate"])
        .expect("parse should succeed");
    assert!(config.quiet);
}

#[test]
fn test_verbose_after_subcommand_not_global() {
    // Verbose after subcommand should not be recognized as global flag
    let result = Config::try_parse_from(&["hindsight-mcp", "test", "--verbose"]);
    match result {
        Ok(config) => {
            assert!(
                !config.verbose,
                "verbose should be false when after subcommand"
            );
        }
        Err(_) => {
            // Rejection is also acceptable
        }
    }
}

#[test]
fn test_verbose_with_database_and_workspace() {
    let config =
        Config::try_parse_from(&["hindsight-mcp", "-v", "-d", "/tmp/db.sqlite", "-w", "/tmp"])
            .expect("parse should succeed");

    assert!(config.verbose);
    assert!(config.database.is_some());
    assert!(config.workspace.is_some());
}

#[test]
fn test_quiet_with_database_and_workspace() {
    let config =
        Config::try_parse_from(&["hindsight-mcp", "-q", "-d", "/tmp/db.sqlite", "-w", "/tmp"])
            .expect("parse should succeed");

    assert!(config.quiet);
    assert!(config.database.is_some());
    assert!(config.workspace.is_some());
}

#[test]
fn test_all_flags_combined() {
    let config = Config::try_parse_from(&[
        "hindsight-mcp",
        "-v",
        "-d",
        "/tmp/db.sqlite",
        "-w",
        "/tmp",
        "--skip-init",
    ])
    .expect("parse should succeed");

    assert!(config.verbose);
    assert!(config.database.is_some());
    assert!(config.workspace.is_some());
    assert!(config.skip_init);
}

#[test]
fn test_multiple_verbose_flags_conflicts() {
    // Repeated flags conflict
    let result = Config::try_parse_from(&["hindsight-mcp", "-v", "-v", "-v"]);
    assert!(result.is_err(), "Repeated flags should conflict");
}

#[test]
fn test_multiple_quiet_flags_conflicts() {
    // Repeated flags conflict
    let result = Config::try_parse_from(&["hindsight-mcp", "-q", "-q", "-q"]);
    assert!(result.is_err(), "Repeated flags should conflict");
}

#[test]
fn test_verbose_quiet_both_set_once() {
    // -v -q should work (different flags)
    let config =
        Config::try_parse_from(&["hindsight-mcp", "-v", "-q"]).expect("parse should succeed");
    assert!(config.verbose);
    assert!(config.quiet);
}
