//! Command-line parsing scenarios.

#![allow(unused_imports)]

use hindsight::cli::config::{Command, Config, LogLevel};

#[test]
fn test_skip_init_long_flag() {
    let config =
        Config::try_parse_from(&["hindsight-mcp", "--skip-init"]).expect("parse should succeed");
    assert!(config.skip_init);
}

#[test]
fn test_skip_init_not_set_parses_as_false() {
    let config = Config::try_parse_from(&["hindsight-mcp"]).expect("parse should succeed");
    assert!(!config.skip_init);
}

#[test]
fn test_skip_init_value_syntax_not_supported() {
    // Boolean flags take no =value
    let result = Config::try_parse_from(&["hindsight-mcp", "--skip-init=true"]);
    assert!(result.is_err(), "Boolean flags don't support =value syntax");
}

#[test]
fn test_skip_init_value_false_not_supported() {
    // Boolean flags don't support --flag=false syntax
    let result = Config::try_parse_from(&["hindsight-mcp", "--skip-init=false"]);
    assert!(result.is_err(), "Boolean flags don't support =value syntax");
}

#[test]
fn test_skip_init_has_no_short_flag() {
    // There is no -s or similar short flag for --skip-init
    // Trying to use -s should fail or be unrecognized
    let result = Config::try_parse_from(&["hindsight-mcp", "-s"]);
    // This should fail because -s is not defined
    assert!(result.is_err(), "Expected -s to fail as unrecognized");
}

#[test]
fn test_skip_init_with_ingest_subcommand() {
    let config = Config::try_parse_from(&["hindsight-mcp", "--skip-init", "ingest", "--tests"])
        .expect("parse should succeed");
    assert!(config.skip_init);
    assert!(config.command.is_some());
}

#[test]
fn test_skip_init_with_test_subcommand() {
    let config = Config::try_parse_from(&["hindsight-mcp", "--skip-init", "test", "-p", "my-crate"])
        .expect("parse should succeed");
    assert!(config.skip_init);
}

#[test]
fn test_skip_init_after_subcommand_not_recognized() {
    // Global flags should come before subcommand
    let result = Config::try_parse_from(&["hindsight-mcp", "test", "--skip-init"]);
    match result {
        Ok(config) => {
            // If it parses, skip_init shouldn't be set
            assert!(
                !config.skip_init,
                "skip_init should be false when after subcommand"
            );
        }
        Err(_) => {
            // Rejection is also acceptable
        }
    }
}

#[test]
fn test_skip_init_with_database() {
    let config =
        Config::try_parse_from(&["hindsight-mcp", "--skip-init", "-d", "/path/to/db.sqlite"])
            .expect("parse should succeed");
    assert!(config.skip_init);
    assert!(config.database.is_some());
}

#[test]
fn test_skip_init_with_workspace() {
    let config = Config::try_parse_from(&["hindsight-mcp", "--skip-init", "-w", "/tmp"])
        .expect("parse should succeed");
    assert!(config.skip_init);
    assert!(config.workspace.is_some());
}

#[test]
fn test_skip_init_with_verbose() {
    let config = Config::try_parse_from(&["hindsight-mcp", "--skip-init", "-v"])
        .expect("parse should succeed");
    assert!(config.skip_init);
    assert!(config.verbose);
}

#[test]
fn test_skip_init_with_quiet() {
    let config = Config::try_parse_from(&["hindsight-mcp", "--skip-init", "-q"])
        .expect("parse should succeed");
    assert!(config.skip_init);
    assert!(config.quiet);
}

#[test]
fn test_skip_init_with_all_global_flags() {
    let config = Config::try_parse_from(&[
        "hindsight-mcp",
        "--skip-init",
        "-v",
        "-d",
        "/tmp/db.sqlite",
        "-w",
        "/tmp",
    ])
    .expect("parse should succeed");

    assert!(config.skip_init);
    assert!(config.verbose);
    assert!(config.database.is_some());
    assert!(config.workspace.is_some());
}

#[test]
fn test_skip_init_first_among_flags() {
    let config =
        Config::try_parse_from(&["hindsight-mcp", "--skip-init", "-v", "-d", "/tmp/db.sqlite"])
            .expect("parse should succeed");
    assert!(config.skip_init);
}

#[test]
fn test_skip_init_last_among_flags() {
    let config =
        Config::try_parse_from(&["hindsight-mcp", "-v", "-d", "/tmp/db.sqlite", "--skip-init"])
            .expect("parse should succeed");
    assert!(config.skip_init);
}

#[test]
fn test_skip_init_middle_of_flags() {
    let config =
        Config::try_parse_from(&["hindsight-mcp", "-v", "--skip-init", "-d", "/tmp/db.sqlite"])
            .expect("parse should succeed");
    assert!(config.skip_init);
}

#[test]
fn test_skip_init_full_ingest_command() {
    let config = Config::try_parse_from(&[
        "hindsight-mcp",
        "-d",
        "/tmp/test.db",
        "-w",
        "/my/workspace",
        "--skip-init",
        "-v",
        "ingest",
        "--tests",
    ])
    .expect("parse should succeed");

    assert!(config.skip_init);
    assert!(config.verbose);
    assert!(!config.quiet);
    assert!(config.database.is_some());
    assert!(config.workspace.is_some());
    assert!(config.command.is_some());
}

#[test]
fn test_skip_init_full_test_command() {
    let config = Config::try_parse_from(&[
        "hindsight-mcp",
        "-d",
        "/tmp/test.db",
        "--skip-init",
        "-q",
        "test",
        "-p",
        "my-crate",
        "--dry-run",
    ])
    .expect("parse should succeed");

    assert!(config.skip_init);
    assert!(!config.verbose);
    assert!(config.quiet);
    assert!(config.database.is_some());
    assert!(config.command.is_some());
}

#[test]
fn test_skip_init_repeated_conflicts() {
    // Repeated boolean flags conflict
    let result = Config::try_parse_from(&["hindsight-mcp", "--skip-init", "--skip-init"]);
    // Either outcome is accepted here
    // For flags with default_value, repeating may work but is not typical usage
    // We test that at least it doesn't panic
    if let Ok(config) = result {
        assert!(config.skip_init);
    }
    // Err is also acceptable
}

#[test]
fn test_skip_init_value_syntax_conflicts() {
    // =true/=false syntax not supported, so this should error
    let result = Config::try_parse_from(&["hindsight-mcp", "--skip-init=true", "--skip-init=false"]);
    assert!(result.is_err());
}

#[test]
fn test_skip_init_value_syntax_conflicts_reverse() {
    // =false/=true syntax not supported either
    let result = Config::try_parse_from(&["hindsight-mcp", "--skip-init=false", "--skip-init=true"]);
    assert!(result.is_err());
}
