//! Command-line parsing scenarios.

#![allow(unused_imports)]

use hindsight::cli::config::{Command, Config, LogLevel};

#[test]
fn test_database_short_flag_d() {
    let config = Config::try_parse_from(&["hindsight-mcp", "-d", "/custom/path/db.sqlite"])
        .expect("parse should succeed");
    assert_eq!(
        config.database,
        Some(String::from("/custom/path/db.sqlite"))
    );
}

#[test]
fn test_database_long_flag() {
    let config =
        Config::try_parse_from(&["hindsight-mcp", "--database", "/another/path/hindsight.db"])
            .expect("parse should succeed");
    assert_eq!(
        config.database,
        Some(String::from("/another/path/hindsight.db"))
    );
}

#[test]
fn test_database_flag_missing_value_fails() {
    // --database requires a value
    let result = Config::try_parse_from(&["hindsight-mcp", "--database"]);
    assert!(result.is_err());
    let err = result.unwrap_err().message();
    assert!(
        err.contains("value") || err.contains("argument"),
        "Error should mention missing value: {}",
        err
    );
}

#[test]
fn test_database_flag_with_ingest_subcommand() {
    let config = Config::try_parse_from(&[
        "hindsight-mcp",
        "-d",
        "/custom/db.sqlite",
        "ingest",
        "--tests",
    ])
    .expect("parse should succeed");

    assert_eq!(config.database, Some(String::from("/custom/db.sqlite")));
    assert!(config.command.is_some());
}

#[test]
fn test_database_flag_with_test_subcommand() {
    let config = Config::try_parse_from(&[
        "hindsight-mcp",
        "--database",
        "/test/db.sqlite",
        "test",
        "-p",
        "my-crate",
    ])
    .expect("parse should succeed");

    assert_eq!(config.database, Some(String::from("/test/db.sqlite")));
}

#[test]
fn test_database_flag_after_subcommand_fails() {
    // Global flags should come before subcommand
    let result = Config::try_parse_from(&["hindsight-mcp", "test", "--database", "/wrong/order.db"]);

    // Either outcome is accepted here
    // But the database field should be None if it's treated as a test arg
    match result {
        Ok(config) => {
            // If it parses, the database flag wasn't recognized for the global config
            assert!(
                config.database.is_none(),
                "database should be None when flag is after subcommand"
            );
        }
        Err(_) => {
            // Also acceptable: the argument order was rejected
        }
    }
}

#[test]
fn test_database_relative_path() {
    let config = Config::try_parse_from(&["hindsight-mcp", "-d", "./relative/path/db.sqlite"])
        .expect("parse should succeed");
    assert_eq!(
        config.database,
        Some(String::from("./relative/path/db.sqlite"))
    );
}

#[test]
fn test_database_path_with_spaces() {
    let config = Config::try_parse_from(&["hindsight-mcp", "-d", "/path with spaces/my db.sqlite"])
        .expect("parse should succeed");
    assert_eq!(
        config.database,
        Some(String::from("/path with spaces/my db.sqlite"))
    );
}

#[test]
fn test_database_home_tilde_not_expanded_by_clap() {
    // ~ is not expanded: that is the shell's work
    let config = Config::try_parse_from(&["hindsight-mcp", "-d", "~/hindsight/db.sqlite"])
        .expect("parse should succeed");
    // The tilde should be preserved literally
    assert_eq!(
        config.database,
        Some(String::from("~/hindsight/db.sqlite"))
    );
}

#[test]
fn test_database_empty_string_is_rejected() {
    // Empty string should be rejected or treated as invalid
    let result = Config::try_parse_from(&["hindsight-mcp", "-d", ""]);
    // Either parsing fails or we get an empty path
    match result {
        Ok(config) => {
            // If it parses, the path should be empty
            assert_eq!(config.database, Some(String::from("")));
            // Validation should catch this as problematic
        }
        Err(_) => {
            // Rejection is also acceptable
        }
    }
}

#[test]
fn test_database_absolute_vs_relative_preservation() {
    // Absolute path
    let config1 = Config::try_parse_from(&["hindsight-mcp", "-d", "/absolute/path.db"]).unwrap();
    assert!(std::path::Path::new(config1.database.as_ref().unwrap()).is_absolute());

    // Relative path
    let config2 = Config::try_parse_from(&["hindsight-mcp", "-d", "relative/path.db"]).unwrap();
    assert!(std::path::Path::new(config2.database.as_ref().unwrap()).is_relative());
}
