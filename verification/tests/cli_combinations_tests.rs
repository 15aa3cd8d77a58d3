//! Command-line parsing scenarios.

#![allow(unused_imports)]

use hindsight::cli::config::{Command, Config, LogLevel};

#[test]
fn test_short_and_long_database_equivalent() {
    let path = "/tmp/test.db";

    let short = Config::try_parse_from(&["hindsight-mcp", "-d", path]).expect("short parse");
    let long = Config::try_parse_from(&["hindsight-mcp", "--database", path]).expect("long parse");

    assert_eq!(short.database, long.database);
}

#[test]
fn test_short_and_long_workspace_equivalent() {
    let path = "/tmp";

    let short = Config::try_parse_from(&["hindsight-mcp", "-w", path]).expect("short parse");
    let long = Config::try_parse_from(&["hindsight-mcp", "--workspace", path]).expect("long parse");

    assert_eq!(short.workspace, long.workspace);
}

#[test]
fn test_short_and_long_verbose_equivalent() {
    let short = Config::try_parse_from(&["hindsight-mcp", "-v"]).expect("short parse");
    let long = Config::try_parse_from(&["hindsight-mcp", "--verbose"]).expect("long parse");

    assert_eq!(short.verbose, long.verbose);
    assert_eq!(short.log_level(), long.log_level());
}

#[test]
fn test_short_and_long_quiet_equivalent() {
    let short = Config::try_parse_from(&["hindsight-mcp", "-q"]).expect("short parse");
    let long = Config::try_parse_from(&["hindsight-mcp", "--quiet"]).expect("long parse");

    assert_eq!(short.quiet, long.quiet);
    assert_eq!(short.log_level(), long.log_level());
}

#[test]
fn test_combined_vq_flags() {
    // -vq should work
    let config = Config::try_parse_from(&["hindsight-mcp", "-vq"]).expect("parse should succeed");
    assert!(config.verbose);
    assert!(config.quiet);
}

#[test]
fn test_combined_qv_flags() {
    // -qv should also work
    let config = Config::try_parse_from(&["hindsight-mcp", "-qv"]).expect("parse should succeed");
    assert!(config.verbose);
    assert!(config.quiet);
}

#[test]
fn test_flag_order_variation_1() {
    let config =
        Config::try_parse_from(&["hindsight-mcp", "-v", "-q", "-d", "/tmp/a.db", "-w", "/tmp"])
            .expect("parse");

    assert!(config.verbose);
    assert!(config.quiet);
    assert!(config.database.is_some());
    assert!(config.workspace.is_some());
}

#[test]
fn test_flag_order_variation_2() {
    let config =
        Config::try_parse_from(&["hindsight-mcp", "-w", "/tmp", "-d", "/tmp/b.db", "-v", "-q"])
            .expect("parse");

    assert!(config.verbose);
    assert!(config.quiet);
    assert!(config.database.is_some());
    assert!(config.workspace.is_some());
}

#[test]
fn test_flag_order_variation_3() {
    let config =
        Config::try_parse_from(&["hindsight-mcp", "-d", "/tmp/c.db", "-v", "-w", "/tmp", "-q"])
            .expect("parse");

    assert!(config.verbose);
    assert!(config.quiet);
    assert!(config.database.is_some());
    assert!(config.workspace.is_some());
}

#[test]
fn test_empty_args_gives_default_like_config() {
    let config = Config::try_parse_from(&["hindsight-mcp"]).expect("parse");

    assert!(config.command.is_none());
    assert!(config.database.is_none());
    assert!(config.workspace.is_none());
    assert!(!config.verbose);
    assert!(!config.quiet);
    assert!(!config.skip_init);
}

#[test]
fn test_repeated_same_flag_conflicts() {
    // Repeated arguments conflict
    let result = Config::try_parse_from(&[
        "hindsight-mcp",
        "-d",
        "/first/db.sqlite",
        "-d",
        "/second/db.sqlite",
    ]);

    // This should fail with ArgumentConflict
    assert!(result.is_err(), "Repeated flags should conflict by default");
}

#[test]
fn test_equals_syntax_for_path_flags() {
    let config = Config::try_parse_from(&["hindsight-mcp", "-d=/path/to/db.sqlite", "-w=/tmp"])
        .expect("parse");

    assert_eq!(config.database, Some(String::from("/path/to/db.sqlite")));
    assert_eq!(config.workspace, Some(String::from("/tmp")));
}

#[test]
fn test_long_equals_syntax() {
    // Note: Boolean flags with default_value="false" don't accept =true/=false syntax
    // They are toggled by presence. Only path-based flags support = syntax.
    let config = Config::try_parse_from(&[
        "hindsight-mcp",
        "--database=/path/to/db.sqlite",
        "--workspace=/tmp",
        "--verbose",
        "--skip-init",
    ])
    .expect("parse");

    assert_eq!(config.database, Some(String::from("/path/to/db.sqlite")));
    assert_eq!(config.workspace, Some(String::from("/tmp")));
    assert!(config.verbose);
    assert!(!config.quiet); // Not set
    assert!(config.skip_init);
}

#[test]
fn test_unknown_short_flag_errors() {
    let result = Config::try_parse_from(&["hindsight-mcp", "-x"]);
    assert!(result.is_err());
}

#[test]
fn test_unknown_long_flag_errors() {
    let result = Config::try_parse_from(&["hindsight-mcp", "--unknown-flag"]);
    assert!(result.is_err());
}

#[test]
fn test_typo_in_flag_name_errors() {
    let result = Config::try_parse_from(&["hindsight-mcp", "--verbos"]); // typo
    assert!(result.is_err());
}
