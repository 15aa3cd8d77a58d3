//! Migrations, text helpers, tools, the runner's decisions and messages.

use hindsight::cli::config::{Command, Config, LogLevel};
use hindsight::cli::grammar::CliErrorKind;
use hindsight::copilot::{session_from_requests, ChatMessage, ChatSession, MessageRole, SessionRequest};
use hindsight::lsp::{CodeContext, LspMessage, TextPosition};
use hindsight::migrations::{is_up_to_date, pending_versions, rollback_plan, version_from, Migration, CURRENT_VERSION};
use hindsight::queries::{activity_summary, check_query, days_modifier, diff_files, QueryError};
use hindsight::runner::{commit_source, ingest_report, init_action, is_blank, nextest_command_args, test_report, CommitSource, InitAction};
use hindsight::text::{decimal_text, path_join, trim};
use hindsight::tools::{build_server_details, build_tools, is_tool, tool_call_reply, tool_names, ParamDefault, ParamKind};

fn migration(version: i32, down: bool) -> Migration {
    Migration { version, name: "m", up: "CREATE TABLE t(x);", down: if down { Some("DROP TABLE t;") } else { None } }
}

#[test]
fn test_migrate_plan_and_idempotence() {
    let ms = vec![migration(1, true), migration(2, false), migration(3, true)];
    assert_eq!(pending_versions(&ms, 0), vec![1, 2, 3]);
    assert_eq!(pending_versions(&ms, 2), vec![3]);
    assert!(pending_versions(&ms, 3).is_empty());
    assert_eq!(rollback_plan(&ms, 0, 3), vec![2, 0]);
    assert_eq!(rollback_plan(&ms, 1, 2), Vec::<usize>::new());
    assert_eq!(version_from(0, Some(5)), 0);
    assert_eq!(version_from(1, Some(5)), 5);
    assert_eq!(version_from(1, None), 0);
    assert!(!is_up_to_date(Some(0)));
    assert!(is_up_to_date(Some(CURRENT_VERSION)));
    assert!(!is_up_to_date(None));
}

#[test]
fn test_text_helpers() {
    assert_eq!(decimal_text(0), "0");
    assert_eq!(decimal_text(1234567890), "1234567890");
    assert_eq!(path_join("/a", "b"), "/a/b");
    assert_eq!(path_join("/a/", "b"), "/a/b");
    assert_eq!(path_join("", "b"), "b");
    assert_eq!(path_join("/a", "/abs"), "/abs");
    assert_eq!(trim("  \t hi there \u{3000}"), "hi there");
}

#[test]
fn test_database_path_default_and_custom() {
    let config = Config::default();
    assert_eq!(config.database_path(Some("/home/me/.local/share")), "/home/me/.local/share/hindsight/hindsight.db");
    assert_eq!(config.database_path(None), "./hindsight/hindsight.db");
    let custom = Config { database: Some("/custom/path/db.sqlite".into()), ..Default::default() };
    assert_eq!(custom.database_path(Some("/ignored")), "/custom/path/db.sqlite");
}

#[test]
fn test_workspace_path_and_check() {
    let config = Config::default();
    assert_eq!(config.workspace_path(Some("/cwd".into())), Some("/cwd".to_string()));
    assert_eq!(config.workspace_path(None), None);
    let custom = Config { workspace: Some("/tmp".into()), ..Default::default() };
    assert_eq!(custom.workspace_path(Some("/cwd".into())), Some("/tmp".to_string()));
    assert!(custom.check_workspace(true, true).is_ok());
    let e = custom.check_workspace(false, false).unwrap_err();
    assert_eq!(e.message(), "Workspace path not found: /tmp");
    let e = custom.check_workspace(true, false).unwrap_err();
    assert_eq!(e.message(), "Workspace path is not a directory: /tmp");
    assert!(config.check_workspace(false, false).is_ok());
}

#[test]
fn test_log_levels() {
    assert_eq!(Config::default().log_level(), LogLevel::Info);
    assert_eq!(Config { verbose: true, quiet: true, ..Default::default() }.log_level(), LogLevel::Debug);
    assert_eq!(Config { quiet: true, ..Default::default() }.log_level(), LogLevel::Warn);
}

#[test]
fn test_environment_values() {
    let c = Config::try_parse_from_env(&["hindsight-mcp"], Some("/env.db"), Some("/env-ws")).unwrap();
    assert_eq!(c.database, Some("/env.db".to_string()));
    assert_eq!(c.workspace, Some("/env-ws".to_string()));
    let c = Config::try_parse_from_env(&["hindsight-mcp", "-d", "/cli.db"], Some("/env.db"), None).unwrap();
    assert_eq!(c.database, Some("/cli.db".to_string()));
    let c = Config::try_parse_from_env(&["hindsight-mcp", "-v", "test", "-p", "crate"], Some("/env.db"), None).unwrap();
    assert_eq!(c.database, Some("/env.db".to_string()));
    assert!(matches!(c.command, Some(Command::Test { .. })));
    let e = Config::try_parse_from_env(&["hindsight-mcp"], Some(""), None).unwrap_err();
    assert_eq!(e.kind(), CliErrorKind::InvalidValue);
}

#[test]
fn test_cli_error_kinds_and_messages() {
    let e = Config::try_parse_from(&["hindsight-mcp", "-h"]).unwrap_err();
    assert_eq!(e.kind(), CliErrorKind::DisplayHelp);
    let e = Config::try_parse_from(&["hindsight-mcp", "--version"]).unwrap_err();
    assert_eq!(e.kind(), CliErrorKind::DisplayVersion);
    let e = Config::try_parse_from(&["hindsight-mcp", "--verbos"]).unwrap_err();
    assert_eq!(e.kind(), CliErrorKind::UnknownArgument);
    assert_eq!(e.message(), "unexpected argument '--verbos' found");
    let e = Config::try_parse_from(&["hindsight-mcp", "-v", "-v"]).unwrap_err();
    assert_eq!(e.message(), "the argument '--verbose' cannot be used multiple times");
    let e = Config::try_parse_from(&["hindsight-mcp", "--verbose=true"]).unwrap_err();
    assert_eq!(e.kind(), CliErrorKind::TooManyValues);
    assert_eq!(e.message(), "unexpected value 'true' for '--verbose' found; no more were expected");
    let e = Config::try_parse_from(&["hindsight-mcp", "test", "--commit", "a", "--no-commit"]).unwrap_err();
    assert_eq!(e.message(), "the argument '--commit <COMMIT>' cannot be used with '--no-commit'");
    let e = Config::try_parse_from(&["hindsight-mcp", "test", "--no-commit", "--commit", "a"]).unwrap_err();
    assert_eq!(e.message(), "the argument '--no-commit' cannot be used with '--commit <COMMIT>'");
    let e = Config::try_parse_from(&["hindsight-mcp", "frobnicate"]).unwrap_err();
    assert_eq!(e.kind(), CliErrorKind::InvalidSubcommand);
    assert_eq!(e.message(), "unrecognized subcommand 'frobnicate'");
    let e = Config::try_parse_from(&["hindsight-mcp", "-d"]).unwrap_err();
    assert_eq!(e.message(), "a value is required for '--database <DATABASE>' but none was supplied");
    let e = Config::try_parse_from(&["hindsight-mcp", "help", "test"]).unwrap_err();
    assert_eq!(e.kind(), CliErrorKind::DisplayHelp);
    let e = Config::try_parse_from(&["hindsight-mcp", "help", "nope"]).unwrap_err();
    assert_eq!(e.kind(), CliErrorKind::InvalidSubcommand);
    let e = Config::try_parse_from(&["hindsight-mcp", "ingest", "extra"]).unwrap_err();
    assert_eq!(e.kind(), CliErrorKind::UnknownArgument);
}

#[test]
fn test_cli_short_clusters_and_values() {
    let c = Config::try_parse_from(&["hindsight-mcp", "-vd/tmp/x.db"]).unwrap();
    assert!(c.verbose);
    assert_eq!(c.database, Some("/tmp/x.db".to_string()));
    let c = Config::try_parse_from(&["hindsight-mcp", "-d", "test"]).unwrap();
    assert_eq!(c.database, Some("test".to_string()));
    assert!(c.command.is_none());
    let c = Config::try_parse_from(&["hindsight-mcp", "ingest", "--tests", "--commit=abc"]).unwrap();
    match c.command {
        Some(Command::Ingest { tests, commit }) => {
            assert!(tests);
            assert_eq!(commit, Some("abc".to_string()));
        }
        _ => panic!("expected Ingest command"),
    }
    let c = Config::try_parse_from(&["hindsight-mcp", "test", "-E", ""]).unwrap();
    assert!(matches!(c.command, Some(Command::Test { filter: Some(ref f), .. }) if f.is_empty()));
    let c = Config::try_parse_from(&["hindsight-mcp", "test", "--"]).unwrap();
    assert!(matches!(c.command, Some(Command::Test { ref nextest_args, .. }) if nextest_args.is_empty()));
    assert!(Config::try_parse_from(&[]).is_ok());
}

#[test]
fn test_tools() {
    assert_eq!(tool_names().len(), 6);
    assert!(is_tool("hindsight_search"));
    assert!(!is_tool("hindsight_nothing"));
    let reply = tool_call_reply("hindsight_timeline").unwrap();
    assert!(reply.starts_with("Tool 'hindsight_timeline' is registered"));
    assert!(tool_call_reply("other").is_none());
}

#[test]
fn test_build_tools() {
    let tools = build_tools();
    let names: Vec<&str> = tools.iter().map(|t| t.name).collect();
    assert_eq!(names, tool_names());
    for t in &tools {
        assert!(!t.params.is_empty(), "tool {} should have properties", t.name);
        for r in &t.required {
            assert!(t.params.iter().any(|p| p.name == *r));
        }
    }
    let search = &tools[1];
    assert_eq!(search.title, "Search Development History");
    assert_eq!(search.required, vec!["query"]);
    assert_eq!(search.params[1].name, "source");
    assert_eq!(search.params[1].choices, vec!["all", "commits", "messages"]);
    assert!(matches!(search.params[1].default, ParamDefault::Word("all")));
    assert!(matches!(search.params[2].default, ParamDefault::Number(20)));
    let ingest = &tools[5];
    assert_eq!(ingest.params[2].kind, ParamKind::Boolean);
    assert!(matches!(ingest.params[2].default, ParamDefault::Flag(true)));
    assert!(matches!(ingest.params[3].default, ParamDefault::Absent));
    assert!(matches!(tools[3].params[0].default, ParamDefault::Number(7)));
}

#[test]
fn test_build_server_details() {
    let info = build_server_details();
    assert_eq!(info.name, "hindsight-mcp");
    assert_eq!(info.title, "Hindsight MCP Server");
    for name in tool_names() {
        assert!(info.instructions.contains(name));
    }
}

#[test]
fn test_runner_decisions() {
    assert!(matches!(commit_source(true, Some("abc".into())), CommitSource::Disabled));
    assert!(matches!(commit_source(false, Some("abc".into())), CommitSource::Explicit(ref c) if c == "abc"));
    assert!(matches!(commit_source(false, None), CommitSource::Detect));
    let args = nextest_command_args(
        &vec!["a".into(), "b".into()],
        &vec!["bin1".into()],
        Some("test(x)"),
        &vec!["--retries".into(), "2".into()],
    );
    assert_eq!(
        args,
        vec!["nextest", "run", "--message-format", "libtest-json", "--package", "a", "--package", "b", "--bin", "bin1", "-E", "test(x)", "--retries", "2"]
    );
    assert!(is_blank(" \n\t "));
    assert!(!is_blank(" x "));
    assert_eq!(init_action(true, false), InitAction::Skip { warn: true });
    assert_eq!(init_action(false, false), InitAction::Initialize);
    assert_eq!(init_action(false, true), InitAction::UpToDate);
    assert_eq!(ingest_report(13, 1), "Ingested 13 test results in 1 test run(s)");
    let lines = test_report(true, 3, 2, 1, 0, None, "/ws");
    assert_eq!(lines[0], "Dry-run mode - no data will be written to database");
    assert_eq!(lines[4], "  Passed:  2");
    assert_eq!(lines[7], "  Commit:  (none)");
    assert_eq!(lines[9], "Workspace: /ws");
    let lines = test_report(false, 3, 2, 1, 0, Some("abc"), "/ws");
    assert_eq!(lines, vec!["Test run completed:", "  Total:   3", "  Passed:  2", "  Failed:  1", "  Ignored: 0", ""]);
}

#[test]
fn test_queries_helpers() {
    assert!(matches!(check_query(""), Err(QueryError::InvalidParameter(m)) if m == "Query cannot be empty"));
    assert!(check_query("fix").is_ok());
    assert_eq!(days_modifier(7), "-7 days");
    let a = activity_summary(7, 4, 2, 1, 0);
    assert_eq!(a.commits, 4);
    assert_eq!(a.days, 7);
}

#[test]
fn test_lsp_message_request() {
    let msg = LspMessage::request(serde_json::Value::from(42), "test/method");
    assert!(msg.is_request());
    assert!(!msg.is_response());
    assert!(!msg.is_notification());
    assert_eq!(msg.jsonrpc, "2.0");
    assert_eq!(msg.method, Some("test/method".to_string()));
}

#[test]
fn test_lsp_message_notification() {
    let msg = LspMessage::notification("window/logMessage");
    assert!(msg.is_notification());
    assert!(!msg.is_request());
    assert!(!msg.is_response());
    assert!(!msg.is_error());
    let with = msg.with_params(serde_json::Value::from("p"));
    assert!(with.params.is_some());
}

#[test]
fn test_code_context() {
    let c = CodeContext::new("file:///a.rs".into(), 3, 4)
        .with_visible_range(TextPosition { line: 0, character: 0 }, TextPosition { line: 9, character: 1 });
    assert_eq!(c.position.line, 3);
    assert_eq!(c.visible_range.unwrap().end.line, 9);
}

#[test]
fn test_chat_session() {
    let mut session = ChatSession::new("id".into(), "ws".into(), 5);
    assert!(session.is_empty());
    session.add_message(ChatMessage::user("Hello".into(), 7));
    session.add_message(ChatMessage::assistant("Hi there!".into(), 9).with_agent("@workspace".into()));
    assert_eq!(session.updated_at, 9);
    assert_eq!(session.created_at, 5);
    assert_eq!(session.message_count(), 2);
    assert_eq!(session.user_messages().len(), 1);
    assert_eq!(session.user_messages()[0].content, "Hello");
    assert_eq!(session.assistant_messages()[0].content, "Hi there!");
    assert!(session.messages[1].has_agent());
    assert_eq!(ChatMessage::user("héllo".into(), 0).content_len(), 6);
    assert_eq!(MessageRole::Assistant.display_name(), "Copilot");
    assert_eq!(MessageRole::User.display_name(), "User");
    assert_eq!(MessageRole::System.display_name(), "System");
}

#[test]
fn test_diff_files() {
    assert!(diff_files(None).is_empty());
    let json = r#"{"files_changed":3,"files":[{"path":"a.rs","status":"added"},{"status":"deleted"},{"path":"b.rs"},{"path":7}]}"#;
    assert_eq!(diff_files(Some(json)), vec!["a.rs", "b.rs"]);
    assert!(diff_files(Some("not json")).is_empty());
    assert!(diff_files(Some(r#"{"files": 3}"#)).is_empty());
    assert!(diff_files(Some(r#"["a.rs"]"#)).is_empty());
}

#[test]
fn test_session_from_requests() {
    let requests = vec![
        SessionRequest {
            message: Some("How do I fix this?".to_string()),
            response_parts: vec![Some("Try ".to_string()), None, Some("this.".to_string())],
            timestamp: Some(2_000),
        },
        SessionRequest { message: Some("Thanks".to_string()), response_parts: vec![None], timestamp: None },
        SessionRequest { message: None, response_parts: vec![Some("Done.".to_string())], timestamp: Some(3_000) },
    ];
    let s = session_from_requests("s1".to_string(), "ws".to_string(), 1_000, &requests);
    assert_eq!(s.id, "s1");
    assert_eq!(s.created_at, 1_000);
    let got: Vec<(MessageRole, &str, i64)> =
        s.messages.iter().map(|m| (m.role, m.content.as_str(), m.timestamp)).collect();
    assert_eq!(
        got,
        vec![
            (MessageRole::User, "How do I fix this?", 2_000),
            (MessageRole::Assistant, "Try this.", 2_000),
            (MessageRole::User, "Thanks", 1_000),
            (MessageRole::Assistant, "Done.", 3_000),
        ]
    );
    assert_eq!(s.updated_at, 3_000);
    let empty = session_from_requests("s2".to_string(), "ws".to_string(), 5, &vec![]);
    assert!(empty.is_empty());
    assert_eq!(empty.updated_at, 5);
}
