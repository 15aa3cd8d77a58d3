//! The program's configuration and how it is read from the command line.

use vstd::prelude::*;

use crate::cli::grammar::{CommandModel, ConfigModel, parse_tokens};
use crate::cli::parser::{CliError, opt_str, parse_arguments};
use crate::text::{path_join, path_join_spec};

verus! {

/// The subcommand to run; without one the program serves requests.
#[derive(Debug)]
pub enum Command {
    /// Ingest data from various sources; test results come from stdin.
    Ingest {
        /// Ingest test results from stdin (nextest JSON format).
        tests: bool,
        /// Git commit SHA to associate with test results.
        commit: Option<String>,
    },
    /// Run tests and ingest results in one command.
    Test {
        /// Package(s) to test.
        package: Vec<String>,
        /// Test binary(ies) to run.
        bin: Vec<String>,
        /// Run only tests matching this filter expression.
        filter: Option<String>,
        /// Read nextest JSON from stdin instead of running tests.
        stdin: bool,
        /// Parse but do not write to the database.
        dry_run: bool,
        /// Do not link the run to the current git commit.
        no_commit: bool,
        /// Explicit commit SHA to associate with the run.
        commit: Option<String>,
        /// Show test output in the terminal.
        show_output: bool,
        /// Arguments after `--`, passed on to nextest.
        nextest_args: Vec<String>,
    },
}

impl Command {
    pub open spec fn model(&self) -> CommandModel {
        match self {
            Command::Ingest { tests, commit } => CommandModel::Ingest { tests: *tests, commit: opt_str(*commit) },
            Command::Test {
                package,
                bin,
                filter,
                stdin,
                dry_run,
                no_commit,
                commit,
                show_output,
                nextest_args,
            } => CommandModel::Test {
                package: package.deep_view(),
                bin: bin.deep_view(),
                filter: opt_str(*filter),
                stdin: *stdin,
                dry_run: *dry_run,
                no_commit: *no_commit,
                commit: opt_str(*commit),
                show_output: *show_output,
                nextest_args: nextest_args.deep_view(),
            },
        }
    }
}

/// The server's configuration.
#[derive(Debug)]
pub struct Config {
    /// Subcommand to run (defaults to server mode).
    pub command: Option<Command>,
    /// Path to the SQLite database file.
    pub database: Option<String>,
    /// Default workspace path for queries.
    pub workspace: Option<String>,
    /// Enable verbose logging (debug level).
    pub verbose: bool,
    /// Quiet mode: only warnings and errors.
    pub quiet: bool,
    /// Skip the database initialization check.
    pub skip_init: bool,
}

impl Config {
    pub open spec fn model(&self) -> ConfigModel {
        ConfigModel {
            command: match self.command {
                Some(c) => Some(c.model()),
                None => None,
            },
            database: opt_str(self.database),
            workspace: opt_str(self.workspace),
            verbose: self.verbose,
            quiet: self.quiet,
            skip_init: self.skip_init,
        }
    }
}

/// The outcome of a parse, as a model.
pub open spec fn parse_result_model(r: Result<Config, CliError>) -> Result<ConfigModel, crate::cli::grammar::CliErrorModel> {
    match r {
        Ok(c) => Ok(c.model()),
        Err(e) => Err(e.model()),
    }
}

/// The tokens of a command line after the program's name.
pub open spec fn arg_tokens(args: Seq<&str>) -> Seq<Seq<char>> {
    if args.len() == 0 {
        Seq::empty()
    } else {
        args.drop_first().map_values(|s: &str| s@)
    }
}

pub open spec fn opt_text(o: Option<&str>) -> Option<Seq<char>> {
    match o {
        Some(s) => Some(s@),
        None => None,
    }
}

impl Config {
    /// Read the configuration from a command line whose first element is the
    /// program's name, taking the database and workspace from the given
    /// environment values where the command line leaves them out.
    pub fn try_parse_from_env(args: &[&str], env_database: Option<&str>, env_workspace: Option<&str>) -> (r: Result<Config, CliError>)
        ensures
            parse_result_model(r) == parse_tokens(arg_tokens(args@), opt_text(env_database), opt_text(env_workspace)),
    {
        parse_arguments(args, env_database, env_workspace)
    }

    /// Read the configuration from a command line whose first element is the
    /// program's name, with no environment values.
    pub fn try_parse_from(args: &[&str]) -> (r: Result<Config, CliError>)
        ensures
            parse_result_model(r) == parse_tokens(arg_tokens(args@), None, None),
    {
        parse_arguments(args, None, None)
    }
}

/// How much the server logs.
#[derive(Clone, Copy, PartialEq, Eq, Structural, Debug)]
pub enum LogLevel {
    /// Detailed request and response information.
    Debug,
    /// The default.
    Info,
    /// Only warnings and errors.
    Warn,
}

/// The configuration with nothing given.
pub open spec fn default_model() -> ConfigModel {
    ConfigModel { command: None, database: None, workspace: None, verbose: false, quiet: false, skip_init: false }
}

impl Default for Config {
    fn default() -> (c: Config)
        ensures
            c.model() == default_model(),
    {
        Config { command: None, database: None, workspace: None, verbose: false, quiet: false, skip_init: false }
    }
}

/// The database location used when none is given: `hindsight/hindsight.db`
/// under the platform's local data directory, or under `.` without one.
pub open spec fn default_database_path(data_dir: Option<Seq<char>>) -> Seq<char> {
    let base = match data_dir {
        Some(d) => d,
        None => "."@,
    };
    path_join_spec(path_join_spec(base, "hindsight"@), "hindsight.db"@)
}

/// Configuration errors.
#[derive(Debug)]
pub enum ConfigError {
    /// Workspace path not found.
    WorkspaceNotFound(String),
    /// Workspace path is not a directory.
    WorkspaceNotDirectory(String),
    /// Failed to create the database directory: the directory and the cause.
    DatabaseDirectoryCreateFailed(String, String),
    /// Database initialization failed.
    DatabaseInitFailed(String),
}

impl ConfigError {
    /// The error as a sentence.
    pub fn message(&self) -> (s: String)
        ensures
            s@ == match self {
                ConfigError::WorkspaceNotFound(p) => "Workspace path not found: "@ + p@,
                ConfigError::WorkspaceNotDirectory(p) => "Workspace path is not a directory: "@ + p@,
                ConfigError::DatabaseDirectoryCreateFailed(p, e) => "Failed to create database directory "@
                    + p@ + ": "@ + e@,
                ConfigError::DatabaseInitFailed(m) => "Database initialization failed: "@ + m@,
            },
    {
        match self {
            ConfigError::WorkspaceNotFound(p) => {
                let mut s = String::from_str("Workspace path not found: ");
                s.append(p.as_str());
                s
            },
            ConfigError::WorkspaceNotDirectory(p) => {
                let mut s = String::from_str("Workspace path is not a directory: ");
                s.append(p.as_str());
                s
            },
            ConfigError::DatabaseDirectoryCreateFailed(p, e) => {
                let mut s = String::from_str("Failed to create database directory ");
                s.append(p.as_str());
                s.append(": ");
                s.append(e.as_str());
                s
            },
            ConfigError::DatabaseInitFailed(m) => {
                let mut s = String::from_str("Database initialization failed: ");
                s.append(m.as_str());
                s
            },
        }
    }
}

impl Config {
    /// The log level: debug when verbose (even if quiet is set too), warn
    /// when only quiet, info otherwise.
    pub fn log_level(&self) -> (l: LogLevel)
        ensures
            l == (if self.verbose {
                LogLevel::Debug
            } else if self.quiet {
                LogLevel::Warn
            } else {
                LogLevel::Info
            }),
    {
        if self.verbose {
            LogLevel::Debug
        } else if self.quiet {
            LogLevel::Warn
        } else {
            LogLevel::Info
        }
    }

    /// The database path: the one given, else the default under the local
    /// data directory `data_dir` (or `.` where there is none).
    pub fn database_path(&self, data_dir: Option<&str>) -> (p: String)
        ensures
            p@ == match self.database {
                Some(d) => d@,
                None => default_database_path(opt_text(data_dir)),
            },
    {
        match &self.database {
            Some(d) => d.clone(),
            None => {
                let base = match data_dir {
                    Some(d) => String::from_str(d),
                    None => String::from_str("."),
                };
                let dir = path_join(base.as_str(), "hindsight");
                path_join(dir.as_str(), "hindsight.db")
            },
        }
    }

    /// The workspace path: the one given, else the current directory when
    /// it is known.
    pub fn workspace_path(&self, current_dir: Option<String>) -> (p: Option<String>)
        ensures
            opt_str(p) == match self.workspace {
                Some(w) => Some(w@),
                None => opt_str(current_dir),
            },
    {
        match &self.workspace {
            Some(w) => Some(w.clone()),
            None => current_dir,
        }
    }

    /// Check the workspace, given whether its path exists and is a
    /// directory: a given workspace must exist and be a directory.
    pub fn check_workspace(&self, exists: bool, is_dir: bool) -> (r: Result<(), ConfigError>)
        ensures
            match self.workspace {
                None => r is Ok,
                Some(w) => if !exists {
                    r matches Err(ConfigError::WorkspaceNotFound(p)) && p@ == w@
                } else if !is_dir {
                    r matches Err(ConfigError::WorkspaceNotDirectory(p)) && p@ == w@
                } else {
                    r is Ok
                },
            },
    {
        match &self.workspace {
            None => Ok(()),
            Some(w) => if !exists {
                Err(ConfigError::WorkspaceNotFound(w.clone()))
            } else if !is_dir {
                Err(ConfigError::WorkspaceNotDirectory(w.clone()))
            } else {
                Ok(())
            },
        }
    }
}

} // verus!
