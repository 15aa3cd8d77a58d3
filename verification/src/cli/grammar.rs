//! The command-line grammar as a mathematical state machine.
//!
//! Each token of the command line moves a [`ParseModel`] by [`step`]; when the
//! tokens run out, [`finish`] turns the final state into a configuration or an
//! error. The executable parser in `parser.rs` is proved to follow exactly
//! these definitions.

use vstd::prelude::*;

verus! {

/// Every option that the program or one of its subcommands accepts.
#[derive(Clone, Copy, PartialEq, Eq, Structural, Debug)]
pub enum ArgId {
    Database,
    Workspace,
    Verbose,
    Quiet,
    SkipInit,
    Help,
    Version,
    Package,
    Bin,
    Filter,
    Stdin,
    DryRun,
    NoCommit,
    Commit,
    ShowOutput,
    Tests,
}

/// How an option consumes the command line.
#[derive(Clone, Copy, PartialEq, Eq, Structural, Debug)]
pub enum ArgKind {
    /// Present or absent; takes no value.
    Flag,
    /// Takes one value and may be given once.
    Single,
    /// Takes one non-empty path and may be given once.
    PathValue,
    /// Takes one value per occurrence and collects them in order.
    Multi,
    /// Asks for the help text.
    Help,
    /// Asks for the version text.
    Version,
}

/// Which part of the command line is being read.
#[derive(Clone, Copy, PartialEq, Eq, Structural, Debug)]
pub enum Mode {
    /// The global options, before any subcommand.
    Root,
    /// The options of the `test` subcommand.
    Test,
    /// The options of the `ingest` subcommand.
    Ingest,
    /// The topics after the `help` subcommand.
    HelpTopic,
}

/// The kinds of command-line error.
#[derive(Clone, Copy, PartialEq, Eq, Structural, Debug)]
pub enum CliErrorKind {
    /// An option that needs a value got none, or an empty path.
    InvalidValue,
    /// An option was given twice, or together with one it excludes.
    ArgumentConflict,
    /// A flag was given a value with `=`.
    TooManyValues,
    /// A token names no option of the current command.
    UnknownArgument,
    /// A token in subcommand position names no subcommand.
    InvalidSubcommand,
    /// Help was asked for.
    DisplayHelp,
    /// The version was asked for.
    DisplayVersion,
}

/// A command-line error as a value: its kind, the option or token it is
/// about, and a second text (the conflicting option or the unexpected value).
pub struct CliErrorModel {
    pub kind: CliErrorKind,
    pub subject: Seq<char>,
    pub detail: Seq<char>,
}

/// The state of one command while its options are read.
pub struct CmdModel {
    /// One entry per option: `None` when absent, else the values given
    /// (empty for a flag).
    pub slots: Seq<Option<Seq<Seq<char>>>>,
    /// The options that take part in a conflict, in the order they were set.
    pub order: Seq<ArgId>,
    /// An option whose value is still awaited (`None`) or not yet stored.
    pub pending: Option<(ArgId, Option<Seq<char>>)>,
    /// Whether `--` has been read.
    pub trailing: bool,
    /// The tokens after `--` that the command keeps.
    pub positional: Seq<Seq<char>>,
}

/// The whole parse: the current mode, the global options, the subcommand's
/// options, the help topics, and the first error met.
pub struct ParseModel {
    pub mode: Mode,
    pub root: CmdModel,
    pub sub: CmdModel,
    pub topics: Seq<Seq<char>>,
    pub error: Option<CliErrorModel>,
}

/// The subcommand that was chosen, with its options.
pub enum CommandModel {
    Ingest { tests: bool, commit: Option<Seq<char>> },
    Test {
        package: Seq<Seq<char>>,
        bin: Seq<Seq<char>>,
        filter: Option<Seq<char>>,
        stdin: bool,
        dry_run: bool,
        no_commit: bool,
        commit: Option<Seq<char>>,
        show_output: bool,
        nextest_args: Seq<Seq<char>>,
    },
}

/// A parsed configuration.
pub struct ConfigModel {
    pub command: Option<CommandModel>,
    pub database: Option<Seq<char>>,
    pub workspace: Option<Seq<char>>,
    pub verbose: bool,
    pub quiet: bool,
    pub skip_init: bool,
}

/// The number of option slots.
pub const SLOT_COUNT: usize = 16;

pub open spec fn slot_of(id: ArgId) -> int {
    match id {
        ArgId::Database => 0,
        ArgId::Workspace => 1,
        ArgId::Verbose => 2,
        ArgId::Quiet => 3,
        ArgId::SkipInit => 4,
        ArgId::Help => 5,
        ArgId::Version => 6,
        ArgId::Package => 7,
        ArgId::Bin => 8,
        ArgId::Filter => 9,
        ArgId::Stdin => 10,
        ArgId::DryRun => 11,
        ArgId::NoCommit => 12,
        ArgId::Commit => 13,
        ArgId::ShowOutput => 14,
        ArgId::Tests => 15,
    }
}

pub open spec fn kind_of(id: ArgId) -> ArgKind {
    match id {
        ArgId::Database => ArgKind::PathValue,
        ArgId::Workspace => ArgKind::PathValue,
        ArgId::Help => ArgKind::Help,
        ArgId::Version => ArgKind::Version,
        ArgId::Package => ArgKind::Multi,
        ArgId::Bin => ArgKind::Multi,
        ArgId::Filter => ArgKind::Single,
        ArgId::Commit => ArgKind::Single,
        _ => ArgKind::Flag,
    }
}

pub open spec fn takes_value(id: ArgId) -> bool {
    match kind_of(id) {
        ArgKind::Single | ArgKind::PathValue | ArgKind::Multi => true,
        _ => false,
    }
}

/// Options whose order of appearance decides a conflict message.
pub open spec fn ordered(id: ArgId) -> bool {
    id == ArgId::Commit || id == ArgId::NoCommit
}

/// How an option is named in error messages.
pub open spec fn display_of(id: ArgId) -> Seq<char> {
    match id {
        ArgId::Database => "--database <DATABASE>"@,
        ArgId::Workspace => "--workspace <WORKSPACE>"@,
        ArgId::Verbose => "--verbose"@,
        ArgId::Quiet => "--quiet"@,
        ArgId::SkipInit => "--skip-init"@,
        ArgId::Help => "--help"@,
        ArgId::Version => "--version"@,
        ArgId::Package => "--package <PACKAGE>"@,
        ArgId::Bin => "--bin <BIN>"@,
        ArgId::Filter => "--filter <FILTER>"@,
        ArgId::Stdin => "--stdin"@,
        ArgId::DryRun => "--dry-run"@,
        ArgId::NoCommit => "--no-commit"@,
        ArgId::Commit => "--commit <COMMIT>"@,
        ArgId::ShowOutput => "--show-output"@,
        ArgId::Tests => "--tests"@,
    }
}

/// The option that a long name denotes in a mode.
pub open spec fn long_arg(mode: Mode, name: Seq<char>) -> Option<ArgId> {
    match mode {
        Mode::Root => if name == "database"@ {
            Some(ArgId::Database)
        } else if name == "workspace"@ {
            Some(ArgId::Workspace)
        } else if name == "verbose"@ {
            Some(ArgId::Verbose)
        } else if name == "quiet"@ {
            Some(ArgId::Quiet)
        } else if name == "skip-init"@ {
            Some(ArgId::SkipInit)
        } else if name == "help"@ {
            Some(ArgId::Help)
        } else if name == "version"@ {
            Some(ArgId::Version)
        } else {
            None
        },
        Mode::Test => if name == "package"@ {
            Some(ArgId::Package)
        } else if name == "bin"@ {
            Some(ArgId::Bin)
        } else if name == "filter"@ {
            Some(ArgId::Filter)
        } else if name == "stdin"@ {
            Some(ArgId::Stdin)
        } else if name == "dry-run"@ {
            Some(ArgId::DryRun)
        } else if name == "no-commit"@ {
            Some(ArgId::NoCommit)
        } else if name == "commit"@ {
            Some(ArgId::Commit)
        } else if name == "show-output"@ {
            Some(ArgId::ShowOutput)
        } else if name == "help"@ {
            Some(ArgId::Help)
        } else {
            None
        },
        Mode::Ingest => if name == "tests"@ {
            Some(ArgId::Tests)
        } else if name == "commit"@ {
            Some(ArgId::Commit)
        } else if name == "help"@ {
            Some(ArgId::Help)
        } else {
            None
        },
        Mode::HelpTopic => None,
    }
}

/// The option that a short letter denotes in a mode.
pub open spec fn short_arg(mode: Mode, c: char) -> Option<ArgId> {
    match mode {
        Mode::Root => if c == 'd' {
            Some(ArgId::Database)
        } else if c == 'w' {
            Some(ArgId::Workspace)
        } else if c == 'v' {
            Some(ArgId::Verbose)
        } else if c == 'q' {
            Some(ArgId::Quiet)
        } else if c == 'h' {
            Some(ArgId::Help)
        } else if c == 'V' {
            Some(ArgId::Version)
        } else {
            None
        },
        Mode::Test => if c == 'p' {
            Some(ArgId::Package)
        } else if c == 'E' {
            Some(ArgId::Filter)
        } else if c == 'h' {
            Some(ArgId::Help)
        } else {
            None
        },
        Mode::Ingest => if c == 'h' {
            Some(ArgId::Help)
        } else {
            None
        },
        Mode::HelpTopic => None,
    }
}

/// Whether a token names a subcommand of the program.
pub open spec fn is_subcommand_name(t: Seq<char>) -> bool {
    t == "test"@ || t == "ingest"@ || t == "help"@
}

// ---------------------------------------------------------------------------
// Errors
// ---------------------------------------------------------------------------

pub open spec fn err_missing_value(id: ArgId) -> CliErrorModel {
    CliErrorModel { kind: CliErrorKind::InvalidValue, subject: display_of(id), detail: Seq::empty() }
}

pub open spec fn err_conflict(a: ArgId, b: ArgId) -> CliErrorModel {
    CliErrorModel { kind: CliErrorKind::ArgumentConflict, subject: display_of(a), detail: display_of(b) }
}

pub open spec fn err_too_many(id: ArgId, v: Seq<char>) -> CliErrorModel {
    CliErrorModel { kind: CliErrorKind::TooManyValues, subject: display_of(id), detail: v }
}

pub open spec fn err_unknown(t: Seq<char>) -> CliErrorModel {
    CliErrorModel { kind: CliErrorKind::UnknownArgument, subject: t, detail: Seq::empty() }
}

pub open spec fn err_subcommand(t: Seq<char>) -> CliErrorModel {
    CliErrorModel { kind: CliErrorKind::InvalidSubcommand, subject: t, detail: Seq::empty() }
}

pub open spec fn err_plain(kind: CliErrorKind) -> CliErrorModel {
    CliErrorModel { kind, subject: Seq::empty(), detail: Seq::empty() }
}

// ---------------------------------------------------------------------------
// One command's options
// ---------------------------------------------------------------------------

pub open spec fn empty_cmd() -> CmdModel {
    CmdModel {
        slots: Seq::new(SLOT_COUNT as nat, |i: int| None),
        order: Seq::empty(),
        pending: None,
        trailing: false,
        positional: Seq::empty(),
    }
}

pub open spec fn cmd_wf(c: CmdModel) -> bool {
    c.slots.len() == SLOT_COUNT
}

pub open spec fn present(c: CmdModel, id: ArgId) -> bool {
    c.slots[slot_of(id)] is Some
}

pub open spec fn note(order: Seq<ArgId>, id: ArgId) -> Seq<ArgId> {
    if ordered(id) {
        order.push(id)
    } else {
        order
    }
}

/// Store a value for an option.
pub open spec fn set_value(c: CmdModel, id: ArgId, v: Seq<char>) -> Result<CmdModel, CliErrorModel> {
    let i = slot_of(id);
    if kind_of(id) == ArgKind::Multi {
        let prev = match c.slots[i] {
            Some(vs) => vs,
            None => Seq::empty(),
        };
        Ok(CmdModel { slots: c.slots.update(i, Some(prev.push(v))), ..c })
    } else if c.slots[i] is Some {
        Err(err_conflict(id, id))
    } else if kind_of(id) == ArgKind::PathValue && v.len() == 0 {
        Err(err_missing_value(id))
    } else {
        Ok(CmdModel { slots: c.slots.update(i, Some(seq![v])), order: note(c.order, id), ..c })
    }
}

/// Mark a flag as present.
pub open spec fn set_flag(c: CmdModel, id: ArgId) -> Result<CmdModel, CliErrorModel> {
    let i = slot_of(id);
    if c.slots[i] is Some {
        Err(err_conflict(id, id))
    } else {
        Ok(CmdModel { slots: c.slots.update(i, Some(Seq::empty())), order: note(c.order, id), ..c })
    }
}

/// Settle the pending option, if any.
pub open spec fn resolve(c: CmdModel) -> Result<CmdModel, CliErrorModel> {
    match c.pending {
        None => Ok(c),
        Some((id, None)) => Err(err_missing_value(id)),
        Some((id, Some(v))) => set_value(CmdModel { pending: None, ..c }, id, v),
    }
}

/// Act on a recognised option, with the value attached to it if any.
pub open spec fn react(c: CmdModel, id: ArgId, attached: Option<Seq<char>>) -> Result<CmdModel, CliErrorModel> {
    match resolve(c) {
        Err(e) => Err(e),
        Ok(c1) => match kind_of(id) {
            ArgKind::Flag => set_flag(c1, id),
            ArgKind::Help => Err(err_plain(CliErrorKind::DisplayHelp)),
            ArgKind::Version => Err(err_plain(CliErrorKind::DisplayVersion)),
            _ => match attached {
                Some(v) => set_value(c1, id, v),
                None => Ok(CmdModel { pending: Some((id, None)), ..c1 }),
            },
        },
    }
}

/// The index of the first `c` in `s` at or after `i`, or the length of `s`.
pub open spec fn find_char(s: Seq<char>, c: char, i: int) -> int
    decreases s.len() - i,
{
    if i < 0 || i >= s.len() {
        s.len() as int
    } else if s[i] == c {
        i
    } else {
        find_char(s, c, i + 1)
    }
}

/// A long option `--name` or `--name=value`, given without its dashes.
pub open spec fn long_step(mode: Mode, c: CmdModel, body: Seq<char>) -> Result<CmdModel, CliErrorModel> {
    let k = find_char(body, '=', 0);
    let name = body.subrange(0, k);
    let attached = if k < body.len() {
        Some(body.subrange(k + 1, body.len() as int))
    } else {
        None
    };
    match long_arg(mode, name) {
        None => Err(err_unknown(seq!['-', '-'] + name)),
        Some(id) => if takes_value(id) {
            react(c, id, attached)
        } else {
            match attached {
                Some(v) => Err(err_too_many(id, v)),
                None => react(c, id, None),
            }
        },
    }
}

/// A cluster of short options `-abc`, given without its dash, read from `i`.
pub open spec fn short_step(mode: Mode, c: CmdModel, chars: Seq<char>, i: int) -> Result<CmdModel, CliErrorModel>
    decreases chars.len() - i,
{
    if i < 0 || i >= chars.len() {
        Ok(c)
    } else {
        match short_arg(mode, chars[i]) {
            None => Err(err_unknown(seq!['-', chars[i]])),
            Some(id) => if takes_value(id) {
                let rest = chars.subrange(i + 1, chars.len() as int);
                if rest.len() == 0 {
                    react(c, id, None)
                } else if rest[0] == '=' {
                    react(c, id, Some(rest.drop_first()))
                } else {
                    react(c, id, Some(rest))
                }
            } else {
                match react(c, id, None) {
                    Err(e) => Err(e),
                    Ok(c1) => short_step(mode, c1, chars, i + 1),
                }
            },
        }
    }
}

/// Whether the command waits for the value of an option.
pub open spec fn awaiting(c: CmdModel) -> bool {
    c.pending matches Some((_, None))
}

/// A token that is not an option: a value, a subcommand or an argument.
pub open spec fn value_step(mode: Mode, c: CmdModel, t: Seq<char>) -> Result<CmdModel, CliErrorModel> {
    if !c.trailing && awaiting(c) {
        Ok(CmdModel { pending: Some(((c.pending->0).0, Some(t))), ..c })
    } else {
        match mode {
            Mode::Root => if c.trailing && is_subcommand_name(t) {
                Err(err_unknown(t))
            } else {
                Err(err_subcommand(t))
            },
            Mode::Test => if c.trailing {
                match resolve(c) {
                    Err(e) => Err(e),
                    Ok(c1) => Ok(CmdModel { positional: c1.positional.push(t), ..c1 }),
                }
            } else {
                Err(err_unknown(t))
            },
            _ => Err(err_unknown(t)),
        }
    }
}

/// Whether a token is `--`.
pub open spec fn is_escape(t: Seq<char>) -> bool {
    t.len() == 2 && t[0] == '-' && t[1] == '-'
}

/// Whether a token is a long option.
pub open spec fn is_long(t: Seq<char>) -> bool {
    t.len() > 2 && t[0] == '-' && t[1] == '-'
}

/// Whether a token is a cluster of short options.
pub open spec fn is_short(t: Seq<char>) -> bool {
    t.len() >= 2 && t[0] == '-' && t[1] != '-'
}

/// One token read by one command.
pub open spec fn cmd_step(mode: Mode, c: CmdModel, t: Seq<char>) -> Result<CmdModel, CliErrorModel> {
    if c.trailing {
        value_step(mode, c, t)
    } else if is_escape(t) {
        Ok(CmdModel { trailing: true, ..c })
    } else if is_long(t) {
        long_step(mode, c, t.subrange(2, t.len() as int))
    } else if is_short(t) {
        short_step(mode, c, t.subrange(1, t.len() as int), 0)
    } else {
        value_step(mode, c, t)
    }
}

// ---------------------------------------------------------------------------
// The whole command line
// ---------------------------------------------------------------------------

pub open spec fn initial() -> ParseModel {
    ParseModel {
        mode: Mode::Root,
        root: empty_cmd(),
        sub: empty_cmd(),
        topics: Seq::empty(),
        error: None,
    }
}

pub open spec fn subcommand_mode(t: Seq<char>) -> Mode {
    if t == "test"@ {
        Mode::Test
    } else if t == "ingest"@ {
        Mode::Ingest
    } else {
        Mode::HelpTopic
    }
}

pub open spec fn with_cmd(p: ParseModel, r: Result<CmdModel, CliErrorModel>, is_root: bool) -> ParseModel {
    match r {
        Err(e) => ParseModel { error: Some(e), ..p },
        Ok(c) => if is_root {
            ParseModel { root: c, ..p }
        } else {
            ParseModel { sub: c, ..p }
        },
    }
}

/// Read one token.
pub open spec fn step(p: ParseModel, t: Seq<char>) -> ParseModel {
    if p.error is Some {
        p
    } else {
        match p.mode {
            Mode::HelpTopic => ParseModel { topics: p.topics.push(t), ..p },
            Mode::Root => if !p.root.trailing && !awaiting(p.root) && is_subcommand_name(t) {
                ParseModel { mode: subcommand_mode(t), sub: empty_cmd(), ..p }
            } else {
                with_cmd(p, cmd_step(Mode::Root, p.root, t), true)
            },
            _ => with_cmd(p, cmd_step(p.mode, p.sub, t), false),
        }
    }
}

/// Read a sequence of tokens.
pub open spec fn run(p: ParseModel, ts: Seq<Seq<char>>) -> ParseModel
    decreases ts.len(),
{
    if ts.len() == 0 {
        p
    } else {
        run(step(p, ts[0]), ts.drop_first())
    }
}

pub open spec fn single(c: CmdModel, id: ArgId) -> Option<Seq<char>> {
    match c.slots[slot_of(id)] {
        Some(vs) => if vs.len() > 0 {
            Some(vs[0])
        } else {
            None
        },
        None => None,
    }
}

pub open spec fn multi(c: CmdModel, id: ArgId) -> Seq<Seq<char>> {
    match c.slots[slot_of(id)] {
        Some(vs) => vs,
        None => Seq::empty(),
    }
}

/// The conflict between `--commit` and `--no-commit`, named in the order
/// they were set.
pub open spec fn check_conflicts(c: CmdModel) -> Result<CmdModel, CliErrorModel> {
    if present(c, ArgId::Commit) && present(c, ArgId::NoCommit) && c.order.len() >= 2 {
        Err(err_conflict(c.order[0], c.order[1]))
    } else {
        Ok(c)
    }
}

/// Close a subcommand and build it.
pub open spec fn finish_sub(mode: Mode, c: CmdModel) -> Result<CommandModel, CliErrorModel> {
    match resolve(c) {
        Err(e) => Err(e),
        Ok(c1) => match check_conflicts(c1) {
            Err(e) => Err(e),
            Ok(c2) => if mode == Mode::Test {
                Ok(CommandModel::Test {
                    package: multi(c2, ArgId::Package),
                    bin: multi(c2, ArgId::Bin),
                    filter: single(c2, ArgId::Filter),
                    stdin: present(c2, ArgId::Stdin),
                    dry_run: present(c2, ArgId::DryRun),
                    no_commit: present(c2, ArgId::NoCommit),
                    commit: single(c2, ArgId::Commit),
                    show_output: present(c2, ArgId::ShowOutput),
                    nextest_args: c2.positional,
                })
            } else {
                Ok(CommandModel::Ingest { tests: present(c2, ArgId::Tests), commit: single(c2, ArgId::Commit) })
            },
        },
    }
}

/// Take an option's value from the environment when the command line left
/// it out.
pub open spec fn apply_env(c: CmdModel, id: ArgId, env: Option<Seq<char>>) -> Result<CmdModel, CliErrorModel> {
    match env {
        Some(v) => if present(c, id) {
            Ok(c)
        } else {
            set_value(c, id, v)
        },
        None => Ok(c),
    }
}

/// Close the global options and build the configuration.
pub open spec fn finish_root(
    c: CmdModel,
    command: Option<CommandModel>,
    env_database: Option<Seq<char>>,
    env_workspace: Option<Seq<char>>,
) -> Result<ConfigModel, CliErrorModel> {
    match resolve(c) {
        Err(e) => Err(e),
        Ok(c1) => match apply_env(c1, ArgId::Database, env_database) {
            Err(e) => Err(e),
            Ok(c2) => match apply_env(c2, ArgId::Workspace, env_workspace) {
                Err(e) => Err(e),
                Ok(c3) => Ok(ConfigModel {
                    command,
                    database: single(c3, ArgId::Database),
                    workspace: single(c3, ArgId::Workspace),
                    verbose: present(c3, ArgId::Verbose),
                    quiet: present(c3, ArgId::Quiet),
                    skip_init: present(c3, ArgId::SkipInit),
                }),
            },
        },
    }
}

/// What the `help` subcommand answers for its topics.
pub open spec fn help_outcome(topics: Seq<Seq<char>>) -> CliErrorModel {
    if topics.len() == 0 {
        err_plain(CliErrorKind::DisplayHelp)
    } else if !is_subcommand_name(topics[0]) {
        err_subcommand(topics[0])
    } else if topics.len() == 1 {
        err_plain(CliErrorKind::DisplayHelp)
    } else {
        err_subcommand(topics[1])
    }
}

/// Turn the state after the last token into the outcome.
pub open spec fn finish(p: ParseModel, env_database: Option<Seq<char>>, env_workspace: Option<Seq<char>>) -> Result<ConfigModel, CliErrorModel> {
    match p.error {
        Some(e) => Err(e),
        None => match p.mode {
            Mode::HelpTopic => Err(help_outcome(p.topics)),
            Mode::Root => finish_root(p.root, None, env_database, env_workspace),
            _ => match finish_sub(p.mode, p.sub) {
                Err(e) => Err(e),
                Ok(cmd) => finish_root(p.root, Some(cmd), env_database, env_workspace),
            },
        },
    }
}

/// The outcome of parsing the tokens after the program name.
pub open spec fn parse_tokens(
    ts: Seq<Seq<char>>,
    env_database: Option<Seq<char>>,
    env_workspace: Option<Seq<char>>,
) -> Result<ConfigModel, CliErrorModel> {
    finish(run(initial(), ts), env_database, env_workspace)
}

} // verus!
