//! The executable command-line parser, proved to follow `grammar.rs`.

use vstd::prelude::*;

use crate::cli::grammar::{
    ArgId, ArgKind, CliErrorKind, CliErrorModel, CmdModel, Mode, SLOT_COUNT, cmd_wf, display_of,
    empty_cmd, err_conflict, err_missing_value, kind_of, long_arg, note, short_arg, slot_of,
    takes_value, set_value, set_flag, resolve, react, find_char, long_step, short_step, err_unknown,
    err_too_many, err_plain, err_subcommand, value_step, awaiting, is_subcommand_name, cmd_step,
    is_escape, is_long, is_short, ParseModel, step, run, finish, initial, single, multi, present,
    check_conflicts, finish_sub, finish_root, apply_env, help_outcome, parse_tokens, CommandModel,
    ConfigModel, subcommand_mode, with_cmd,
};
use crate::cli::config::{Command, Config, arg_tokens, opt_text, parse_result_model};
use crate::text::str_eq;

verus! {

/// A command-line error.
#[derive(Debug)]
pub struct CliError {
    /// What went wrong.
    pub kind: CliErrorKind,
    /// The option or token the error is about.
    pub subject: String,
    /// The conflicting option or the unexpected value, if any.
    pub detail: String,
}

impl CliError {
    pub open spec fn model(&self) -> CliErrorModel {
        CliErrorModel { kind: self.kind, subject: self.subject@, detail: self.detail@ }
    }
}

/// The outcome of an operation on one command's state, as a model.
pub open spec fn outcome(r: Result<(), CliError>, c: CmdModel) -> Result<CmdModel, CliErrorModel> {
    match r {
        Ok(_) => Ok(c),
        Err(e) => Err(e.model()),
    }
}

pub open spec fn opt_str(o: Option<String>) -> Option<Seq<char>> {
    match o {
        Some(s) => Some(s@),
        None => None,
    }
}

/// One command's state while its options are read.
pub struct CmdState {
    pub slots: Vec<Option<Vec<String>>>,
    pub order: Vec<ArgId>,
    pub pending: Option<(ArgId, Option<String>)>,
    pub trailing: bool,
    pub positional: Vec<String>,
}

impl CmdState {
    pub open spec fn model(&self) -> CmdModel {
        CmdModel {
            slots: self.slots.deep_view(),
            order: self.order@,
            pending: match self.pending {
                None => None,
                Some((id, v)) => Some((id, opt_str(v))),
            },
            trailing: self.trailing,
            positional: self.positional.deep_view(),
        }
    }
}

pub fn slot_index(id: ArgId) -> (i: usize)
    ensures
        i == slot_of(id),
        i < SLOT_COUNT,
{
    match id {
        ArgId::Database => 0,
        ArgId::Workspace => 1,
        ArgId::Verbose => 2,
        ArgId::Quiet => 3,
        ArgId::SkipInit => 4,
        ArgId::Help => 5,
        ArgId::Version => 6,
        ArgId::Package => 7,
        ArgId::Bin => 8,
        ArgId::Filter => 9,
        ArgId::Stdin => 10,
        ArgId::DryRun => 11,
        ArgId::NoCommit => 12,
        ArgId::Commit => 13,
        ArgId::ShowOutput => 14,
        ArgId::Tests => 15,
    }
}

pub fn arg_kind(id: ArgId) -> (k: ArgKind)
    ensures
        k == kind_of(id),
{
    match id {
        ArgId::Database => ArgKind::PathValue,
        ArgId::Workspace => ArgKind::PathValue,
        ArgId::Help => ArgKind::Help,
        ArgId::Version => ArgKind::Version,
        ArgId::Package => ArgKind::Multi,
        ArgId::Bin => ArgKind::Multi,
        ArgId::Filter => ArgKind::Single,
        ArgId::Commit => ArgKind::Single,
        _ => ArgKind::Flag,
    }
}

pub fn arg_takes_value(id: ArgId) -> (b: bool)
    ensures
        b == takes_value(id),
{
    match arg_kind(id) {
        ArgKind::Single | ArgKind::PathValue | ArgKind::Multi => true,
        _ => false,
    }
}

pub fn arg_display(id: ArgId) -> (s: String)
    ensures
        s@ == display_of(id),
{
    match id {
        ArgId::Database => String::from_str("--database <DATABASE>"),
        ArgId::Workspace => String::from_str("--workspace <WORKSPACE>"),
        ArgId::Verbose => String::from_str("--verbose"),
        ArgId::Quiet => String::from_str("--quiet"),
        ArgId::SkipInit => String::from_str("--skip-init"),
        ArgId::Help => String::from_str("--help"),
        ArgId::Version => String::from_str("--version"),
        ArgId::Package => String::from_str("--package <PACKAGE>"),
        ArgId::Bin => String::from_str("--bin <BIN>"),
        ArgId::Filter => String::from_str("--filter <FILTER>"),
        ArgId::Stdin => String::from_str("--stdin"),
        ArgId::DryRun => String::from_str("--dry-run"),
        ArgId::NoCommit => String::from_str("--no-commit"),
        ArgId::Commit => String::from_str("--commit <COMMIT>"),
        ArgId::ShowOutput => String::from_str("--show-output"),
        ArgId::Tests => String::from_str("--tests"),
    }
}

pub fn lookup_long(mode: Mode, name: &str) -> (r: Option<ArgId>)
    ensures
        r == long_arg(mode, name@),
{
    match mode {
        Mode::Root => if str_eq(name, "database") {
            Some(ArgId::Database)
        } else if str_eq(name, "workspace") {
            Some(ArgId::Workspace)
        } else if str_eq(name, "verbose") {
            Some(ArgId::Verbose)
        } else if str_eq(name, "quiet") {
            Some(ArgId::Quiet)
        } else if str_eq(name, "skip-init") {
            Some(ArgId::SkipInit)
        } else if str_eq(name, "help") {
            Some(ArgId::Help)
        } else if str_eq(name, "version") {
            Some(ArgId::Version)
        } else {
            None
        },
        Mode::Test => if str_eq(name, "package") {
            Some(ArgId::Package)
        } else if str_eq(name, "bin") {
            Some(ArgId::Bin)
        } else if str_eq(name, "filter") {
            Some(ArgId::Filter)
        } else if str_eq(name, "stdin") {
            Some(ArgId::Stdin)
        } else if str_eq(name, "dry-run") {
            Some(ArgId::DryRun)
        } else if str_eq(name, "no-commit") {
            Some(ArgId::NoCommit)
        } else if str_eq(name, "commit") {
            Some(ArgId::Commit)
        } else if str_eq(name, "show-output") {
            Some(ArgId::ShowOutput)
        } else if str_eq(name, "help") {
            Some(ArgId::Help)
        } else {
            None
        },
        Mode::Ingest => if str_eq(name, "tests") {
            Some(ArgId::Tests)
        } else if str_eq(name, "commit") {
            Some(ArgId::Commit)
        } else if str_eq(name, "help") {
            Some(ArgId::Help)
        } else {
            None
        },
        Mode::HelpTopic => None,
    }
}

pub fn lookup_short(mode: Mode, c: char) -> (r: Option<ArgId>)
    ensures
        r == short_arg(mode, c),
{
    match mode {
        Mode::Root => if c == 'd' {
            Some(ArgId::Database)
        } else if c == 'w' {
            Some(ArgId::Workspace)
        } else if c == 'v' {
            Some(ArgId::Verbose)
        } else if c == 'q' {
            Some(ArgId::Quiet)
        } else if c == 'h' {
            Some(ArgId::Help)
        } else if c == 'V' {
            Some(ArgId::Version)
        } else {
            None
        },
        Mode::Test => if c == 'p' {
            Some(ArgId::Package)
        } else if c == 'E' {
            Some(ArgId::Filter)
        } else if c == 'h' {
            Some(ArgId::Help)
        } else {
            None
        },
        Mode::Ingest => if c == 'h' {
            Some(ArgId::Help)
        } else {
            None
        },
        Mode::HelpTopic => None,
    }
}

pub fn new_cmd() -> (c: CmdState)
    ensures
        c.model() == empty_cmd(),
{
    let mut slots: Vec<Option<Vec<String>>> = Vec::new();
    let mut i: usize = 0;
    while i < SLOT_COUNT
        invariant
            i <= SLOT_COUNT,
            slots@.len() == i,
            forall|k: int| 0 <= k < i ==> slots@[k] is None,
        decreases SLOT_COUNT - i,
    {
        slots.push(None);
        i = i + 1;
    }
    let c = CmdState {
        slots,
        order: Vec::new(),
        pending: None,
        trailing: false,
        positional: Vec::new(),
    };
    assert(c.model().slots =~= empty_cmd().slots);
    assert(c.model().positional =~= Seq::<Seq<char>>::empty());
    c
}

fn error_with(kind: CliErrorKind, subject: String, detail: String) -> (e: CliError)
    ensures
        e.kind == kind,
        e.subject@ == subject@,
        e.detail@ == detail@,
{
    CliError { kind, subject, detail }
}

pub fn missing_value(id: ArgId) -> (e: CliError)
    ensures
        e.model() == err_missing_value(id),
{
    error_with(CliErrorKind::InvalidValue, arg_display(id), String::new())
}

pub fn conflict(a: ArgId, b: ArgId) -> (e: CliError)
    ensures
        e.model() == err_conflict(a, b),
{
    error_with(CliErrorKind::ArgumentConflict, arg_display(a), arg_display(b))
}

/// Replace one slot, keeping the deep view in step.
fn put_slot(slots: &mut Vec<Option<Vec<String>>>, i: usize, val: Option<Vec<String>>)
    requires
        i < old(slots).len(),
    ensures
        final(slots).deep_view() == old(slots).deep_view().update(i as int, val.deep_view()),
        final(slots).len() == old(slots).len(),
{
    let ghost before = slots.deep_view();
    slots.set(i, val);
    assert(slots.deep_view() =~= before.update(i as int, val.deep_view()));
}

/// Take one slot out, leaving `None` in its place.
fn take_slot(slots: &mut Vec<Option<Vec<String>>>, i: usize) -> (r: Option<Vec<String>>)
    requires
        i < old(slots).len(),
    ensures
        r.deep_view() == old(slots).deep_view()[i as int],
        final(slots).deep_view() == old(slots).deep_view().update(i as int, None),
        final(slots).len() == old(slots).len(),
{
    let ghost before = slots.deep_view();
    let mut r: Option<Vec<String>> = None;
    slots.set_and_swap(i, &mut r);
    assert(slots.deep_view() =~= before.update(i as int, None));
    r
}

fn note_order(order: &mut Vec<ArgId>, id: ArgId)
    ensures
        final(order)@ == note(old(order)@, id),
{
    if id == ArgId::Commit || id == ArgId::NoCommit {
        order.push(id);
    }
}

pub fn store_value(c: &mut CmdState, id: ArgId, v: String) -> (r: Result<(), CliError>)
    requires
        cmd_wf(old(c).model()),
    ensures
        outcome(r, final(c).model()) == set_value(old(c).model(), id, v@),
        cmd_wf(final(c).model()),
{
    let i = slot_index(id);
    let kind = arg_kind(id);
    let ghost m = c.model();
    if kind == ArgKind::Multi {
        let prev = take_slot(&mut c.slots, i);
        let mut vs = match prev {
            Some(vs) => vs,
            None => Vec::new(),
        };
        let ghost pv = vs.deep_view();
        assert(pv =~= match m.slots[i as int] {
            Some(s) => s,
            None => Seq::empty(),
        });
        vs.push(v);
        assert(vs.deep_view() =~= pv.push(v@));
        put_slot(&mut c.slots, i, Some(vs));
        assert(c.model().slots =~= m.slots.update(i as int, Some(pv.push(v@))));
        Ok(())
    } else if c.slots[i].is_some() {
        Err(conflict(id, id))
    } else if kind == ArgKind::PathValue && v.unicode_len() == 0 {
        Err(missing_value(id))
    } else {
        let ghost vv = v@;
        let mut vs: Vec<String> = Vec::new();
        vs.push(v);
        assert(vs.deep_view() =~= seq![vv]);
        put_slot(&mut c.slots, i, Some(vs));
        note_order(&mut c.order, id);
        assert(c.model().slots =~= m.slots.update(i as int, Some(seq![vv])));
        Ok(())
    }
}

pub fn store_flag(c: &mut CmdState, id: ArgId) -> (r: Result<(), CliError>)
    requires
        cmd_wf(old(c).model()),
    ensures
        outcome(r, final(c).model()) == set_flag(old(c).model(), id),
        cmd_wf(final(c).model()),
{
    let i = slot_index(id);
    if c.slots[i].is_some() {
        Err(conflict(id, id))
    } else {
        let vs: Vec<String> = Vec::new();
        assert(vs.deep_view() =~= Seq::<Seq<char>>::empty());
        put_slot(&mut c.slots, i, Some(vs));
        note_order(&mut c.order, id);
        Ok(())
    }
}

pub fn settle(c: &mut CmdState) -> (r: Result<(), CliError>)
    requires
        cmd_wf(old(c).model()),
    ensures
        outcome(r, final(c).model()) == resolve(old(c).model()),
        cmd_wf(final(c).model()),
{
    let p = c.pending.take();
    match p {
        None => Ok(()),
        Some((id, None)) => Err(missing_value(id)),
        Some((id, Some(v))) => store_value(c, id, v),
    }
}

pub fn plain_error(kind: CliErrorKind) -> (e: CliError)
    ensures
        e.model() == err_plain(kind),
{
    error_with(kind, String::new(), String::new())
}

/// Act on a recognised option, with the value attached to it if any.
pub fn act(c: &mut CmdState, id: ArgId, attached: Option<String>) -> (r: Result<(), CliError>)
    requires
        cmd_wf(old(c).model()),
    ensures
        outcome(r, final(c).model()) == react(old(c).model(), id, opt_str(attached)),
        cmd_wf(final(c).model()),
{
    match settle(c) {
        Err(e) => Err(e),
        Ok(()) => match arg_kind(id) {
            ArgKind::Flag => store_flag(c, id),
            ArgKind::Help => Err(plain_error(CliErrorKind::DisplayHelp)),
            ArgKind::Version => Err(plain_error(CliErrorKind::DisplayVersion)),
            _ => match attached {
                Some(v) => store_value(c, id, v),
                None => {
                    c.pending = Some((id, None));
                    Ok(())
                },
            },
        },
    }
}

/// The index of the first `ch` in `s` at or after `from`, or the length of `s`.
pub fn find_char_from(s: &str, ch: char, from: usize) -> (k: usize)
    requires
        from <= s@.len(),
    ensures
        k == find_char(s@, ch, from as int),
        from <= k <= s@.len(),
{
    let n = s.unicode_len();
    let mut i = from;
    while i < n
        invariant
            n == s@.len(),
            from <= i <= n,
            find_char(s@, ch, from as int) == find_char(s@, ch, i as int),
        decreases n - i,
    {
        if s.get_char(i) == ch {
            return i;
        }
        i = i + 1;
    }
    i
}

fn unknown_error(t: String) -> (e: CliError)
    ensures
        e.model() == err_unknown(t@),
{
    error_with(CliErrorKind::UnknownArgument, t, String::new())
}

fn subcommand_error(t: String) -> (e: CliError)
    ensures
        e.model() == err_subcommand(t@),
{
    error_with(CliErrorKind::InvalidSubcommand, t, String::new())
}

/// A long option `--name` or `--name=value`.
pub fn long_token(mode: Mode, c: &mut CmdState, t: &str) -> (r: Result<(), CliError>)
    requires
        cmd_wf(old(c).model()),
        is_long(t@),
    ensures
        outcome(r, final(c).model()) == long_step(mode, old(c).model(), t@.subrange(2, t@.len() as int)),
        cmd_wf(final(c).model()),
{
    let n = t.unicode_len();
    let body = t.substring_char(2, n);
    let m = body.unicode_len();
    let k = find_char_from(body, '=', 0);
    let name = body.substring_char(0, k);
    let attached = if k < m {
        Some(String::from_str(body.substring_char(k + 1, m)))
    } else {
        None
    };
    match lookup_long(mode, name) {
        None => {
            let mut msg = String::from_str(t.substring_char(0, 2));
            msg.append(name);
            assert(t@.subrange(0, 2) =~= seq!['-', '-']);
            Err(unknown_error(msg))
        },
        Some(id) => if arg_takes_value(id) {
            act(c, id, attached)
        } else {
            match attached {
                Some(v) => Err(error_with(CliErrorKind::TooManyValues, arg_display(id), v)),
                None => act(c, id, None),
            }
        },
    }
}

/// A cluster of short options `-abc`.
pub fn short_token(mode: Mode, c: &mut CmdState, t: &str) -> (r: Result<(), CliError>)
    requires
        cmd_wf(old(c).model()),
        is_short(t@),
    ensures
        outcome(r, final(c).model()) == short_step(mode, old(c).model(), t@.subrange(1, t@.len() as int), 0),
        cmd_wf(final(c).model()),
{
    let n = t.unicode_len();
    let chars = t.substring_char(1, n);
    let m = chars.unicode_len();
    let ghost goal = short_step(mode, c.model(), chars@, 0);
    let mut i: usize = 0;
    while i < m
        invariant
            m == chars@.len(),
            i <= m,
            cmd_wf(c.model()),
            goal == short_step(mode, c.model(), chars@, i as int),
            goal == short_step(mode, old(c).model(), t@.subrange(1, t@.len() as int), 0),
            chars@ == t@.subrange(1, t@.len() as int),
            t@.len() >= 2,
            t@[0] == '-',
        decreases m - i,
    {
        let ch = chars.get_char(i);
        match lookup_short(mode, ch) {
            None => {
                let mut msg = String::from_str(t.substring_char(0, 1));
                msg.append(chars.substring_char(i, i + 1));
                assert(msg@ =~= seq!['-', ch]);
                return Err(unknown_error(msg));
            },
            Some(id) => {
                if arg_takes_value(id) {
                    let rest = chars.substring_char(i + 1, m);
                    let rn = rest.unicode_len();
                    if rn == 0 {
                        return act(c, id, None);
                    } else if rest.get_char(0) == '=' {
                        let v = String::from_str(rest.substring_char(1, rn));
                        assert(v@ =~= rest@.drop_first());
                        return act(c, id, Some(v));
                    } else {
                        return act(c, id, Some(String::from_str(rest)));
                    }
                } else {
                    match act(c, id, None) {
                        Err(e) => {
                            return Err(e);
                        },
                        Ok(()) => {},
                    }
                }
            },
        }
        i = i + 1;
    }
    Ok(())
}

/// Whether a token names a subcommand.
pub fn names_subcommand(t: &str) -> (b: bool)
    ensures
        b == is_subcommand_name(t@),
{
    str_eq(t, "test") || str_eq(t, "ingest") || str_eq(t, "help")
}

/// A token that is not an option.
pub fn value_token(mode: Mode, c: &mut CmdState, t: &str) -> (r: Result<(), CliError>)
    requires
        cmd_wf(old(c).model()),
    ensures
        outcome(r, final(c).model()) == value_step(mode, old(c).model(), t@),
        cmd_wf(final(c).model()),
{
    let waiting = match &c.pending {
        Some((_, None)) => true,
        _ => false,
    };
    if !c.trailing && waiting {
        let id = match &c.pending {
            Some((id, _)) => *id,
            None => ArgId::Help,
        };
        c.pending = Some((id, Some(String::from_str(t))));
        Ok(())
    } else {
        match mode {
            Mode::Root => if c.trailing && names_subcommand(t) {
                Err(unknown_error(String::from_str(t)))
            } else {
                Err(subcommand_error(String::from_str(t)))
            },
            Mode::Test => if c.trailing {
                match settle(c) {
                    Err(e) => Err(e),
                    Ok(()) => {
                        let ghost before = c.positional.deep_view();
                        c.positional.push(String::from_str(t));
                        assert(c.positional.deep_view() =~= before.push(t@));
                        Ok(())
                    },
                }
            } else {
                Err(unknown_error(String::from_str(t)))
            },
            _ => Err(unknown_error(String::from_str(t))),
        }
    }
}

/// Whether a token starts with `-`, and with `--`.
fn dashes(t: &str) -> (r: (bool, bool))
    ensures
        r.0 == (t@.len() >= 1 && t@[0] == '-'),
        r.1 == (t@.len() >= 2 && t@[0] == '-' && t@[1] == '-'),
{
    let n = t.unicode_len();
    let one = n >= 1 && t.get_char(0) == '-';
    let two = one && n >= 2 && t.get_char(1) == '-';
    (one, two)
}

/// One token read by one command.
pub fn command_token(mode: Mode, c: &mut CmdState, t: &str) -> (r: Result<(), CliError>)
    requires
        cmd_wf(old(c).model()),
    ensures
        outcome(r, final(c).model()) == cmd_step(mode, old(c).model(), t@),
        cmd_wf(final(c).model()),
{
    if c.trailing {
        return value_token(mode, c, t);
    }
    let n = t.unicode_len();
    let (one, two) = dashes(t);
    if two && n == 2 {
        c.trailing = true;
        Ok(())
    } else if two {
        long_token(mode, c, t)
    } else if one && n >= 2 {
        short_token(mode, c, t)
    } else {
        value_token(mode, c, t)
    }
}

/// The whole parse while tokens are read.
pub struct ParseState {
    pub mode: Mode,
    pub root: CmdState,
    pub sub: CmdState,
    pub topics: Vec<String>,
    pub error: Option<CliError>,
}

impl ParseState {
    pub open spec fn model(&self) -> ParseModel {
        ParseModel {
            mode: self.mode,
            root: self.root.model(),
            sub: self.sub.model(),
            topics: self.topics.deep_view(),
            error: match self.error {
                Some(e) => Some(e.model()),
                None => None,
            },
        }
    }
}

/// Two parse states lead to the same outcome: they are equal, or they hold
/// the same error.
pub open spec fn agrees(a: ParseModel, b: ParseModel) -> bool {
    (a.error is Some && a.error == b.error) || a == b
}

pub open spec fn state_wf(p: ParseModel) -> bool {
    cmd_wf(p.root) && cmd_wf(p.sub)
}

/// Once an error is met, the remaining tokens change nothing.
pub proof fn lemma_run_error_fixed(p: ParseModel, ts: Seq<Seq<char>>)
    requires
        p.error is Some,
    ensures
        run(p, ts) == p,
    decreases ts.len(),
{
    if ts.len() > 0 {
        lemma_run_error_fixed(step(p, ts[0]), ts.drop_first());
    }
}

/// States that agree lead to the same outcome.
pub proof fn lemma_agrees_finish(
    a: ParseModel,
    b: ParseModel,
    ts: Seq<Seq<char>>,
    e1: Option<Seq<char>>,
    e2: Option<Seq<char>>,
)
    requires
        agrees(a, b),
    ensures
        finish(run(a, ts), e1, e2) == finish(run(b, ts), e1, e2),
{
    if a != b {
        lemma_run_error_fixed(a, ts);
        lemma_run_error_fixed(b, ts);
    }
}

fn initial_state() -> (p: ParseState)
    ensures
        p.model() == initial(),
        state_wf(p.model()),
{
    let topics: Vec<String> = Vec::new();
    assert(topics.deep_view() =~= Seq::<Seq<char>>::empty());
    ParseState { mode: Mode::Root, root: new_cmd(), sub: new_cmd(), topics, error: None }
}

/// Read one token.
pub fn step_token(p: &mut ParseState, t: &str)
    requires
        state_wf(old(p).model()),
    ensures
        agrees(final(p).model(), step(old(p).model(), t@)),
        state_wf(final(p).model()),
{
    if p.error.is_some() {
        return;
    }
    match p.mode {
        Mode::HelpTopic => {
            let ghost before = p.topics.deep_view();
            p.topics.push(String::from_str(t));
            assert(p.topics.deep_view() =~= before.push(t@));
        },
        Mode::Root => {
            let waiting = match &p.root.pending {
                Some((_, None)) => true,
                _ => false,
            };
            if !p.root.trailing && !waiting && names_subcommand(t) {
                p.mode = if str_eq(t, "test") {
                    Mode::Test
                } else if str_eq(t, "ingest") {
                    Mode::Ingest
                } else {
                    Mode::HelpTopic
                };
                p.sub = new_cmd();
            } else {
                match command_token(Mode::Root, &mut p.root, t) {
                    Ok(()) => {},
                    Err(e) => {
                        p.error = Some(e);
                    },
                }
            }
        },
        _ => {
            let mode = p.mode;
            match command_token(mode, &mut p.sub, t) {
                Ok(()) => {},
                Err(e) => {
                    p.error = Some(e);
                },
            }
        },
    }
}

/// Take the single value of an option out of its slot.
fn take_single(c: &mut CmdState, id: ArgId) -> (r: Option<String>)
    requires
        cmd_wf(old(c).model()),
    ensures
        opt_str(r) == single(old(c).model(), id),
        final(c).model() == (CmdModel {
            slots: old(c).model().slots.update(slot_of(id), None),
            ..old(c).model()
        }),
        cmd_wf(final(c).model()),
{
    let i = slot_index(id);
    let ghost m = c.model();
    let r = take_slot(&mut c.slots, i);
    assert(c.model().slots == m.slots.update(i as int, None));
    match r {
        Some(mut vs) => if vs.len() > 0 {
            let v = vs.remove(0);
            Some(v)
        } else {
            None
        },
        None => None,
    }
}

/// Take the values of a repeatable option out of its slot.
fn take_multi(c: &mut CmdState, id: ArgId) -> (r: Vec<String>)
    requires
        cmd_wf(old(c).model()),
    ensures
        r.deep_view() == multi(old(c).model(), id),
        final(c).model() == (CmdModel {
            slots: old(c).model().slots.update(slot_of(id), None),
            ..old(c).model()
        }),
        cmd_wf(final(c).model()),
{
    let i = slot_index(id);
    let r = take_slot(&mut c.slots, i);
    match r {
        Some(vs) => vs,
        None => {
            let v: Vec<String> = Vec::new();
            assert(v.deep_view() =~= Seq::<Seq<char>>::empty());
            v
        },
    }
}

fn has(c: &CmdState, id: ArgId) -> (b: bool)
    requires
        cmd_wf(c.model()),
    ensures
        b == present(c.model(), id),
{
    let i = slot_index(id);
    c.slots[i].is_some()
}

pub open spec fn command_result_model(r: Result<Command, CliError>) -> Result<CommandModel, CliErrorModel> {
    match r {
        Ok(c) => Ok(c.model()),
        Err(e) => Err(e.model()),
    }
}

/// Close a subcommand and build it.
fn finish_subcommand(mode: Mode, c: &mut CmdState) -> (r: Result<Command, CliError>)
    requires
        cmd_wf(old(c).model()),
    ensures
        command_result_model(r) == finish_sub(mode, old(c).model()),
{
    match settle(c) {
        Err(e) => {
            return Err(e);
        },
        Ok(()) => {},
    }
    if has(c, ArgId::Commit) && has(c, ArgId::NoCommit) && c.order.len() >= 2 {
        return Err(conflict(c.order[0], c.order[1]));
    }
    let ghost c2 = c.model();
    assert(check_conflicts(c2) == Ok::<CmdModel, CliErrorModel>(c2));
    if mode == Mode::Test {
        let stdin = has(c, ArgId::Stdin);
        let dry_run = has(c, ArgId::DryRun);
        let no_commit = has(c, ArgId::NoCommit);
        let show_output = has(c, ArgId::ShowOutput);
        let package = take_multi(c, ArgId::Package);
        let bin = take_multi(c, ArgId::Bin);
        let filter = take_single(c, ArgId::Filter);
        let commit = take_single(c, ArgId::Commit);
        let mut nextest_args: Vec<String> = Vec::new();
        std::mem::swap(&mut nextest_args, &mut c.positional);
        Ok(Command::Test { package, bin, filter, stdin, dry_run, no_commit, commit, show_output, nextest_args })
    } else {
        let tests = has(c, ArgId::Tests);
        let commit = take_single(c, ArgId::Commit);
        Ok(Command::Ingest { tests, commit })
    }
}

/// Take an option's value from the environment when it is absent.
fn env_value(c: &mut CmdState, id: ArgId, env: Option<&str>) -> (r: Result<(), CliError>)
    requires
        cmd_wf(old(c).model()),
    ensures
        outcome(r, final(c).model()) == apply_env(old(c).model(), id, opt_text(env)),
        cmd_wf(final(c).model()),
{
    match env {
        Some(v) => if has(c, id) {
            Ok(())
        } else {
            store_value(c, id, String::from_str(v))
        },
        None => Ok(()),
    }
}

/// Close the global options and build the configuration.
fn finish_global(
    c: &mut CmdState,
    command: Option<Command>,
    env_database: Option<&str>,
    env_workspace: Option<&str>,
) -> (r: Result<Config, CliError>)
    requires
        cmd_wf(old(c).model()),
    ensures
        parse_result_model(r) == finish_root(
            old(c).model(),
            match command {
                Some(x) => Some(x.model()),
                None => None,
            },
            opt_text(env_database),
            opt_text(env_workspace),
        ),
{
    match settle(c) {
        Err(e) => {
            return Err(e);
        },
        Ok(()) => {},
    }
    match env_value(c, ArgId::Database, env_database) {
        Err(e) => {
            return Err(e);
        },
        Ok(()) => {},
    }
    match env_value(c, ArgId::Workspace, env_workspace) {
        Err(e) => {
            return Err(e);
        },
        Ok(()) => {},
    }
    let verbose = has(c, ArgId::Verbose);
    let quiet = has(c, ArgId::Quiet);
    let skip_init = has(c, ArgId::SkipInit);
    let database = take_single(c, ArgId::Database);
    let workspace = take_single(c, ArgId::Workspace);
    Ok(Config { command, database, workspace, verbose, quiet, skip_init })
}

/// What the `help` subcommand answers.
fn help_answer(topics: &Vec<String>) -> (e: CliError)
    ensures
        e.model() == help_outcome(topics.deep_view()),
{
    let n = topics.len();
    if n == 0 {
        plain_error(CliErrorKind::DisplayHelp)
    } else if !names_subcommand(topics[0].as_str()) {
        subcommand_error(topics[0].clone())
    } else if n == 1 {
        plain_error(CliErrorKind::DisplayHelp)
    } else {
        subcommand_error(topics[1].clone())
    }
}

/// Turn the final parse state into the outcome.
fn finish_state(p: ParseState, env_database: Option<&str>, env_workspace: Option<&str>) -> (r: Result<Config, CliError>)
    requires
        state_wf(p.model()),
    ensures
        parse_result_model(r) == finish(p.model(), opt_text(env_database), opt_text(env_workspace)),
{
    let ghost m = p.model();
    let mut p = p;
    match p.error {
        Some(e) => {
            return Err(e);
        },
        None => {},
    }
    match p.mode {
        Mode::HelpTopic => Err(help_answer(&p.topics)),
        Mode::Root => finish_global(&mut p.root, None, env_database, env_workspace),
        _ => {
            let mode = p.mode;
            match finish_subcommand(mode, &mut p.sub) {
                Err(e) => Err(e),
                Ok(cmd) => finish_global(&mut p.root, Some(cmd), env_database, env_workspace),
            }
        },
    }
}

/// Parse a command line whose first element is the program's name.
pub fn parse_arguments(args: &[&str], env_database: Option<&str>, env_workspace: Option<&str>) -> (r: Result<Config, CliError>)
    ensures
        parse_result_model(r) == parse_tokens(arg_tokens(args@), opt_text(env_database), opt_text(env_workspace)),
{
    let ghost ts = arg_tokens(args@);
    let ghost e1 = opt_text(env_database);
    let ghost e2 = opt_text(env_workspace);
    let mut p = initial_state();
    let n = args.len();
    if n == 0 {
        assert(ts =~= Seq::<Seq<char>>::empty());
        return finish_state(p, env_database, env_workspace);
    }
    let mut i: usize = 1;
    assert(ts.skip(0) =~= ts);
    while i < n
        invariant
            n == args@.len(),
            1 <= i <= n,
            ts == arg_tokens(args@),
            ts.len() == n - 1,
            forall|k: int| 0 <= k < ts.len() ==> #[trigger] ts[k] == args@[k + 1]@,
            state_wf(p.model()),
            finish(run(p.model(), ts.skip(i - 1)), e1, e2) == parse_tokens(ts, e1, e2),
        decreases n - i,
    {
        let ghost before = p.model();
        let ghost rest = ts.skip(i - 1);
        let t = args[i];
        assert(rest[0] == t@);
        step_token(&mut p, t);
        assert(rest.drop_first() =~= ts.skip(i as int));
        proof {
            lemma_agrees_finish(p.model(), step(before, t@), ts.skip(i as int), e1, e2);
        }
        i = i + 1;
    }
    assert(ts.skip(n - 1) =~= Seq::<Seq<char>>::empty());
    finish_state(p, env_database, env_workspace)
}

} // verus!

verus! {

/// The text of a command-line error.
pub open spec fn cli_error_text(m: CliErrorModel) -> Seq<char> {
    match m.kind {
        CliErrorKind::InvalidValue => "a value is required for '"@ + m.subject + "' but none was supplied"@,
        CliErrorKind::ArgumentConflict => if m.subject == m.detail {
            "the argument '"@ + m.subject + "' cannot be used multiple times"@
        } else {
            "the argument '"@ + m.subject + "' cannot be used with '"@ + m.detail + "'"@
        },
        CliErrorKind::TooManyValues => "unexpected value '"@ + m.detail + "' for '"@ + m.subject
            + "' found; no more were expected"@,
        CliErrorKind::UnknownArgument => "unexpected argument '"@ + m.subject + "' found"@,
        CliErrorKind::InvalidSubcommand => "unrecognized subcommand '"@ + m.subject + "'"@,
        CliErrorKind::DisplayHelp => "help was requested"@,
        CliErrorKind::DisplayVersion => "the version was requested"@,
    }
}

impl CliError {
    /// What went wrong.
    pub fn kind(&self) -> (k: CliErrorKind)
        ensures
            k == self.kind,
    {
        self.kind
    }

    /// The error as a sentence.
    pub fn message(&self) -> (s: String)
        ensures
            s@ == cli_error_text(self.model()),
    {
        match self.kind {
            CliErrorKind::InvalidValue => {
                let mut s = String::from_str("a value is required for '");
                s.append(self.subject.as_str());
                s.append("' but none was supplied");
                s
            },
            CliErrorKind::ArgumentConflict => {
                let mut s = String::from_str("the argument '");
                s.append(self.subject.as_str());
                if str_eq(self.subject.as_str(), self.detail.as_str()) {
                    s.append("' cannot be used multiple times");
                } else {
                    s.append("' cannot be used with '");
                    s.append(self.detail.as_str());
                    s.append("'");
                }
                s
            },
            CliErrorKind::TooManyValues => {
                let mut s = String::from_str("unexpected value '");
                s.append(self.detail.as_str());
                s.append("' for '");
                s.append(self.subject.as_str());
                s.append("' found; no more were expected");
                s
            },
            CliErrorKind::UnknownArgument => {
                let mut s = String::from_str("unexpected argument '");
                s.append(self.subject.as_str());
                s.append("' found");
                s
            },
            CliErrorKind::InvalidSubcommand => {
                let mut s = String::from_str("unrecognized subcommand '");
                s.append(self.subject.as_str());
                s.append("'");
                s
            },
            CliErrorKind::DisplayHelp => String::from_str("help was requested"),
            CliErrorKind::DisplayVersion => String::from_str("the version was requested"),
        }
    }
}

} // verus!
