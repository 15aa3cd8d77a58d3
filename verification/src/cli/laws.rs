//! What holds of the command-line grammar for every command line.

use vstd::prelude::*;

use crate::cli::grammar::{
    ArgId, ArgKind, CliErrorModel, CmdModel, CommandModel, ConfigModel, Mode, ParseModel, apply_env,
    check_conflicts, cmd_step, cmd_wf, empty_cmd, err_conflict, finish, finish_root, finish_sub,
    find_char, initial, is_escape, is_long, is_short, is_subcommand_name, kind_of, long_arg, long_step,
    multi, parse_tokens, present, react, resolve, run, set_flag, set_value, short_arg, short_step, single, slot_of,
    step, takes_value, value_step, with_cmd,
};
use crate::cli::parser::{agrees, lemma_agrees_finish, state_wf};

verus! {

/// A long name without `=`.
pub open spec fn plain_name(name: Seq<char>) -> bool {
    forall|k: int| 0 <= k < name.len() ==> name[k] != '='
}

/// The token `--name`.
pub open spec fn long_token(name: Seq<char>) -> Seq<char> {
    seq!['-', '-'] + name
}

/// The token `-c`.
pub open spec fn short_token(c: char) -> Seq<char> {
    seq!['-', c]
}

proof fn lemma_find_no_char(s: Seq<char>, c: char, i: int)
    requires
        0 <= i <= s.len(),
        forall|k: int| i <= k < s.len() ==> s[k] != c,
    ensures
        find_char(s, c, i) == s.len(),
    decreases s.len() - i,
{
    if i < s.len() {
        lemma_find_no_char(s, c, i + 1);
    }
}

proof fn lemma_find_at(s: Seq<char>, c: char, i: int, j: int)
    requires
        0 <= i <= j < s.len(),
        s[j] == c,
        forall|k: int| i <= k < j ==> s[k] != c,
    ensures
        find_char(s, c, i) == j,
    decreases j - i,
{
    if i < j {
        lemma_find_at(s, c, i + 1, j);
    }
}

proof fn lemma_dash_not_subcommand(t: Seq<char>)
    requires
        t.len() >= 1,
        t[0] == '-',
    ensures
        !is_subcommand_name(t),
{
    reveal_strlit("test");
    reveal_strlit("ingest");
    reveal_strlit("help");
}

/// Within one command, outside `--`, a short option and its long name do
/// the same thing.
pub proof fn law_short_long_same_cmd(mode: Mode, c: CmdModel, ch: char, name: Seq<char>)
    requires
        !c.trailing,
        name.len() >= 1,
        plain_name(name),
        short_arg(mode, ch) is Some,
        short_arg(mode, ch) == long_arg(mode, name),
    ensures
        cmd_step(mode, c, short_token(ch)) == cmd_step(mode, c, long_token(name)),
{
    let id = short_arg(mode, ch)->0;
    assert(ch != '-');
    let st = short_token(ch);
    let lt = long_token(name);
    assert(is_short(st) && !is_escape(st) && !is_long(st));
    assert(is_long(lt) && !is_escape(lt));
    assert(st.subrange(1, 2) =~= seq![ch]);
    assert(lt.subrange(2, lt.len() as int) =~= name);
    lemma_find_no_char(name, '=', 0);
    assert(name.subrange(0, name.len() as int) =~= name);
    let chars = seq![ch];
    assert(chars.subrange(1, 1).len() == 0);
    if !takes_value(id) {
        match react(c, id, None) {
            Ok(c1) => {
                assert(short_step(mode, c1, chars, 1) == Ok::<CmdModel, CliErrorModel>(c1));
            },
            Err(_) => {},
        }
    }
}

/// Everywhere before `--` and before an error, a short option and its long
/// name have the same effect on the parse.
pub proof fn law_short_long_same(p: ParseModel, ch: char, name: Seq<char>)
    requires
        p.error is None,
        p.mode != Mode::HelpTopic,
        !(if p.mode == Mode::Root { p.root } else { p.sub }).trailing,
        name.len() >= 1,
        plain_name(name),
        short_arg(p.mode, ch) is Some,
        short_arg(p.mode, ch) == long_arg(p.mode, name),
    ensures
        step(p, short_token(ch)) == step(p, long_token(name)),
{
    lemma_dash_not_subcommand(short_token(ch));
    lemma_dash_not_subcommand(long_token(name));
    if p.mode == Mode::Root {
        law_short_long_same_cmd(Mode::Root, p.root, ch, name);
    } else {
        law_short_long_same_cmd(p.mode, p.sub, ch, name);
    }
}

/// The token `-c=v`.
pub open spec fn short_eq_token(c: char, v: Seq<char>) -> Seq<char> {
    seq!['-', c, '='] + v
}

/// The token `--name=v`.
pub open spec fn long_eq_token(name: Seq<char>, v: Seq<char>) -> Seq<char> {
    seq!['-', '-'] + name + seq!['='] + v
}

/// Within one command, outside `--`, `-c=v` and `--name=v` give an option
/// that takes a value the same value.
pub proof fn law_short_long_value_cmd(mode: Mode, c: CmdModel, ch: char, name: Seq<char>, v: Seq<char>)
    requires
        !c.trailing,
        name.len() >= 1,
        plain_name(name),
        short_arg(mode, ch) is Some,
        takes_value(short_arg(mode, ch)->0),
        short_arg(mode, ch) == long_arg(mode, name),
    ensures
        cmd_step(mode, c, short_eq_token(ch, v)) == cmd_step(mode, c, long_eq_token(name, v)),
{
    let id = short_arg(mode, ch)->0;
    assert(ch != '-');
    let st = short_eq_token(ch, v);
    let lt = long_eq_token(name, v);
    assert(is_short(st) && !is_escape(st) && !is_long(st));
    assert(is_long(lt) && !is_escape(lt));
    let chars = st.subrange(1, st.len() as int);
    assert(chars =~= seq![ch, '='] + v);
    let rest = chars.subrange(1, chars.len() as int);
    assert(rest =~= seq!['='] + v);
    assert(rest.drop_first() =~= v);
    let body = lt.subrange(2, lt.len() as int);
    assert(body =~= name + seq!['='] + v);
    lemma_find_at(body, '=', 0, name.len() as int);
    assert(body.subrange(0, name.len() as int) =~= name);
    assert(body.subrange(name.len() as int + 1, body.len() as int) =~= v);
}

/// Two flags that are not both set already can be given in either order.
pub proof fn law_flags_commute_cmd(mode: Mode, c: CmdModel, a: ArgId, b: ArgId)
    requires
        cmd_wf(c),
        a != b,
        kind_of(a) == ArgKind::Flag,
        kind_of(b) == ArgKind::Flag,
        !(present(c, a) && present(c, b)),
        c.pending is None || takes_value((c.pending->0).0),
    ensures
        ({
            let ab = match react(c, a, None) {
                Ok(c1) => react(c1, b, None),
                Err(e) => Err(e),
            };
            let ba = match react(c, b, None) {
                Ok(c1) => react(c1, a, None),
                Err(e) => Err(e),
            };
            ab == ba
        }),
{
    match resolve(c) {
        Err(e) => {},
        Ok(c1) => {
            let ia = slot_of(a);
            let ib = slot_of(b);
            assert(ia != ib);
            assert(c1.pending is None);
            assert(c1.slots[ia] == c.slots[ia] && c1.slots[ib] == c.slots[ib]);
            assert(!(present(c1, a) && present(c1, b)));
            if present(c1, a) {
                let c2 = set_flag(c1, b)->Ok_0;
                assert(resolve(c2) == Ok::<CmdModel, CliErrorModel>(c2));
                assert(c2.slots[ia] == c1.slots[ia]);
            } else if present(c1, b) {
                let c2 = set_flag(c1, a)->Ok_0;
                assert(resolve(c2) == Ok::<CmdModel, CliErrorModel>(c2));
                assert(c2.slots[ib] == c1.slots[ib]);
            } else {
                let s = c1.slots;
                let ca = set_flag(c1, a)->Ok_0;
                let cb = set_flag(c1, b)->Ok_0;
                assert(resolve(ca) == Ok::<CmdModel, CliErrorModel>(ca));
                assert(resolve(cb) == Ok::<CmdModel, CliErrorModel>(cb));
                assert(ca.slots[ib] == s[ib]);
                assert(cb.slots[ia] == s[ia]);
                assert(s.update(ia, Some(Seq::empty())).update(ib, Some(Seq::empty())) =~= s.update(
                    ib,
                    Some(Seq::empty()),
                ).update(ia, Some(Seq::empty())));
            }
        },
    }
}

/// Two global flags that are not both set already can be given in either
/// order: the parse ends the same way whatever follows.
pub proof fn law_global_flags_commute(
    p: ParseModel,
    na: Seq<char>,
    nb: Seq<char>,
    rest: Seq<Seq<char>>,
    e1: Option<Seq<char>>,
    e2: Option<Seq<char>>,
)
    requires
        p.error is None,
        p.mode == Mode::Root,
        !p.root.trailing,
        cmd_wf(p.root),
        p.root.pending is None || takes_value((p.root.pending->0).0),
        na.len() >= 1,
        nb.len() >= 1,
        plain_name(na),
        plain_name(nb),
        long_arg(Mode::Root, na) is Some,
        long_arg(Mode::Root, nb) is Some,
        long_arg(Mode::Root, na) != long_arg(Mode::Root, nb),
        kind_of(long_arg(Mode::Root, na)->0) == ArgKind::Flag,
        kind_of(long_arg(Mode::Root, nb)->0) == ArgKind::Flag,
        !(present(p.root, long_arg(Mode::Root, na)->0) && present(p.root, long_arg(Mode::Root, nb)->0)),
    ensures
        agrees(step(step(p, long_token(na)), long_token(nb)), step(step(p, long_token(nb)), long_token(na))),
        finish(run(p, seq![long_token(na), long_token(nb)] + rest), e1, e2) == finish(
            run(p, seq![long_token(nb), long_token(na)] + rest),
            e1,
            e2,
        ),
{
    let a = long_arg(Mode::Root, na)->0;
    let b = long_arg(Mode::Root, nb)->0;
    let ta = long_token(na);
    let tb = long_token(nb);
    lemma_dash_not_subcommand(ta);
    lemma_dash_not_subcommand(tb);
    lemma_long_flag_step(Mode::Root, p.root, na);
    lemma_long_flag_step(Mode::Root, p.root, nb);
    law_flags_commute_cmd(Mode::Root, p.root, a, b);
    match react(p.root, a, None) {
        Ok(c1) => {
            lemma_long_flag_step(Mode::Root, c1, nb);
        },
        Err(_) => {},
    }
    match react(p.root, b, None) {
        Ok(c1) => {
            lemma_long_flag_step(Mode::Root, c1, na);
        },
        Err(_) => {},
    }
    let s1 = seq![ta, tb] + rest;
    let s2 = seq![tb, ta] + rest;
    assert(s1[0] == ta && s1.drop_first()[0] == tb && s1.drop_first().drop_first() =~= rest);
    assert(s2[0] == tb && s2.drop_first()[0] == ta && s2.drop_first().drop_first() =~= rest);
    assert(run(p, s1) == run(step(p, ta), s1.drop_first()));
    assert(run(step(p, ta), s1.drop_first()) == run(step(step(p, ta), tb), s1.drop_first().drop_first()));
    assert(run(p, s2) == run(step(p, tb), s2.drop_first()));
    assert(run(step(p, tb), s2.drop_first()) == run(step(step(p, tb), ta), s2.drop_first().drop_first()));
    lemma_agrees_finish(step(step(p, ta), tb), step(step(p, tb), ta), rest, e1, e2);
}

/// A long flag `--name`, outside `--`, acts on its option.
proof fn lemma_long_flag_step(mode: Mode, c: CmdModel, name: Seq<char>)
    requires
        !c.trailing,
        name.len() >= 1,
        plain_name(name),
        long_arg(mode, name) is Some,
    ensures
        !takes_value(long_arg(mode, name)->0) ==> cmd_step(mode, c, long_token(name)) == react(c, long_arg(mode, name)->0, None),
        react(c, long_arg(mode, name)->0, None) matches Ok(c1) ==> !c1.trailing,
{
    let t = long_token(name);
    assert(is_long(t) && !is_escape(t));
    assert(t.subrange(2, t.len() as int) =~= name);
    lemma_find_no_char(name, '=', 0);
    assert(name.subrange(0, name.len() as int) =~= name);
}

/// Options that take one value hold at most one; flags hold none.
pub open spec fn shaped(c: CmdModel) -> bool {
    &&& cmd_wf(c)
    &&& forall|id: ArgId|
        (kind_of(id) == ArgKind::Single || kind_of(id) == ArgKind::PathValue) ==> (#[trigger] c.slots[slot_of(id)] matches Some(vs) ==> vs.len() == 1)
}

proof fn lemma_slot_injective(a: ArgId, b: ArgId)
    ensures
        slot_of(a) == slot_of(b) ==> a == b,
        0 <= slot_of(a) < 16,
{
}

proof fn lemma_set_value_shaped(c: CmdModel, id: ArgId, v: Seq<char>)
    requires
        shaped(c),
    ensures
        set_value(c, id, v) matches Ok(c1) ==> shaped(c1) && c1.trailing == c.trailing,
{
    if let Ok(c1) = set_value(c, id, v) {
        assert forall|x: ArgId| (kind_of(x) == ArgKind::Single || kind_of(x) == ArgKind::PathValue) implies (#[trigger] c1.slots[slot_of(x)] matches Some(vs) ==> vs.len() == 1) by {
            lemma_slot_injective(x, id);
        }
    }
}

proof fn lemma_react_shaped(c: CmdModel, id: ArgId, att: Option<Seq<char>>)
    requires
        shaped(c),
    ensures
        react(c, id, att) matches Ok(c1) ==> shaped(c1) && c1.trailing == c.trailing,
{
    match c.pending {
        Some((pid, Some(v))) => lemma_set_value_shaped(CmdModel { pending: None, ..c }, pid, v),
        _ => {},
    }
    if let Ok(c1) = resolve(c) {
        match att {
            Some(v) => lemma_set_value_shaped(c1, id, v),
            None => {},
        }
        if kind_of(id) == ArgKind::Flag {
            if let Ok(c2) = set_flag(c1, id) {
                assert forall|x: ArgId| (kind_of(x) == ArgKind::Single || kind_of(x) == ArgKind::PathValue) implies (#[trigger] c2.slots[slot_of(x)] matches Some(vs) ==> vs.len() == 1) by {
                    lemma_slot_injective(x, id);
                }
            }
        }
    }
}

proof fn lemma_short_shaped(mode: Mode, c: CmdModel, chars: Seq<char>, i: int)
    requires
        shaped(c),
    ensures
        short_step(mode, c, chars, i) matches Ok(c1) ==> shaped(c1),
    decreases chars.len() - i,
{
    if 0 <= i < chars.len() {
        if let Some(id) = short_arg(mode, chars[i]) {
            let rest = chars.subrange(i + 1, chars.len() as int);
            lemma_react_shaped(c, id, None);
            lemma_react_shaped(c, id, Some(rest.drop_first()));
            lemma_react_shaped(c, id, Some(rest));
            if !takes_value(id) {
                if let Ok(c1) = react(c, id, None) {
                    lemma_short_shaped(mode, c1, chars, i + 1);
                }
            }
        }
    }
}

proof fn lemma_cmd_step_shaped(mode: Mode, c: CmdModel, t: Seq<char>)
    requires
        shaped(c),
    ensures
        cmd_step(mode, c, t) matches Ok(c1) ==> shaped(c1),
{
    match c.pending {
        Some((pid, Some(v))) => lemma_set_value_shaped(CmdModel { pending: None, ..c }, pid, v),
        _ => {},
    }
    if !c.trailing && is_long(t) {
        let body = t.subrange(2, t.len() as int);
        let k = find_char(body, '=', 0);
        let name = body.subrange(0, k);
        if let Some(id) = long_arg(mode, name) {
            lemma_react_shaped(c, id, None);
            lemma_react_shaped(c, id, Some(body.subrange(k + 1, body.len() as int)));
        }
    }
    if !c.trailing && is_short(t) {
        lemma_short_shaped(mode, c, t.subrange(1, t.len() as int), 0);
    }
}

proof fn lemma_step_shaped(p: ParseModel, t: Seq<char>)
    requires
        shaped(p.root),
        shaped(p.sub),
    ensures
        shaped(step(p, t).root),
        shaped(step(p, t).sub),
{
    lemma_cmd_step_shaped(Mode::Root, p.root, t);
    lemma_cmd_step_shaped(p.mode, p.sub, t);
    assert(shaped(empty_cmd()));
}

proof fn lemma_run_shaped(p: ParseModel, ts: Seq<Seq<char>>)
    requires
        shaped(p.root),
        shaped(p.sub),
    ensures
        shaped(run(p, ts).root),
        shaped(run(p, ts).sub),
    decreases ts.len(),
{
    if ts.len() > 0 {
        lemma_step_shaped(p, ts[0]);
        lemma_run_shaped(step(p, ts[0]), ts.drop_first());
    }
}

/// The outcome of finishing, with the database taken from the environment
/// or not.
proof fn lemma_finish_env(p: ParseModel, e: Option<Seq<char>>, w: Option<Seq<char>>)
    requires
        shaped(p.root),
        shaped(p.sub),
        finish(p, None, w) is Ok,
    ensures
        ({
            let c = finish(p, None, w)->Ok_0;
            &&& c.database is Some ==> finish(p, e, w) == finish(p, None, w)
            &&& (c.database is None && (e matches Some(v) && v.len() > 0)) ==> finish(p, e, w) == Ok::<ConfigModel, CliErrorModel>(ConfigModel { database: e, ..c })
        }),
{
    let c0 = p.root;
    let cmd = match p.mode {
        Mode::Root => None,
        _ => Some(finish_sub(p.mode, p.sub)->Ok_0),
    };
    match c0.pending {
        Some((pid, Some(v))) => lemma_set_value_shaped(CmdModel { pending: None, ..c0 }, pid, v),
        _ => {},
    }
    let c1 = resolve(c0)->Ok_0;
    let i0 = slot_of(ArgId::Database);
    let i1 = slot_of(ArgId::Workspace);
    if let Some(v) = e {
        if !present(c1, ArgId::Database) && v.len() > 0 {
            let c2 = set_value(c1, ArgId::Database, v)->Ok_0;
            assert(c2.slots[i0] == Some(seq![v]));
            match w {
                Some(wv) => {
                    if !present(c2, ArgId::Workspace) {
                        assert(c1.slots[i1] == c2.slots[i1]);
                    }
                },
                None => {},
            }
        }
    }
    match w {
        Some(wv) => {
            if !present(c1, ArgId::Workspace) {
                lemma_set_value_shaped(c1, ArgId::Workspace, wv);
            }
        },
        None => {},
    }
}

/// A database given on the command line wins over the environment's.
pub proof fn law_command_line_beats_env(ts: Seq<Seq<char>>, e: Option<Seq<char>>, w: Option<Seq<char>>)
    requires
        parse_tokens(ts, None, w) matches Ok(c) && c.database is Some,
    ensures
        parse_tokens(ts, e, w) == parse_tokens(ts, None, w),
{
    assert(shaped(empty_cmd()));
    lemma_run_shaped(initial(), ts);
    lemma_finish_env(run(initial(), ts), e, w);
}

/// Without a database on the command line, a non-empty database from the
/// environment is used, and nothing else changes.
pub proof fn law_env_fills_database(ts: Seq<Seq<char>>, v: Seq<char>, w: Option<Seq<char>>)
    requires
        parse_tokens(ts, None, w) matches Ok(c) && c.database is None,
        v.len() > 0,
    ensures
        parse_tokens(ts, Some(v), w) == Ok::<ConfigModel, CliErrorModel>(
            ConfigModel { database: Some(v), ..parse_tokens(ts, None, w)->Ok_0 },
        ),
{
    assert(shaped(empty_cmd()));
    lemma_run_shaped(initial(), ts);
    lemma_finish_env(run(initial(), ts), Some(v), w);
}

/// A trailing `test` command with nothing pending keeps each further token.
proof fn lemma_run_trailing(q: ParseModel, r: Seq<Seq<char>>)
    requires
        q.error is None,
        q.mode == Mode::Test,
        q.sub.trailing,
        q.sub.pending is None,
    ensures
        run(q, r) == (ParseModel { sub: CmdModel { positional: q.sub.positional + r, ..q.sub }, ..q }),
    decreases r.len(),
{
    if r.len() == 0 {
        assert(q.sub.positional + r =~= q.sub.positional);
        assert(q.sub == CmdModel { positional: q.sub.positional + r, ..q.sub });
    } else {
        let q1 = step(q, r[0]);
        assert(q1 == ParseModel { sub: CmdModel { positional: q.sub.positional.push(r[0]), ..q.sub }, ..q });
        lemma_run_trailing(q1, r.drop_first());
        assert(q.sub.positional.push(r[0]) + r.drop_first() =~= q.sub.positional + r);
    }
}

/// The arguments after `test --` reach nextest unchanged and in order,
/// whatever they look like.
pub proof fn law_passthrough_kept(rest: Seq<Seq<char>>)
    ensures
        parse_tokens(seq!["test"@, "--"@] + rest, None, None) == Ok::<ConfigModel, CliErrorModel>(
            ConfigModel {
                command: Some(
                    CommandModel::Test {
                        package: Seq::empty(),
                        bin: Seq::empty(),
                        filter: None,
                        stdin: false,
                        dry_run: false,
                        no_commit: false,
                        commit: None,
                        show_output: false,
                        nextest_args: rest,
                    },
                ),
                database: None,
                workspace: None,
                verbose: false,
                quiet: false,
                skip_init: false,
            },
        ),
{
    reveal_strlit("--");
    let ts = seq!["test"@, "--"@] + rest;
    let p0 = initial();
    let p1 = step(p0, "test"@);
    assert(p1 == ParseModel { mode: Mode::Test, sub: empty_cmd(), ..p0 });
    assert(is_escape("--"@));
    let p2 = step(p1, "--"@);
    assert(p2 == ParseModel { sub: CmdModel { trailing: true, ..empty_cmd() }, ..p1 });
    assert(ts[0] == "test"@ && ts.drop_first()[0] == "--"@ && ts.drop_first().drop_first() =~= rest);
    assert(run(p0, ts) == run(p1, ts.drop_first()));
    assert(run(p1, ts.drop_first()) == run(p2, ts.drop_first().drop_first()));
    lemma_run_trailing(p2, rest);
    assert(Seq::<Seq<char>>::empty() + rest =~= rest);
    let c = CmdModel { positional: rest, ..p2.sub };
    assert(check_conflicts(c) == Ok::<CmdModel, CliErrorModel>(c));
    assert(multi(c, ArgId::Package) =~= Seq::<Seq<char>>::empty());
    assert(multi(c, ArgId::Bin) =~= Seq::<Seq<char>>::empty());
}

/// After a subcommand, a long name that the subcommand does not know is an
/// unknown argument, even when it names a global option.
pub proof fn law_unknown_in_subcommand(p: ParseModel, name: Seq<char>)
    requires
        p.error is None,
        p.mode == Mode::Test || p.mode == Mode::Ingest,
        !p.sub.trailing,
        name.len() >= 1,
        plain_name(name),
        long_arg(p.mode, name) is None,
    ensures
        step(p, long_token(name)).error == Some(crate::cli::grammar::err_unknown(long_token(name))),
{
    let t = long_token(name);
    assert(is_long(t) && !is_escape(t));
    assert(t.subrange(2, t.len() as int) =~= name);
    lemma_find_no_char(name, '=', 0);
    assert(name.subrange(0, name.len() as int) =~= name);
}

/// A flag given a second time is a conflict.
pub proof fn law_repeated_flag_conflicts(mode: Mode, c: CmdModel, name: Seq<char>)
    requires
        !c.trailing,
        c.pending is None,
        name.len() >= 1,
        plain_name(name),
        long_arg(mode, name) matches Some(id) && kind_of(id) == ArgKind::Flag && present(c, id),
    ensures
        cmd_step(mode, c, long_token(name)) == Err::<CmdModel, CliErrorModel>(
            err_conflict(long_arg(mode, name)->0, long_arg(mode, name)->0),
        ),
{
    lemma_long_flag_step(mode, c, name);
}

} // verus!
