//! Schema migrations: which to apply, which to roll back, and when the
//! schema is current.

use vstd::prelude::*;

verus! {

/// The schema version this program expects.
pub const CURRENT_VERSION: i32 = 1;

/// A schema migration.
#[derive(Debug)]
pub struct Migration {
    /// Version number, increasing.
    pub version: i32,
    /// Name.
    pub name: &'static str,
    /// SQL that applies it.
    pub up: &'static str,
    /// SQL that undoes it, when it can be undone.
    pub down: Option<&'static str>,
}

/// Migration errors; the database's carries its message.
#[derive(Debug)]
pub enum MigrationError {
    Sqlite(String),
    VersionMismatch { expected: i32, found: i32 },
    AlreadyApplied { version: i32 },
}

/// The versions of some migrations.
pub open spec fn versions(ms: Seq<Migration>) -> Seq<i32> {
    ms.map_values(|m: Migration| m.version)
}

/// The versions above `current`, in order: the migrations still to apply.
pub open spec fn pending_of(vs: Seq<i32>, current: i32) -> Seq<i32> {
    vs.filter(|v: i32| v > current)
}

/// The largest of `current` and the versions.
pub open spec fn top_version(vs: Seq<i32>, current: i32) -> i32
    decreases vs.len(),
{
    if vs.len() == 0 {
        current
    } else {
        let t = top_version(vs.drop_last(), current);
        if vs.last() > t {
            vs.last()
        } else {
            t
        }
    }
}

/// The migrations to apply to a schema at version `current`, in order.
pub fn pending_versions(ms: &[Migration], current: i32) -> (r: Vec<i32>)
    ensures
        r@ == pending_of(versions(ms@), current),
{
    let mut r: Vec<i32> = Vec::new();
    let mut i: usize = 0;
    while i < ms.len()
        invariant
            i <= ms@.len(),
            r@ == pending_of(versions(ms@.take(i as int)), current),
        decreases ms@.len() - i,
    {
        let v = ms[i].version;
        proof {
            assert(versions(ms@.take(i + 1)) =~= versions(ms@.take(i as int)).push(v));
            versions(ms@.take(i as int)).lemma_filter_push(v, |v: i32| v > current);
        }
        if v > current {
            r.push(v);
        }
        i = i + 1;
    }
    assert(ms@.take(i as int) =~= ms@);
    r
}

/// The migrations to undo to go from `current` down to `target`, newest
/// first: those above `target` and at most `current` that can be undone.
pub open spec fn rollback_of(ms: Seq<Migration>, target: i32, current: i32) -> Seq<int>
    decreases ms.len(),
{
    if ms.len() == 0 {
        Seq::empty()
    } else {
        let last = ms.last();
        let rest = rollback_of(ms.drop_last(), target, current);
        if last.version > target && last.version <= current && last.down is Some {
            seq![ms.len() - 1] + rest
        } else {
            rest
        }
    }
}

/// The positions of the migrations to undo, newest first.
pub fn rollback_plan(ms: &[Migration], target: i32, current: i32) -> (r: Vec<usize>)
    ensures
        r@.map_values(|k: usize| k as int) == rollback_of(ms@, target, current),
{
    let mut r: Vec<usize> = Vec::new();
    let mut i: usize = ms.len();
    assert(ms@.take(i as int) =~= ms@);
    while i > 0
        invariant
            i <= ms@.len(),
            r@.map_values(|k: usize| k as int) + rollback_of(ms@.take(i as int), target, current) == rollback_of(ms@, target, current),
        decreases i,
    {
        let m = &ms[i - 1];
        let ghost pre = ms@.take(i as int);
        assert(pre.drop_last() =~= ms@.take(i - 1));
        assert(pre.last() == ms@[i - 1]);
        let ghost before = r@.map_values(|k: usize| k as int);
        if m.version > target && m.version <= current && m.down.is_some() {
            r.push(i - 1);
            assert(r@.map_values(|k: usize| k as int) =~= before.push(i - 1));
            assert(before.push(i - 1) + rollback_of(ms@.take(i - 1), target, current) =~= before + (seq![i - 1] + rollback_of(ms@.take(i - 1), target, current)));
        }
        i = i - 1;
    }
    assert(rollback_of(ms@.take(0), target, current) =~= Seq::<int>::empty());
    assert(r@.map_values(|k: usize| k as int) + Seq::<int>::empty() =~= r@.map_values(|k: usize| k as int));
    r
}

/// The schema's version from what the database says: 0 without the
/// migrations table, else the largest recorded version (0 when it cannot be
/// read).
pub fn version_from(table_count: i32, recorded: Option<i32>) -> (v: i32)
    ensures
        v == if table_count == 0 {
            0
        } else {
            match recorded {
                Some(x) => x,
                None => 0,
            }
        },
{
    if table_count == 0 {
        return 0;
    }
    match recorded {
        Some(x) => x,
        None => 0,
    }
}

/// Whether a schema whose version could be read (`Some`) is current.
pub fn is_up_to_date(version: Option<i32>) -> (b: bool)
    ensures
        b == (version matches Some(v) && v >= CURRENT_VERSION),
{
    match version {
        Some(v) => v >= CURRENT_VERSION,
        None => false,
    }
}

pub proof fn lemma_top_version(vs: Seq<i32>, current: i32)
    ensures
        top_version(vs, current) >= current,
        forall|k: int| 0 <= k < vs.len() ==> top_version(vs, current) >= vs[k],
    decreases vs.len(),
{
    if vs.len() > 0 {
        lemma_top_version(vs.drop_last(), current);
        assert forall|k: int| 0 <= k < vs.len() implies top_version(vs, current) >= vs[k] by {
            if k < vs.len() - 1 {
                assert(vs.drop_last()[k] == vs[k]);
            }
        }
    }
}

proof fn lemma_none_above(vs: Seq<i32>, t: i32)
    requires
        forall|k: int| 0 <= k < vs.len() ==> vs[k] <= t,
    ensures
        pending_of(vs, t).len() == 0,
    decreases vs.len(),
{
    reveal(Seq::filter);
    if vs.len() > 0 {
        lemma_none_above(vs.drop_last(), t);
        assert(vs.last() <= t);
    }
}

/// Migrating twice applies nothing the second time: once the schema is at
/// the largest version applied, no migration is pending.
pub proof fn law_migrate_idempotent(vs: Seq<i32>, current: i32)
    ensures
        pending_of(vs, top_version(vs, current)).len() == 0,
{
    lemma_top_version(vs, current);
    let t = top_version(vs, current);
    lemma_none_above(vs, t);
}

} // verus!
