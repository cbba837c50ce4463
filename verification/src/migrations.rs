//! The schema and its versioned migrations, tracked in `PRAGMA user_version`.

use vstd::prelude::*;
use crate::decimal::{decimal, push_decimal};
use crate::error::DbError;
use crate::queries::{added, extends, integer_kinds, integer_of, single_integer};
use crate::sql::{params_view, strs_view, Exchange, ParamView, SqlParam, Store};

verus! {

/// Version 1 of the schema: the system prompts.
pub const SYSTEM_PROMPTS_SQL: &'static str = "CREATE TABLE IF NOT EXISTS system_prompts (
    id INTEGER PRIMARY KEY AUTOINCREMENT,
    name TEXT NOT NULL,
    prompt TEXT NOT NULL,
    created_at INTEGER NOT NULL DEFAULT (strftime('%s', 'now')),
    updated_at INTEGER NOT NULL DEFAULT (strftime('%s', 'now'))
);
CREATE TRIGGER IF NOT EXISTS system_prompts_touch_updated_at
AFTER UPDATE OF name, prompt ON system_prompts
FOR EACH ROW
BEGIN
    UPDATE system_prompts SET updated_at = strftime('%s', 'now') WHERE id = NEW.id;
END;";

/// Version 2 of the schema: conversations and their messages.
pub const CHAT_HISTORY_SQL: &'static str = "CREATE TABLE IF NOT EXISTS conversations (
    id TEXT PRIMARY KEY,
    title TEXT NOT NULL,
    created_at INTEGER NOT NULL,
    updated_at INTEGER NOT NULL
);
CREATE TABLE IF NOT EXISTS messages (
    id TEXT PRIMARY KEY,
    conversation_id TEXT NOT NULL REFERENCES conversations(id) ON DELETE CASCADE,
    role TEXT NOT NULL,
    content TEXT NOT NULL,
    timestamp INTEGER NOT NULL,
    attached_files TEXT
);
CREATE INDEX IF NOT EXISTS messages_by_conversation ON messages(conversation_id, timestamp);
CREATE TRIGGER IF NOT EXISTS messages_touch_conversation
AFTER INSERT ON messages
FOR EACH ROW
BEGIN
    UPDATE conversations SET updated_at = NEW.timestamp WHERE id = NEW.conversation_id;
END;";

/// One step of the schema: the SQL that brings it to `version`.
pub struct Migration {
    pub version: i64,
    pub sql: &'static str,
}

/// The migrations this store knows, in ascending version order.
pub fn known_migrations() -> (ms: Vec<Migration>)
    ensures
        ms@.len() == 2,
        ms@[0].version == 1 && ms@[0].sql == SYSTEM_PROMPTS_SQL,
        ms@[1].version == 2 && ms@[1].sql == CHAT_HISTORY_SQL,
        well_ordered(versions_of(ms@)),
{
    let mut ms: Vec<Migration> = Vec::new();
    ms.push(Migration { version: 1, sql: SYSTEM_PROMPTS_SQL });
    ms.push(Migration { version: 2, sql: CHAT_HISTORY_SQL });
    ms
}

/// The versions of a list of migrations, in its order.
pub open spec fn versions_of(ms: Seq<Migration>) -> Seq<i64> {
    Seq::new(ms.len(), |i: int| ms[i].version)
}

/// Versions strictly increasing and all above 0 (0 being the version of an
/// empty database).
pub open spec fn well_ordered(vs: Seq<i64>) -> bool {
    &&& forall|i: int, j: int| 0 <= i < j < vs.len() ==> vs[i] < vs[j]
    &&& forall|i: int| 0 <= i < vs.len() ==> vs[i] > 0
}

/// The positions, in ascending order, of the versions above `current`.
pub open spec fn pending_positions(vs: Seq<i64>, current: i64) -> Seq<usize>
    decreases vs.len(),
{
    if vs.len() == 0 {
        Seq::empty()
    } else {
        let earlier = pending_positions(vs.drop_last(), current);
        if vs.last() > current {
            earlier.push((vs.len() - 1) as usize)
        } else {
            earlier
        }
    }
}

/// The newest known version, 0 when none is known.
pub open spec fn latest_version(vs: Seq<i64>) -> i64 {
    if vs.len() == 0 {
        0
    } else {
        vs.last()
    }
}

/// What bringing a database up to date takes.
pub enum MigrationPlan {
    /// The schema is already there (it was made before versions were kept
    /// in `user_version`): only record `version` as the current one.
    Stamp(i64),
    /// Run these migrations, by position in the known list, in this order.
    Apply(Vec<usize>),
}

/// The plan, as a value of spec code.
pub enum PlanView {
    Stamp(i64),
    Apply(Seq<usize>),
}

/// The plan for a database at version `current`; `legacy` tells whether it
/// holds the bookkeeping table of the earlier migration tool.
pub open spec fn spec_plan(vs: Seq<i64>, current: i64, legacy: bool) -> PlanView {
    if current == 0 && legacy {
        PlanView::Stamp(latest_version(vs))
    } else {
        PlanView::Apply(pending_positions(vs, current))
    }
}

impl MigrationPlan {
    pub open spec fn view(&self) -> PlanView {
        match self {
            MigrationPlan::Stamp(v) => PlanView::Stamp(*v),
            MigrationPlan::Apply(ps) => PlanView::Apply(ps@),
        }
    }
}

/// The `user_version` a database has once the plan has run.
pub open spec fn version_after(vs: Seq<i64>, current: i64, legacy: bool) -> i64 {
    match spec_plan(vs, current, legacy) {
        PlanView::Stamp(v) => v,
        PlanView::Apply(ps) => if ps.len() == 0 {
            current
        } else {
            vs[ps.last() as int]
        },
    }
}

/// Decides what `run_migrations` does to a database at version `current`:
/// a database that the earlier migration tool managed (`legacy`) and that
/// has no version yet already holds the whole schema, so it is only
/// stamped with the newest version; any other runs, in order, every known
/// migration newer than `current`.
pub fn plan_migrations(ms: &Vec<Migration>, current: i64, legacy: bool) -> (plan: MigrationPlan)
    ensures
        plan.view() == spec_plan(versions_of(ms@), current, legacy),
{
    let ghost vs = versions_of(ms@);
    if current == 0 && legacy {
        let n = ms.len();
        let latest = if n == 0 { 0 } else { ms[n - 1].version };
        return MigrationPlan::Stamp(latest);
    }
    let mut ps: Vec<usize> = Vec::new();
    let n = ms.len();
    for i in 0..n
        invariant
            n == ms@.len(),
            vs == versions_of(ms@),
            ps@ == pending_positions(vs.take(i as int), current),
    {
        assert(vs.take(i + 1).drop_last() =~= vs.take(i as int));
        if ms[i].version > current {
            ps.push(i);
        }
    }
    assert(vs.take(n as int) =~= vs);
    MigrationPlan::Apply(ps)
}

/// Every position in the pending list is in range and holds a version
/// above `current`, the list is strictly increasing, and every version
/// above `current` has its position in the list.
pub proof fn lemma_pending_positions(vs: Seq<i64>, current: i64)
    requires
        vs.len() <= usize::MAX,
    ensures
        forall|k: int|
            0 <= k < pending_positions(vs, current).len() ==> {
                let p = #[trigger] pending_positions(vs, current)[k] as int;
                0 <= p < vs.len() && vs[p] > current
            },
        forall|k: int, l: int|
            0 <= k < l < pending_positions(vs, current).len() ==> pending_positions(vs, current)[k]
                < pending_positions(vs, current)[l],
        forall|p: int|
            0 <= p < vs.len() && vs[p] > current ==> #[trigger] pending_positions(
                vs,
                current,
            ).contains(p as usize),
    decreases vs.len(),
{
    if vs.len() > 0 {
        let ps = pending_positions(vs, current);
        let earlier = pending_positions(vs.drop_last(), current);
        lemma_pending_positions(vs.drop_last(), current);
        let last = (vs.len() - 1) as usize;
        assert forall|k: int| 0 <= k < ps.len() implies {
            let p = #[trigger] ps[k] as int;
            0 <= p < vs.len() && vs[p] > current
        } by {
            if k < earlier.len() {
                assert(ps[k] == earlier[k]);
                assert(vs.drop_last()[earlier[k] as int] == vs[earlier[k] as int]);
            }
        }
        assert forall|k: int, l: int| 0 <= k < l < ps.len() implies ps[k] < ps[l] by {
            if l < earlier.len() {
                assert(ps[k] == earlier[k] && ps[l] == earlier[l]);
            } else {
                assert(ps[k] == earlier[k]);
                assert(ps[l] == last);
            }
        }
        assert forall|p: int| 0 <= p < vs.len() && vs[p] > current implies #[trigger] ps.contains(
            p as usize,
        ) by {
            if p < vs.len() - 1 {
                assert(vs.drop_last()[p] == vs[p]);
                assert(earlier.contains(p as usize));
                let k = choose|k: int| 0 <= k < earlier.len() && earlier[k] == p as usize;
                assert(ps[k] == p as usize);
            } else {
                assert(ps[ps.len() - 1] == p as usize);
            }
        }
    }
}

/// No migration is pending at or above the newest version.
proof fn lemma_nothing_pending_at_latest(vs: Seq<i64>, current: i64)
    requires
        vs.len() <= usize::MAX,
        well_ordered(vs),
        vs.len() > 0,
        current >= vs.last(),
    ensures
        pending_positions(vs, current).len() == 0,
{
    lemma_pending_positions(vs, current);
    if pending_positions(vs, current).len() > 0 {
        let p = pending_positions(vs, current)[0] as int;
        assert(vs[p] > current);
        if p < vs.len() - 1 {
            assert(vs[p] < vs[vs.len() - 1]);
        }
    }
}

/// Once the plan has run, the database is at the newest known version (or
/// stays where it was if it was already newer), and planning again finds
/// nothing to do: running the migrations twice is running them once.
pub proof fn lemma_migrations_settle(vs: Seq<i64>, current: i64, legacy: bool, legacy_again: bool)
    requires
        vs.len() <= usize::MAX,
        well_ordered(vs),
        vs.len() > 0,
    ensures
        version_after(vs, current, legacy) == if current > vs.last() {
            current
        } else {
            vs.last()
        },
        version_after(vs, current, legacy) != 0,
        spec_plan(vs, version_after(vs, current, legacy), legacy_again) == PlanView::Apply(
            Seq::<usize>::empty(),
        ),
{
    let ps = pending_positions(vs, current);
    let last = (vs.len() - 1) as usize;
    lemma_pending_positions(vs, current);
    if !(current == 0 && legacy) {
        if current < vs.last() {
            assert(ps.contains(last));
            let k = choose|k: int| 0 <= k < ps.len() && ps[k] == last;
            if k < ps.len() - 1 {
                assert(ps[k] < ps[ps.len() - 1]);
            }
            assert(ps.last() == last);
            assert(version_after(vs, current, legacy) == vs.last());
        } else {
            lemma_nothing_pending_at_latest(vs, current);
            assert(version_after(vs, current, legacy) == current);
        }
    }
    let after = version_after(vs, current, legacy);
    lemma_nothing_pending_at_latest(vs, after);
    assert(pending_positions(vs, after) =~= Seq::<usize>::empty());
}

/// The statement that records `version` as the schema's version.
pub open spec fn user_version_statement(version: i64) -> Seq<char> {
    "PRAGMA user_version = "@ + decimal(version as int) + ";"@
}

/// Builds `PRAGMA user_version = <version>;`.
pub fn user_version_sql(version: i64) -> (s: String)
    ensures
        s@ == user_version_statement(version),
{
    let mut s = "PRAGMA user_version = ".to_owned();
    push_decimal(version, &mut s);
    s.append(";");
    s
}

pub const FOREIGN_KEYS_SQL: &'static str = "PRAGMA foreign_keys = ON;";

pub const USER_VERSION_SQL: &'static str = "PRAGMA user_version;";

pub const SQLX_TABLE_SQL: &'static str =
    "SELECT COUNT(*) FROM sqlite_master WHERE type='table' AND name='_sqlx_migrations';";

/// The versions of the known migrations.
pub open spec fn known_versions() -> Seq<i64> {
    seq![1i64, 2i64]
}

/// The SQL of the known migration at `position`.
pub open spec fn known_sql(position: int) -> Seq<char> {
    if position == 0 {
        SYSTEM_PROMPTS_SQL@
    } else {
        CHAT_HISTORY_SQL@
    }
}

/// The batches run in the transaction of the known migration at
/// `position`: its SQL, then the statement recording its version.
pub open spec fn migration_batches(position: int) -> Seq<Seq<char>> {
    seq![known_sql(position), user_version_statement(known_versions()[position])]
}

/// The first `k` migrations of `positions`, each committed.
pub open spec fn committed(positions: Seq<usize>, k: int) -> Seq<Exchange> {
    Seq::new(
        k as nat,
        |j: int| Exchange::Transaction { batches: migration_batches(positions[j] as int), ok: true },
    )
}

/// Carrying out `plan`: `t` are its exchanges.
pub open spec fn follows_plan(plan: PlanView, t: Seq<Exchange>, r: Result<(), DbError>) -> bool {
    match plan {
        PlanView::Stamp(v) => t.len() == 1 && match t[0] {
            Exchange::Batch { sql, ok } => sql == user_version_statement(v) && if ok {
                r is Ok
            } else {
                r matches Err(DbError::Sqlite(_))
            },
            _ => false,
        },
        PlanView::Apply(ps) => {
            ||| t == committed(ps, ps.len() as int) && r is Ok
            ||| exists|k: int|
                0 <= k < ps.len() && t == #[trigger] committed(ps, k).push(
                    Exchange::Transaction { batches: migration_batches(ps[k] as int), ok: false },
                ) && r matches Err(DbError::Sqlite(_))
        },
    }
}

/// The version `run_migrations` read, when it read one.
pub open spec fn version_read(d: Seq<Exchange>) -> Option<i64> {
    if d.len() >= 2 {
        match d[1] {
            Exchange::Query { rows, .. } => match rows {
                Some(v) => if v.len() > 0 {
                    Some(integer_of(v[0][0]))
                } else {
                    None
                },
                None => None,
            },
            _ => None,
        }
    } else {
        None
    }
}

/// Running the migrations: foreign keys on; the recorded version read;
/// at version 0, whether the earlier tool's table exists; then the plan
/// of `plan_migrations` carried out.
pub open spec fn runs_migrations(d: Seq<Exchange>, r: Result<(), DbError>) -> bool {
    &&& d.len() >= 1
    &&& match d[0] {
        Exchange::Batch { sql, ok } => sql == FOREIGN_KEYS_SQL@ && if !ok {
            d.len() == 1 && r matches Err(DbError::Sqlite(_))
        } else {
            reads_version(d, r)
        },
        _ => false,
    }
}

pub open spec fn reads_version(d: Seq<Exchange>, r: Result<(), DbError>) -> bool {
    &&& d.len() >= 2
    &&& match d[1] {
        Exchange::Query { sql, params, rows } => {
            &&& sql == USER_VERSION_SQL@
            &&& params == Seq::<ParamView>::empty()
            &&& match rows {
                None => d.len() == 2 && r matches Err(DbError::Sqlite(_)),
                Some(v) => if v.len() == 0 {
                    d.len() == 2 && r matches Err(DbError::Sqlite(_))
                } else if integer_of(v[0][0]) == 0 {
                    reads_legacy(d, r)
                } else {
                    follows_plan(
                        spec_plan(known_versions(), integer_of(v[0][0]), false),
                        d.subrange(2, d.len() as int),
                        r,
                    )
                },
            }
        },
        _ => false,
    }
}

pub open spec fn reads_legacy(d: Seq<Exchange>, r: Result<(), DbError>) -> bool {
    &&& d.len() >= 3
    &&& match d[2] {
        Exchange::Query { sql, params, rows } => {
            &&& sql == SQLX_TABLE_SQL@
            &&& params == Seq::<ParamView>::empty()
            &&& match rows {
                None => d.len() == 3 && r matches Err(DbError::Sqlite(_)),
                Some(c) => if c.len() == 0 {
                    d.len() == 3 && r matches Err(DbError::Sqlite(_))
                } else {
                    follows_plan(
                        spec_plan(known_versions(), 0, integer_of(c[0][0]) > 0),
                        d.subrange(3, d.len() as int),
                        r,
                    )
                },
            }
        },
        _ => false,
    }
}

/// The schema version recorded in the database.
fn user_version(store: &mut Store) -> (r: Result<i64, DbError>)
    ensures
        final(store).journal().len() == old(store).journal().len() + 1,
        final(store).journal().drop_last() == old(store).journal(),
        final(store).journal().last() matches Exchange::Query { sql, params, rows } && sql
            == USER_VERSION_SQL@ && params == Seq::<ParamView>::empty() && match rows {
            None => r matches Err(DbError::Sqlite(_)),
            Some(v) => if v.len() == 0 {
                r matches Err(DbError::Sqlite(_))
            } else {
                r == Ok::<i64, DbError>(integer_of(v[0][0]))
            },
        },
{
    let params: Vec<SqlParam> = Vec::new();
    assert(params_view(params@) =~= Seq::<ParamView>::empty());
    match store.query_rows(USER_VERSION_SQL, params, &integer_kinds()) {
        Err(e) => Err(DbError::Sqlite(e)),
        Ok(rows) => single_integer(&rows),
    }
}

/// Whether the bookkeeping table of the earlier migration tool exists.
fn has_sqlx_migrations(store: &mut Store) -> (r: Result<bool, DbError>)
    ensures
        final(store).journal().len() == old(store).journal().len() + 1,
        final(store).journal().drop_last() == old(store).journal(),
        final(store).journal().last() matches Exchange::Query { sql, params, rows } && sql
            == SQLX_TABLE_SQL@ && params == Seq::<ParamView>::empty() && match rows {
            None => r matches Err(DbError::Sqlite(_)),
            Some(c) => if c.len() == 0 {
                r matches Err(DbError::Sqlite(_))
            } else {
                r == Ok::<bool, DbError>(integer_of(c[0][0]) > 0)
            },
        },
{
    let params: Vec<SqlParam> = Vec::new();
    assert(params_view(params@) =~= Seq::<ParamView>::empty());
    match store.query_rows(SQLX_TABLE_SQL, params, &integer_kinds()) {
        Err(e) => Err(DbError::Sqlite(e)),
        Ok(rows) => {
            let n = single_integer(&rows)?;
            Ok(n > 0)
        },
    }
}

/// Records `version` as the schema version.
fn set_user_version(store: &mut Store, version: i64) -> (r: Result<(), DbError>)
    ensures
        final(store).journal() == old(store).journal().push(
            Exchange::Batch { sql: user_version_statement(version), ok: r is Ok },
        ),
        r matches Err(e) ==> e is Sqlite,
{
    let sql = user_version_sql(version);
    match store.execute_batch(sql.as_str()) {
        Err(e) => Err(DbError::Sqlite(e)),
        Ok(()) => Ok(()),
    }
}

/// Runs one migration and records its version, both in one transaction.
fn apply_migration(store: &mut Store, m: &Migration) -> (r: Result<(), DbError>)
    ensures
        final(store).journal() == old(store).journal().push(
            Exchange::Transaction {
                batches: seq![m.sql@, user_version_statement(m.version)],
                ok: r is Ok,
            },
        ),
        r matches Err(e) ==> e is Sqlite,
{
    let stamp = user_version_sql(m.version);
    let batches = vec![m.sql, stamp.as_str()];
    assert(strs_view(batches@) =~= seq![m.sql@, user_version_statement(m.version)]);
    match store.batches_in_transaction(&batches) {
        Err(e) => Err(DbError::Sqlite(e)),
        Ok(()) => Ok(()),
    }
}

/// `e` is the query `sql`, without parameters, answered with a first row
/// whose first column is `n`.
pub open spec fn answered_integer(e: Exchange, sql: Seq<char>, n: i64) -> bool {
    match e {
        Exchange::Query { sql: sent, params, rows } => {
            &&& sent == sql
            &&& params == Seq::<ParamView>::empty()
            &&& match rows {
                Some(v) => v.len() > 0 && integer_of(v[0][0]) == n,
                None => false,
            }
        },
        _ => false,
    }
}

/// The exchanges of `run_migrations` before it carries out its plan: foreign
/// keys turned on, the version `current` read and, at version 0, the
/// earlier tool's table looked up (`legacy` when it is there).
pub open spec fn reads_before_plan(pre: Seq<Exchange>, current: i64, legacy: bool) -> bool {
    &&& pre.len() >= 2
    &&& pre[0] == Exchange::Batch { sql: FOREIGN_KEYS_SQL@, ok: true }
    &&& answered_integer(pre[1], USER_VERSION_SQL@, current)
    &&& if current == 0 {
        &&& pre.len() == 3
        &&& exists|n: i64| answered_integer(pre[2], SQLX_TABLE_SQL@, n) && (n > 0) == legacy
    } else {
        pre.len() == 2 && !legacy
    }
}

proof fn lemma_runs_migrations_after_reads(
    pre: Seq<Exchange>,
    t: Seq<Exchange>,
    current: i64,
    legacy: bool,
    r: Result<(), DbError>,
)
    requires
        reads_before_plan(pre, current, legacy),
        follows_plan(spec_plan(known_versions(), current, legacy), t, r),
    ensures
        runs_migrations(pre + t, r),
{
    let d = pre + t;
    assert(d.subrange(pre.len() as int, d.len() as int) =~= t);
    assert(d[0] == pre[0]);
    assert(d[1] == pre[1]);
    if current == 0 {
        assert(d[2] == pre[2]);
    }
}

/// Turns foreign keys on and brings the schema up to date, as
/// `plan_migrations` decides from the recorded version and from whether
/// the earlier migration tool's table is there.
pub fn run_migrations(store: &mut Store) -> (r: Result<(), DbError>)
    ensures
        extends(old(store).journal(), final(store).journal()),
        runs_migrations(added(old(store).journal(), final(store).journal()), r),
{
    let ghost j0 = store.journal();
    let fk = store.execute_batch(FOREIGN_KEYS_SQL);
    let ghost j1 = store.journal();
    if let Err(e) = fk {
        proof {
            crate::queries::lemma_added_one(j0, j1.last());
        }
        return Err(DbError::Sqlite(e));
    }
    let current = user_version(store);
    let ghost j2 = store.journal();
    proof {
        assert(j2 == j1.push(j2.last()));
        crate::queries::lemma_added_two(j0, j1.last(), j2.last());
    }
    let current = match current {
        Err(e) => {
            return Err(e);
        },
        Ok(v) => v,
    };
    let legacy = if current == 0 {
        let l = has_sqlx_migrations(store);
        proof {
            assert(store.journal() == j2.push(store.journal().last()));
            crate::queries::lemma_added_three(j0, j1.last(), j2.last(), store.journal().last());
        }
        match l {
            Err(e) => {
                return Err(e);
            },
            Ok(b) => {
                proof {
                    let pre = added(j0, store.journal());
                    let c = match store.journal().last() {
                        Exchange::Query { rows, .. } => rows.unwrap(),
                        _ => Seq::empty(),
                    };
                    assert(answered_integer(pre[2], SQLX_TABLE_SQL@, integer_of(c[0][0])));
                    assert(reads_before_plan(pre, current, b));
                }
                b
            },
        }
    } else {
        proof {
            assert(reads_before_plan(added(j0, store.journal()), current, false));
        }
        false
    };
    let ghost j3 = store.journal();
    let ghost pre = added(j0, j3);
    proof {
        assert(extends(j0, j3));
    }
    let ms = known_migrations();
    proof {
        assert(versions_of(ms@) =~= known_versions());
    }
    let plan = plan_migrations(&ms, current, legacy);
    match plan {
        MigrationPlan::Stamp(version) => {
            let r = set_user_version(store, version);
            proof {
                lemma_extend_by(j0, j3, store.journal().last());
                let t = seq![store.journal().last()];
                assert(added(j0, store.journal()) =~= pre + t);
                assert(plan.view() == PlanView::Stamp(version));
                assert(spec_plan(known_versions(), current, legacy) == PlanView::Stamp(version));
                assert(t[0] == Exchange::Batch { sql: user_version_statement(version), ok: r is Ok });
                assert(follows_plan(PlanView::Stamp(version), t, r));
                lemma_runs_migrations_after_reads(pre, t, current, legacy, r);
            }
            r
        },
        MigrationPlan::Apply(positions) => {
            let n = positions.len();
            proof {
                lemma_pending_positions(known_versions(), current);
                assert(committed(positions@, 0) =~= Seq::<Exchange>::empty());
                assert(pre + committed(positions@, 0) =~= pre);
            }
            for k in 0..n
                invariant
                    n == positions@.len(),
                    ms@.len() == 2,
                    versions_of(ms@) == known_versions(),
                    ms@[0].sql == SYSTEM_PROMPTS_SQL && ms@[1].sql == CHAT_HISTORY_SQL,
                    spec_plan(known_versions(), current, legacy) == PlanView::Apply(positions@),
                    forall|j: int| 0 <= j < positions@.len() ==> positions@[j] < 2,
                    reads_before_plan(pre, current, legacy),
                    j0 == old(store).journal(),
                    extends(j0, store.journal()),
                    added(j0, store.journal()) == pre + committed(positions@, k as int),
            {
                let p = positions[k];
                let ghost jk = store.journal();
                let step = apply_migration(store, &ms[p]);
                proof {
                    lemma_extend_by(j0, jk, store.journal().last());
                    assert(ms@[p as int].version == versions_of(ms@)[p as int]);
                    assert(ms@[p as int].sql@ == known_sql(p as int));
                    assert(committed(positions@, k + 1) =~= committed(positions@, k as int).push(
                        Exchange::Transaction { batches: migration_batches(p as int), ok: true },
                    ));
                }
                if let Err(e) = step {
                    proof {
                        let t = committed(positions@, k as int).push(
                            Exchange::Transaction { batches: migration_batches(p as int), ok: false },
                        );
                        assert(added(j0, store.journal()) =~= pre + t);
                        assert(follows_plan(PlanView::Apply(positions@), t, Err::<(), DbError>(e)));
                        lemma_runs_migrations_after_reads(pre, t, current, legacy, Err(e));
                        assert(extends(j0, store.journal()));
                        assert(runs_migrations(added(j0, store.journal()), Err::<(), DbError>(e)));
                    }
                    return Err(e);
                }
                proof {
                    assert(pre + committed(positions@, k + 1) =~= (pre + committed(positions@, k as int)).push(
                        store.journal().last(),
                    ));
                }
            }
            proof {
                lemma_runs_migrations_after_reads(
                    pre,
                    committed(positions@, n as int),
                    current,
                    legacy,
                    Ok(()),
                );
            }
            Ok(())
        },
    }
}

/// Whether the earlier tool's table was found, when a run looked for it.
pub open spec fn legacy_read(d: Seq<Exchange>) -> bool {
    if d.len() >= 3 {
        match d[2] {
            Exchange::Query { rows, .. } => match rows {
                Some(c) => c.len() > 0 && integer_of(c[0][0]) > 0,
                None => false,
            },
            _ => false,
        }
    } else {
        false
    }
}

/// The version that a successful run, whose exchanges are `d`, leaves
/// recorded: what its plan brings the version it read to.
pub open spec fn version_left(d: Seq<Exchange>) -> i64 {
    match version_read(d) {
        Some(current) => version_after(known_versions(), current, current == 0 && legacy_read(d)),
        None => 0,
    }
}

/// Running the migrations twice is running them once: after a successful
/// run `d1`, a second run `d2` whose version query SQLite answers with the
/// version that the first run recorded sends nothing after that query (no
/// migration, no stamp) and succeeds; and that version is the newest known
/// one, or the version read if it was newer still.
pub proof fn lemma_second_run_does_nothing(
    d1: Seq<Exchange>,
    r1: Result<(), DbError>,
    d2: Seq<Exchange>,
    r2: Result<(), DbError>,
)
    requires
        runs_migrations(d1, r1),
        r1 is Ok,
        runs_migrations(d2, r2),
        version_read(d2) == Some(version_left(d1)),
    ensures
        version_read(d1) matches Some(current) && version_left(d1) == if current > 2 {
            current
        } else {
            2
        },
        d2.len() == 2,
        r2 is Ok,
{
    let vs = known_versions();
    let current = version_read(d1)->0;
    let legacy = current == 0 && legacy_read(d1);
    lemma_migrations_settle(vs, current, legacy, false);
    let after = version_left(d1);
    assert(after != 0);
    assert(spec_plan(vs, after, false) == PlanView::Apply(Seq::<usize>::empty()));
    let t = d2.subrange(2, d2.len() as int);
    assert(follows_plan(PlanView::Apply(Seq::<usize>::empty()), t, r2));
    assert(committed(Seq::<usize>::empty(), 0) =~= Seq::<Exchange>::empty());
    assert(t.len() == 0);
}

/// Adding one exchange to a journal that extends `j0` extends it too, by
/// one more exchange.
proof fn lemma_extend_by(j0: Seq<Exchange>, j: Seq<Exchange>, e: Exchange)
    requires
        extends(j0, j),
    ensures
        extends(j0, j.push(e)),
        added(j0, j.push(e)) == added(j0, j).push(e),
{
    assert(j.push(e).subrange(0, j0.len() as int) =~= j.subrange(0, j0.len() as int));
    assert(added(j0, j.push(e)) =~= added(j0, j).push(e));
}

} // verus!
