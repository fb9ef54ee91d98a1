//! The versioned schema-migration engine.
//!
//! A state machine over one integer, the current version, read from a
//! persisted ledger. `migrate` plans the span of migrations strictly between
//! the current version and the target, applies them ascending or reverts
//! them descending, and runs every step inside one write-intent transaction
//! together with its ledger row, so a failing script never leaves the schema
//! and the ledger out of step.

use vstd::prelude::*;
use vstd::seq_lib::*;

use crate::backend::{instant_now, millis_since, now_rfc3339};
use crate::connection::{DatabaseConnection, TransactionHandle};
use crate::errors::DatabaseError;
use crate::sql::SqlValue;

verus! {

/// One immutable schema change: a version, a forward script, and an
/// optional reverse script.
#[derive(Debug, Clone, PartialEq, Eq)]
pub struct Migration {
    /// Ordering key; strictly increasing across registered migrations.
    pub version: u32,
    /// Short name recorded in the ledger.
    pub name: String,
    /// Forward script.
    pub up_sql: String,
    /// Reverse script; a migration without one cannot be reverted.
    pub down_sql: Option<String>,
    /// Free-text description.
    pub description: String,
}

impl Migration {
    /// A structural copy; clones of this struct are reasoned about through it.
    pub fn duplicate(&self) -> (r: Migration)
        ensures
            r == *self,
    {
        Migration {
            version: self.version,
            name: self.name.clone(),
            up_sql: self.up_sql.clone(),
            down_sql: match &self.down_sql {
                Some(s) => Some(s.clone()),
                None => None,
            },
            description: self.description.clone(),
        }
    }
}

/// One row of the persisted ledger: an applied version, when it was
/// applied, and how long applying took.
#[derive(Debug, Clone, PartialEq, Eq)]
pub struct MigrationRecord {
    /// Applied version.
    pub version: u32,
    /// Name recorded at application time.
    pub name: String,
    /// Application timestamp, ISO-8601 text as stored.
    pub applied_at: String,
    /// Application duration in milliseconds.
    pub execution_time_ms: u64,
}

/// A migration known to the engine but not yet in the ledger.
#[derive(Debug, Clone, PartialEq, Eq)]
pub struct PendingMigration {
    /// Version that would be applied.
    pub version: u32,
    /// Name of the migration.
    pub name: String,
    /// Description of the migration.
    pub description: String,
}

/// Everything `status` reports: the two versions, the ledger, and the work
/// still pending.
#[derive(Debug, Clone, PartialEq, Eq)]
pub struct MigrationStatus {
    /// Current version: the ledger maximum, zero when the ledger is empty.
    pub current_version: u32,
    /// Largest registered version, zero when none are registered.
    pub latest_version: u32,
    /// The applied ledger, ascending by version.
    pub applied_migrations: Vec<MigrationRecord>,
    /// Registered migrations above the current version, ascending.
    pub pending_migrations: Vec<PendingMigration>,
    /// How many migrations are registered in all.
    pub available_migrations: usize,
    /// Whether the current version is the latest.
    pub is_up_to_date: bool,
}

/// The character of one decimal digit.
pub open spec fn digit_char(d: nat) -> char {
    if d == 0 {
        '0'
    } else if d == 1 {
        '1'
    } else if d == 2 {
        '2'
    } else if d == 3 {
        '3'
    } else if d == 4 {
        '4'
    } else if d == 5 {
        '5'
    } else if d == 6 {
        '6'
    } else if d == 7 {
        '7'
    } else if d == 8 {
        '8'
    } else {
        '9'
    }
}

/// The decimal digits of a number, most significant first.
pub open spec fn decimal_digits(n: nat) -> Seq<char>
    decreases n,
{
    if n < 10 {
        seq![digit_char(n)]
    } else {
        decimal_digits(n / 10).push(digit_char(n % 10))
    }
}

/// One decimal digit as text.
fn digit_str(d: u64) -> (r: &'static str)
    requires
        d < 10,
    ensures
        r@ == seq![digit_char(d as nat)],
{
    let r: &'static str = if d == 0 {
        "0"
    } else if d == 1 {
        "1"
    } else if d == 2 {
        "2"
    } else if d == 3 {
        "3"
    } else if d == 4 {
        "4"
    } else if d == 5 {
        "5"
    } else if d == 6 {
        "6"
    } else if d == 7 {
        "7"
    } else if d == 8 {
        "8"
    } else {
        "9"
    };
    proof {
        reveal_strlit("0");
        reveal_strlit("1");
        reveal_strlit("2");
        reveal_strlit("3");
        reveal_strlit("4");
        reveal_strlit("5");
        reveal_strlit("6");
        reveal_strlit("7");
        reveal_strlit("8");
        reveal_strlit("9");
        assert(r@ =~= seq![digit_char(d as nat)]);
    }
    r
}

/// Renders a number in decimal, proved against [`decimal_digits`]; the
/// ledger's version parameters and the no-reverse-script message use it so
/// their text is pinned by contract.
pub fn decimal_string(n: u64) -> (r: String)
    ensures
        r@ == decimal_digits(n as nat),
    decreases n,
{
    if n < 10 {
        digit_str(n).to_owned()
    } else {
        let r = decimal_string(n / 10).concat(digit_str(n % 10));
        proof {
            assert(decimal_digits((n / 10) as nat).push(digit_char((n % 10) as nat))
                =~= decimal_digits((n / 10) as nat) + seq![digit_char((n % 10) as nat)]);
        }
        r
    }
}

/// The message of a failed revert: it names the offending version.
pub open spec fn no_reverse_message(version: nat) -> Seq<char> {
    "migration v"@ + decimal_digits(version) + " has no reverse script"@
}

/// The registered migrations with versions in `(after, up_to]`, in
/// registration order.
pub open spec fn span_of(ms: Seq<Migration>, after: u32, up_to: u32) -> Seq<Migration> {
    ms.filter(|m: Migration| after < m.version && m.version <= up_to)
}

/// Versions strictly increase along the list: sorted, and free of
/// duplicates.
pub open spec fn versions_strictly_ascending(ms: Seq<Migration>) -> bool {
    forall|i: int, j: int| 0 <= i < j < ms.len() ==> ms[i].version < ms[j].version
}

/// The largest registered version: the last one, since the list ascends.
pub open spec fn latest_version_spec(ms: Seq<Migration>) -> u32 {
    if ms.len() == 0 {
        0u32
    } else {
        ms.last().version
    }
}

/// One unfolding step of the span: the last migration joins the span
/// exactly when its version lies in the requested range.
pub proof fn lemma_span_step(ms: Seq<Migration>, after: u32, up_to: u32)
    requires
        ms.len() > 0,
    ensures
        span_of(ms, after, up_to) == if after < ms.last().version && ms.last().version <= up_to {
            span_of(ms.drop_last(), after, up_to).push(ms.last())
        } else {
            span_of(ms.drop_last(), after, up_to)
        },
{
    reveal_with_fuel(Seq::<_>::filter, 1);
}

/// Planning never selects work outside the requested span: every selected
/// migration sits strictly above the lower bound — so migrating onward from
/// a version never re-applies a migration at or below it — and at or below
/// the upper bound.
pub proof fn lemma_plan_stays_in_span(ms: Seq<Migration>, after: u32, up_to: u32, i: int)
    requires
        0 <= i < span_of(ms, after, up_to).len(),
    ensures
        span_of(ms, after, up_to)[i].version > after,
        span_of(ms, after, up_to)[i].version <= up_to,
    decreases ms.len(),
{
    reveal_with_fuel(Seq::<_>::filter, 1);
    if ms.len() == 0 {
    } else {
        lemma_span_step(ms, after, up_to);
        let sub = span_of(ms.drop_last(), after, up_to);
        if after < ms.last().version && ms.last().version <= up_to {
            if i < sub.len() {
                lemma_plan_stays_in_span(ms.drop_last(), after, up_to, i);
            }
        } else {
            lemma_plan_stays_in_span(ms.drop_last(), after, up_to, i);
        }
    }
}

/// No migration is selected above a lower bound that the whole list stays
/// at or under.
proof fn lemma_span_empty_above(ms: Seq<Migration>, bound: u32, up_to: u32)
    requires
        forall|i: int| 0 <= i < ms.len() ==> (#[trigger] ms[i]).version <= bound,
    ensures
        span_of(ms, bound, up_to) =~= Seq::<Migration>::empty(),
    decreases ms.len(),
{
    reveal_with_fuel(Seq::<_>::filter, 1);
    if ms.len() > 0 {
        lemma_span_step(ms, bound, up_to);
        assert(forall|i: int|
            0 <= i < ms.drop_last().len() ==> (#[trigger] ms.drop_last()[i]).version <= bound);
        lemma_span_empty_above(ms.drop_last(), bound, up_to);
    }
}

/// Stepwise migration composes: driving the schema from `a` to `b` and then
/// from `b` to `c` selects, in order, exactly the migrations that driving
/// from `a` straight to `c` selects — so a later step never re-applies what
/// an earlier step already applied.
pub proof fn lemma_plan_composes(ms: Seq<Migration>, a: u32, b: u32, c: u32)
    requires
        versions_strictly_ascending(ms),
        a <= b <= c,
    ensures
        span_of(ms, a, c) =~= span_of(ms, a, b) + span_of(ms, b, c),
    decreases ms.len(),
{
    reveal_with_fuel(Seq::<_>::filter, 1);
    if ms.len() > 0 {
        let d = ms.drop_last();
        let l = ms.last();
        assert(versions_strictly_ascending(d)) by {
            assert(forall|i: int| 0 <= i < d.len() ==> d[i] == ms[i]);
        }
        lemma_plan_composes(d, a, b, c);
        lemma_span_step(ms, a, c);
        lemma_span_step(ms, a, b);
        lemma_span_step(ms, b, c);
        if b < l.version && l.version <= c {
            assert(span_of(ms, a, c) =~= span_of(ms, a, b) + span_of(ms, b, c));
        } else if a < l.version && l.version <= b {
            assert(forall|i: int| 0 <= i < d.len() ==> (#[trigger] d[i]).version <= b) by {
                assert(forall|i: int|
                    0 <= i < d.len() ==> (#[trigger] d[i]).version < l.version);
            }
            lemma_span_empty_above(d, b, c);
            assert(span_of(ms, a, c) =~= span_of(ms, a, b) + span_of(ms, b, c));
        } else {
            assert(span_of(ms, a, c) =~= span_of(ms, a, b) + span_of(ms, b, c));
        }
    }
}

/// Every selected migration stays at or under any bound the whole list
/// stays at or under.
proof fn lemma_span_bounded(ms: Seq<Migration>, after: u32, up_to: u32, bound: u32)
    requires
        forall|k: int| 0 <= k < ms.len() ==> (#[trigger] ms[k]).version <= bound,
    ensures
        forall|i: int|
            0 <= i < span_of(ms, after, up_to).len() ==> (#[trigger] span_of(ms, after, up_to)[i]).version
                <= bound,
    decreases ms.len(),
{
    reveal_with_fuel(Seq::<_>::filter, 1);
    if ms.len() > 0 {
        lemma_span_step(ms, after, up_to);
        assert(forall|k: int|
            0 <= k < ms.drop_last().len() ==> (#[trigger] ms.drop_last()[k]).version <= bound);
        lemma_span_bounded(ms.drop_last(), after, up_to, bound);
    }
}

/// The plan ascends: selecting a span of a strictly ascending list yields a
/// strictly ascending plan, so an upward migration applies versions in
/// strictly increasing order — and, walked backwards, a downward migration
/// reverts them in strictly decreasing order.
pub proof fn lemma_plan_ascends(ms: Seq<Migration>, after: u32, up_to: u32)
    requires
        versions_strictly_ascending(ms),
    ensures
        versions_strictly_ascending(span_of(ms, after, up_to)),
    decreases ms.len(),
{
    reveal_with_fuel(Seq::<_>::filter, 1);
    if ms.len() > 0 {
        let d = ms.drop_last();
        let l = ms.last();
        assert(versions_strictly_ascending(d)) by {
            assert(forall|i: int| 0 <= i < d.len() ==> d[i] == ms[i]);
        }
        lemma_plan_ascends(d, after, up_to);
        lemma_span_step(ms, after, up_to);
        if after < l.version && l.version <= up_to {
            if d.len() > 0 {
                assert(forall|k: int|
                    0 <= k < d.len() ==> (#[trigger] d[k]).version < l.version);
                assert(l.version >= 1);
                lemma_span_bounded(d, after, up_to, (l.version - 1) as u32);
            }
            let sub = span_of(d, after, up_to);
            assert forall|i: int, j: int|
                0 <= i < j < span_of(ms, after, up_to).len() implies (span_of(ms, after, up_to)[i]).version
                < (span_of(ms, after, up_to)[j]).version by {
                if j < sub.len() {
                } else {
                    assert(span_of(ms, after, up_to)[j] == l);
                    assert(span_of(ms, after, up_to)[i] == sub[i]);
                }
            }
        }
    }
}

/// An up-to-date engine plans no work: between a version and itself, no
/// migration is selected, so driving the schema to the version it already
/// has mutates nothing — `migrate` to the same target twice is idempotent.
pub proof fn lemma_up_to_date_plans_nothing(ms: Seq<Migration>, v: u32)
    ensures
        span_of(ms, v, v) =~= Seq::<Migration>::empty(),
{
    if span_of(ms, v, v).len() > 0 {
        lemma_plan_stays_in_span(ms, v, v, 0);
        assert(span_of(ms, v, v)[0].version > v && span_of(ms, v, v)[0].version <= v);
    }
}

/// The migration engine: a connection wrapper plus the ordered list of
/// known migrations.
pub struct MigrationManager {
    connection: DatabaseConnection,
    migrations: Vec<Migration>,
}

/// Reads the `MAX(version)` cell of the ledger: NULL means an empty ledger,
/// version zero.
pub fn version_of_max_row(rows: &Vec<Vec<SqlValue>>) -> (r: Result<u32, DatabaseError>)
    ensures
        r matches Ok(v) ==> rows@.len() > 0 && rows@[0].len() > 0 && (rows@[0][0]
            == SqlValue::Null && v == 0 || rows@[0][0] == SqlValue::Integer(v as i64)),
        r matches Err(e) ==> e is Query,
        rows@.len() > 0 && rows@[0].len() > 0 && rows@[0][0] is Null ==> r == Ok::<
            u32,
            DatabaseError,
        >(0u32),
        rows@.len() > 0 && rows@[0].len() > 0 && (rows@[0][0] matches SqlValue::Integer(v) && 0 <= v
            <= u32::MAX) ==> r == Ok::<u32, DatabaseError>((rows@[0][0]->Integer_0) as u32),
{
    if rows.len() == 0 {
        Err(DatabaseError::Query("version query returned no rows".to_owned()))
    } else if rows[0].len() == 0 {
        Err(DatabaseError::Query("version query returned an empty row".to_owned()))
    } else {
        match &rows[0][0] {
            SqlValue::Null => Ok(0),
            SqlValue::Integer(v) => {
                if *v >= 0 && *v <= u32::MAX as i64 {
                    Ok(*v as u32)
                } else {
                    Err(DatabaseError::Query("ledger version out of range".to_owned()))
                }
            },
            _ => Err(DatabaseError::Query("ledger version is not an integer".to_owned())),
        }
    }
}

/// What one well-formed ledger row looks like: version, name, timestamp,
/// duration.
pub open spec fn ledger_row_wf(row: Seq<SqlValue>) -> bool {
    &&& row.len() == 4
    &&& (row[0] matches SqlValue::Integer(v) && 0 <= v <= u32::MAX)
    &&& row[1] is Text
    &&& row[2] is Text
    &&& (row[3] matches SqlValue::Integer(t) && t >= 0)
}

/// How one ledger row reads back as a record.
pub open spec fn row_parses_to(row: Seq<SqlValue>, rec: MigrationRecord) -> bool {
    &&& row.len() == 4
    &&& row[0] == SqlValue::Integer(rec.version as i64)
    &&& (row[1] matches SqlValue::Text(s) && s == rec.name)
    &&& (row[2] matches SqlValue::Text(s) && s == rec.applied_at)
    &&& row[3] == SqlValue::Integer(rec.execution_time_ms as i64)
}

/// Parses the ledger rows into records: every well-formed row parses, a
/// malformed one is a query error.
pub fn parse_ledger_rows(rows: &Vec<Vec<SqlValue>>) -> (r: Result<
    Vec<MigrationRecord>,
    DatabaseError,
>)
    ensures
        r matches Ok(recs) ==> recs@.len() == rows@.len() && (forall|i: int|
            0 <= i < rows@.len() ==> row_parses_to(rows@[i]@, #[trigger] recs@[i])),
        r matches Err(e) ==> e is Query && (exists|i: int|
            0 <= i < rows@.len() && !ledger_row_wf((#[trigger] rows@[i])@)),
        (forall|i: int| 0 <= i < rows@.len() ==> ledger_row_wf((#[trigger] rows@[i])@)) ==> r is Ok,
{
    let mut out: Vec<MigrationRecord> = Vec::new();
    let mut i: usize = 0;
    while i < rows.len()
        invariant
            i <= rows@.len(),
            out@.len() == i,
            forall|j: int| 0 <= j < i ==> row_parses_to(rows@[j]@, #[trigger] out@[j]),
        decreases rows@.len() - i,
    {
        let row = &rows[i];
        if row.len() != 4 {
            return Err(DatabaseError::Query("ledger row has a wrong shape".to_owned()));
        }
        let version: u32 = match &row[0] {
            SqlValue::Integer(v) => {
                if *v >= 0 && *v <= u32::MAX as i64 {
                    *v as u32
                } else {
                    return Err(DatabaseError::Query("ledger version out of range".to_owned()));
                }
            },
            _ => {
                return Err(DatabaseError::Query("ledger version is not an integer".to_owned()));
            },
        };
        let name: String = match &row[1] {
            SqlValue::Text(s) => s.clone(),
            _ => {
                return Err(DatabaseError::Query("ledger name is not text".to_owned()));
            },
        };
        let applied_at: String = match &row[2] {
            SqlValue::Text(s) => s.clone(),
            _ => {
                return Err(DatabaseError::Query("ledger timestamp is not text".to_owned()));
            },
        };
        let execution_time_ms: u64 = match &row[3] {
            SqlValue::Integer(t) => {
                if *t >= 0 {
                    *t as u64
                } else {
                    return Err(DatabaseError::Query("ledger duration is negative".to_owned()));
                }
            },
            _ => {
                return Err(DatabaseError::Query("ledger duration is not an integer".to_owned()));
            },
        };
        out.push(MigrationRecord { version, name, applied_at, execution_time_ms });
        i += 1;
    }
    Ok(out)
}

impl MigrationManager {
    /// The registered migrations, for contracts.
    pub closed spec fn migrations_view(&self) -> Seq<Migration> {
        self.migrations@
    }

    /// The registered migrations always ascend strictly by version.
    pub open spec fn wf(&self) -> bool {
        versions_strictly_ascending(self.migrations_view())
    }

    /// An engine that knows no migrations yet.
    pub fn new(connection: DatabaseConnection) -> (r: Self)
        ensures
            r.wf(),
            r.migrations_view() =~= Seq::<Migration>::empty(),
    {
        MigrationManager { connection, migrations: Vec::new() }
    }

    /// Registers one migration, keeping the list sorted by version;
    /// a duplicate version is a configuration error, rejected eagerly.
    pub fn add_migration(self, migration: Migration) -> (r: Result<Self, DatabaseError>)
        requires
            self.wf(),
        ensures
            r matches Ok(m) ==> m.wf() && (exists|i: int|
                0 <= i <= self.migrations_view().len() && m.migrations_view()
                    == self.migrations_view().insert(i, migration)),
            r matches Err(e) ==> e is Migration && (exists|i: int|
                0 <= i < self.migrations_view().len() && (#[trigger] self.migrations_view()[i]).version
                    == migration.version),
            (forall|i: int|
                0 <= i < self.migrations_view().len()
                    ==> (#[trigger] self.migrations_view()[i]).version != migration.version) ==> r
                is Ok,
    {
        let mut this = self;
        let mut idx: usize = 0;
        while idx < this.migrations.len() && this.migrations[idx].version < migration.version
            invariant
                idx <= this.migrations@.len(),
                this == self,
                forall|k: int| 0 <= k < idx ==> (#[trigger] this.migrations@[k]).version < migration.version,
            decreases this.migrations@.len() - idx,
        {
            idx += 1;
        }
        if idx < this.migrations.len() && this.migrations[idx].version == migration.version {
            return Err(DatabaseError::Migration("duplicate migration version".to_owned()));
        }
        let ghost old_ms = this.migrations@;
        let ghost at = idx as int;
        this.migrations.insert(idx, migration);
        proof {
            assert(this.migrations@ == old_ms.insert(at, migration));
            assert forall|i: int, j: int| 0 <= i < j < this.migrations@.len() implies (
            this.migrations@[i]).version < (this.migrations@[j]).version by {
                if j < at {
                } else if i >= at + 1 {
                } else if i < at && j == at {
                } else if i == at && j > at {
                    assert(this.migrations@[j] == old_ms[j - 1]);
                    if at < old_ms.len() {
                        assert(old_ms[at].version > migration.version);
                    }
                } else {
                    assert(this.migrations@[i] == old_ms[i]);
                    assert(this.migrations@[j] == old_ms[j - 1]);
                    if at < old_ms.len() {
                        assert(old_ms[at].version > migration.version);
                    }
                }
            }
        }
        Ok(this)
    }

    /// Registers several migrations in turn; the first duplicate version
    /// rejects the whole batch.
    pub fn add_migrations(self, migrations: Vec<Migration>) -> (r: Result<Self, DatabaseError>)
        requires
            self.wf(),
        ensures
            r matches Ok(m) ==> m.wf() && m.migrations_view().len() == self.migrations_view().len()
                + migrations@.len(),
            r matches Err(e) ==> e is Migration,
    {
        let mut this = self;
        let mut i: usize = 0;
        while i < migrations.len()
            invariant
                i <= migrations@.len(),
                this.wf(),
                this.migrations_view().len() == self.migrations_view().len() + i,
            decreases migrations@.len() - i,
        {
            this = match this.add_migration(migrations[i].duplicate()) {
                Ok(m) => m,
                Err(e) => {
                    return Err(e);
                },
            };
            i += 1;
        }
        Ok(this)
    }

    /// The largest registered version, zero when none are registered.
    pub fn latest_version(&self) -> (r: u32)
        ensures
            r == latest_version_spec(self.migrations_view()),
    {
        if self.migrations.len() == 0 {
            0
        } else {
            self.migrations[self.migrations.len() - 1].version
        }
    }

    /// Resolves the migration target: the explicit version when one is
    /// given, the latest registered version otherwise.
    pub fn resolve_target(&self, target_version: Option<u32>) -> (r: u32)
        ensures
            r == (match target_version {
                Some(t) => t,
                None => latest_version_spec(self.migrations_view()),
            }),
    {
        match target_version {
            Some(t) => t,
            None => self.latest_version(),
        }
    }

    /// The registered migrations with versions in `(after, up_to]`, in
    /// ascending order: exactly the plan of an upward migration, and —
    /// walked backwards — of a downward one.
    pub fn pending_between(&self, after: u32, up_to: u32) -> (r: Vec<Migration>)
        ensures
            r@ == span_of(self.migrations_view(), after, up_to),
    {
        let ms = &self.migrations;
        let mut out: Vec<Migration> = Vec::new();
        let mut i: usize = 0;
        proof {
            assert(ms@.take(0) =~= Seq::<Migration>::empty());
            reveal_with_fuel(Seq::<_>::filter, 1);
        }
        while i < ms.len()
            invariant
                i <= ms@.len(),
                ms@ == self.migrations_view(),
                out@ == span_of(ms@.take(i as int), after, up_to),
            decreases ms@.len() - i,
        {
            let m = &ms[i];
            if after < m.version && m.version <= up_to {
                out.push(m.duplicate());
            }
            proof {
                let grown = ms@.take(i as int + 1);
                assert(grown.drop_last() =~= ms@.take(i as int));
                assert(grown.last() == ms@[i as int]);
                lemma_span_step(grown, after, up_to);
            }
            i += 1;
        }
        proof {
            assert(ms@.take(ms@.len() as int) =~= ms@);
        }
        out
    }

    /// Creates the ledger table if it is absent; idempotent.
    pub fn initialize(&self) -> (r: Result<(), DatabaseError>)
        ensures
            r matches Err(e) ==> (e is PoolExhausted || e is Query),
    {
        let sql =
            "CREATE TABLE IF NOT EXISTS schema_migrations (\n    version INTEGER PRIMARY KEY,\n    name TEXT NOT NULL,\n    applied_at TEXT NOT NULL,\n    execution_time_ms INTEGER NOT NULL\n)";
        match self.connection.execute(sql, &Vec::new()) {
            Ok(_) => Ok(()),
            Err(e) => Err(e),
        }
    }

    /// Reads the current version: the ledger maximum, zero when the ledger
    /// is empty. Creates the ledger table first so a fresh store reads as
    /// version zero.
    pub fn get_current_version(&self) -> (r: Result<u32, DatabaseError>)
        ensures
            r matches Err(e) ==> (e is PoolExhausted || e is Query),
    {
        if let Err(e) = self.initialize() {
            return Err(e);
        }
        let rows = match self.connection.query_map(
            "SELECT MAX(version) FROM schema_migrations",
            &Vec::new(),
        ) {
            Ok(rows) => rows,
            Err(e) => {
                return Err(e);
            },
        };
        version_of_max_row(&rows)
    }

    /// Reads the full applied ledger, ascending by version.
    pub fn get_applied_migrations(&self) -> (r: Result<Vec<MigrationRecord>, DatabaseError>)
        ensures
            r matches Err(e) ==> (e is PoolExhausted || e is Query),
    {
        let rows = match self.connection.query_map(
            "SELECT version, name, applied_at, execution_time_ms FROM schema_migrations ORDER BY version",
            &Vec::new(),
        ) {
            Ok(rows) => rows,
            Err(e) => {
                return Err(e);
            },
        };
        parse_ledger_rows(&rows)
    }

    /// Applies one migration: one write-intent transaction runs the forward
    /// script and inserts the ledger row, committed together.
    fn apply_migration(&self, migration: &Migration) -> (r: Result<(), DatabaseError>)
        ensures
            r matches Err(e) ==> (e is PoolExhausted || e is Transaction || e is Query),
    {
        let started = instant_now();
        let up_sql = migration.up_sql.clone();
        let version_text = decimal_string(migration.version as u64);
        let name_text = migration.name.clone();
        let applied_at = now_rfc3339();
        let body = move |tx: &TransactionHandle| -> (res: Result<(), DatabaseError>)
            ensures
                res matches Err(e) ==> e is Query,
            {
                if let Err(e) = tx.execute(up_sql.as_str(), &Vec::new()) {
                    return Err(e);
                }
                let elapsed = millis_since(&started);
                let mut params: Vec<String> = Vec::new();
                params.push(version_text);
                params.push(name_text);
                params.push(applied_at);
                params.push(decimal_string(elapsed));
                match tx.execute(
                    "INSERT INTO schema_migrations (version, name, applied_at, execution_time_ms) VALUES (?1, ?2, ?3, ?4)",
                    &params,
                ) {
                    Ok(_) => Ok(()),
                    Err(e) => Err(e),
                }
            };
        self.connection.with_transaction(body)
    }

    /// Reverts one migration: a migration without a reverse script fails
    /// without touching the store; otherwise one write-intent transaction
    /// runs the reverse script and deletes the ledger row, committed
    /// together.
    fn revert_migration(&self, migration: &Migration) -> (r: Result<(), DatabaseError>)
        ensures
            migration.down_sql is None ==> (r matches Err(e) && e matches DatabaseError::Migration(
                m,
            ) && m@ == no_reverse_message(migration.version as nat)),
            r matches Err(e) ==> (e is Migration || e is PoolExhausted || e is Transaction
                || e is Query),
    {
        let down_sql = match &migration.down_sql {
            Some(s) => s.clone(),
            None => {
                return Err(
                    DatabaseError::Migration(
                        "migration v".to_owned().concat(
                            decimal_string(migration.version as u64).as_str(),
                        ).concat(" has no reverse script"),
                    ),
                );
            },
        };
        let version_text = decimal_string(migration.version as u64);
        let body = move |tx: &TransactionHandle| -> (res: Result<(), DatabaseError>)
            ensures
                res matches Err(e) ==> e is Query,
            {
                if let Err(e) = tx.execute(down_sql.as_str(), &Vec::new()) {
                    return Err(e);
                }
                let mut params: Vec<String> = Vec::new();
                params.push(version_text);
                match tx.execute("DELETE FROM schema_migrations WHERE version = ?1", &params) {
                    Ok(_) => Ok(()),
                    Err(e) => Err(e),
                }
            };
        self.connection.with_transaction(body)
    }

    /// Applies every registered migration in `(from_version, to_version]`,
    /// ascending.
    fn migrate_up(&self, from_version: u32, to_version: u32) -> (r: Result<(), DatabaseError>)
        ensures
            r matches Err(e) ==> (e is PoolExhausted || e is Transaction || e is Query),
    {
        let plan = self.pending_between(from_version, to_version);
        let mut i: usize = 0;
        while i < plan.len()
            invariant
                i <= plan@.len(),
            decreases plan@.len() - i,
        {
            if let Err(e) = self.apply_migration(&plan[i]) {
                return Err(e);
            }
            i += 1;
        }
        Ok(())
    }

    /// Reverts every registered migration in `(to_version, from_version]`,
    /// descending.
    fn migrate_down(&self, from_version: u32, to_version: u32) -> (r: Result<(), DatabaseError>)
        ensures
            r matches Err(e) ==> (e is Migration || e is PoolExhausted || e is Transaction
                || e is Query),
    {
        let plan = self.pending_between(to_version, from_version);
        let mut i: usize = plan.len();
        while i > 0
            invariant
                i <= plan@.len(),
            decreases i,
        {
            i -= 1;
            if let Err(e) = self.revert_migration(&plan[i]) {
                return Err(e);
            }
        }
        Ok(())
    }

    /// Drives the schema to the target version: the explicit one, or the
    /// latest registered version when none is given. Equal versions are a
    /// no-op; a lower current version is migrated up, a higher one down.
    pub fn migrate(&self, target_version: Option<u32>) -> (r: Result<(), DatabaseError>)
        requires
            self.wf(),
        ensures
            r matches Err(e) ==> (e is Migration || e is PoolExhausted || e is Transaction
                || e is Query),
    {
        if let Err(e) = self.initialize() {
            return Err(e);
        }
        let current_version = match self.get_current_version() {
            Ok(v) => v,
            Err(e) => {
                return Err(e);
            },
        };
        let target = self.resolve_target(target_version);
        if current_version == target {
            return Ok(());
        }
        if current_version < target {
            self.migrate_up(current_version, target)
        } else {
            self.migrate_down(current_version, target)
        }
    }

    /// Reports the current version, the latest known version, the applied
    /// ledger, and the migrations still pending above the current version.
    pub fn get_migration_status(&self) -> (r: Result<MigrationStatus, DatabaseError>)
        requires
            self.wf(),
        ensures
            r matches Ok(s) ==> {
                &&& s.latest_version == latest_version_spec(self.migrations_view())
                &&& s.is_up_to_date == (s.current_version == s.latest_version)
                &&& s.available_migrations == self.migrations_view().len()
                &&& s.pending_migrations@.len() == span_of(
                    self.migrations_view(),
                    s.current_version,
                    u32::MAX,
                ).len()
                &&& (forall|i: int|
                    0 <= i < s.pending_migrations@.len() ==> pending_entry_of(
                        span_of(self.migrations_view(), s.current_version, u32::MAX)[i],
                        #[trigger] s.pending_migrations@[i],
                    ))
            },
            r matches Err(e) ==> (e is PoolExhausted || e is Query),
    {
        let current_version = match self.get_current_version() {
            Ok(v) => v,
            Err(e) => {
                return Err(e);
            },
        };
        let applied_migrations = match self.get_applied_migrations() {
            Ok(a) => a,
            Err(e) => {
                return Err(e);
            },
        };
        let latest_version = self.latest_version();
        let plan = self.pending_between(current_version, u32::MAX);
        let mut pending_migrations: Vec<PendingMigration> = Vec::new();
        let mut i: usize = 0;
        while i < plan.len()
            invariant
                i <= plan@.len(),
                pending_migrations@.len() == i,
                forall|j: int|
                    0 <= j < i ==> pending_entry_of(plan@[j], #[trigger] pending_migrations@[j]),
            decreases plan@.len() - i,
        {
            let m = &plan[i];
            pending_migrations.push(
                PendingMigration {
                    version: m.version,
                    name: m.name.clone(),
                    description: m.description.clone(),
                },
            );
            i += 1;
        }
        Ok(
            MigrationStatus {
                current_version,
                latest_version,
                applied_migrations,
                pending_migrations,
                available_migrations: self.migrations.len(),
                is_up_to_date: current_version == latest_version,
            },
        )
    }
}

/// How one pending entry reads off its migration.
pub open spec fn pending_entry_of(m: Migration, p: PendingMigration) -> bool {
    &&& p.version == m.version
    &&& p.name == m.name
    &&& p.description == m.description
}

} // verus!
