//! Abstract model of the database the workloads run against: tables are
//! named sequences of rows, and each SQL statement the library emits has a
//! mathematical meaning over them. The lemmas at the bottom state what the
//! write and read workloads achieve under that meaning.

use vstd::prelude::*;

verus! {

/// What the workloads observe of a persisted row: its auto-increment
/// identifier and the length of its text value. The text itself comes from
/// a server-side hash and the numeric value from a server-side random
/// function, so neither is modelled beyond what the schema guarantees.
pub struct RowModel {
    pub id: int,
    pub name_len: nat,
}

/// The database: a map from table name to the rows the table holds, in
/// insertion order.
pub type Db = Map<Seq<char>, Seq<RowModel>>;

/// The meaning of a statement the library emits.
pub enum StmtModel {
    /// Drop the table if it exists; never fails.
    DropTableIfExists { table: Seq<char> },
    /// Create the table empty; fails when it already exists.
    CreateTable { table: Seq<char> },
    /// Insert `count` server-generated rows; fails when the table does not
    /// exist, and inserts nothing when `count` is not positive.
    InsertRows { table: Seq<char>, count: i32 },
}

/// The rows the bulk insert appends: one per series position, identifiers
/// continuing after `start`, each text value a 10-character hash prefix.
pub open spec fn inserted_rows(start: int, count: i32) -> Seq<RowModel> {
    Seq::new(count as nat, |i: int| RowModel { id: start + i + 1, name_len: 10 })
}

/// The effect of one statement: the new database, or `None` when the
/// statement fails and the workload aborts.
pub open spec fn apply_stmt(db: Db, s: StmtModel) -> Option<Db> {
    match s {
        StmtModel::DropTableIfExists { table } => Some(db.remove(table)),
        StmtModel::CreateTable { table } => if db.dom().contains(table) {
            None
        } else {
            Some(db.insert(table, Seq::empty()))
        },
        StmtModel::InsertRows { table, count } => if !db.dom().contains(table) {
            None
        } else if count <= 0 {
            Some(db)
        } else {
            Some(db.insert(table, db[table] + inserted_rows(db[table].len() as int, count)))
        },
    }
}

/// The effect of a statement sequence, run in order, aborting at the first
/// failure.
pub open spec fn apply_plan(db: Option<Db>, plan: Seq<StmtModel>) -> Option<Db>
    decreases plan.len(),
{
    if plan.len() == 0 {
        db
    } else {
        match db {
            Option::None => None,
            Option::Some(d) => apply_plan(apply_stmt(d, plan[0]), plan.subrange(1, plan.len() as int)),
        }
    }
}

/// What a full-table scan returns: every row of the table in order, or a
/// failure when the table does not exist.
pub open spec fn read_rows(db: Db, table: Seq<char>) -> Option<Seq<RowModel>> {
    if db.dom().contains(table) {
        Some(db[table])
    } else {
        None
    }
}

/// The write workload's statements: drop, create, bulk-insert, in order.
pub open spec fn write_plan_spec(table: Seq<char>, count: i32) -> Seq<StmtModel> {
    seq![
        StmtModel::DropTableIfExists { table },
        StmtModel::CreateTable { table },
        StmtModel::InsertRows { table, count },
    ]
}

/// Running the write plan for a positive count succeeds on every database
/// and replaces the target table with exactly the freshly inserted rows.
pub proof fn lemma_apply_write_plan(db: Db, table: Seq<char>, count: i32)
    requires
        count > 0,
    ensures
        apply_plan(Some(db), write_plan_spec(table, count)) == Some(
            db.remove(table).insert(table, inserted_rows(0, count)),
        ),
{
    let plan = write_plan_spec(table, count);
    let s0 = (StmtModel::DropTableIfExists { table });
    let s1 = (StmtModel::CreateTable { table });
    let s2 = (StmtModel::InsertRows { table, count });
    let p1 = plan.subrange(1, 3);
    let p2 = p1.subrange(1, 2);
    assert(plan.len() == 3 && plan[0] == s0);
    assert(p1.len() == 2 && p1[0] == s1 && p1[1] == s2);
    assert(p2.len() == 1 && p2[0] == s2);
    assert(p1.subrange(1, 2) =~= p2);
    assert(p2.subrange(1, 1).len() == 0);

    let d1 = db.remove(table);
    let d2 = d1.insert(table, Seq::<RowModel>::empty());
    let rows = inserted_rows(0, count);
    assert(apply_stmt(db, s0) == Some(d1));
    assert(!d1.dom().contains(table));
    assert(apply_stmt(d1, s1) == Some(d2));
    assert(d2.dom().contains(table));
    assert(d2[table] == Seq::<RowModel>::empty());
    assert(Seq::<RowModel>::empty() + inserted_rows(0, count) =~= rows);
    let d3 = d2.insert(table, rows);
    assert(apply_stmt(d2, s2) == Some(d3));

    assert(apply_plan(Some(db), plan) == apply_plan(Some(d1), p1));
    assert(apply_plan(Some(d1), p1) == apply_plan(Some(d2), p2));
    assert(apply_plan(Some(d2), p2) == apply_plan(Some(d3), p2.subrange(1, 1)));
    assert(apply_plan(Some(d3), p2.subrange(1, 1)) == Some(d3));
    assert(d3 =~= d1.insert(table, rows));
}

/// For every positive row count, running the write workload leaves exactly
/// that many rows in the target table, whatever the database held before.
pub proof fn lemma_write_plan_row_count(db: Db, table: Seq<char>, count: i32)
    requires
        count > 0,
    ensures
        ({
            let r = apply_plan(Some(db), write_plan_spec(table, count));
            &&& r is Some
            &&& read_rows(r->0, table) is Some
            &&& read_rows(r->0, table)->0.len() == count
        }),
{
    lemma_apply_write_plan(db, table, count);
}

/// After the write workload, a full-table scan returns as many rows as
/// were written, and every row's text value is at most 10 characters long.
pub proof fn lemma_read_after_write(db: Db, table: Seq<char>, count: i32)
    requires
        count > 0,
    ensures
        ({
            let r = apply_plan(Some(db), write_plan_spec(table, count));
            &&& r is Some
            &&& read_rows(r->0, table) is Some
            &&& read_rows(r->0, table)->0.len() == count
            &&& forall|i: int|
                0 <= i < count ==> (#[trigger] read_rows(r->0, table)->0[i]).name_len <= 10
        }),
{
    lemma_apply_write_plan(db, table, count);
    let r = apply_plan(Some(db), write_plan_spec(table, count));
    let rows = read_rows(r->0, table)->0;
    assert(rows == inserted_rows(0, count));
    assert forall|i: int| 0 <= i < count implies (#[trigger] rows[i]).name_len <= 10 by {
        assert(rows[i] == inserted_rows(0, count)[i]);
    }
}

/// Repeating the write workload on the same table is idempotent with
/// respect to the final row count: the second run also succeeds, and the
/// table ends with the same number of rows as after the first.
pub proof fn lemma_write_plan_idempotent(db: Db, table: Seq<char>, count: i32)
    requires
        count > 0,
    ensures
        ({
            let once = apply_plan(Some(db), write_plan_spec(table, count));
            let twice = apply_plan(once, write_plan_spec(table, count));
            &&& once is Some
            &&& twice is Some
            &&& read_rows(twice->0, table) is Some
            &&& read_rows(twice->0, table)->0.len() == read_rows(once->0, table)->0.len()
        }),
{
    lemma_apply_write_plan(db, table, count);
    let once = apply_plan(Some(db), write_plan_spec(table, count));
    lemma_apply_write_plan(once->0, table, count);
}

} // verus!
