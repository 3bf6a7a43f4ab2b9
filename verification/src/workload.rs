//! The statements the write and read workloads execute: an executable
//! statement type tied to the model, the SQL text each statement renders
//! to, and the plan builder the write workload runs.

use vstd::prelude::*;
use crate::model::StmtModel;
use crate::model::write_plan_spec;

verus! {

/// How many timed full-table scans the read workload performs.
pub const READ_RUNS: usize = 10;

/// One SQL statement of a workload, ready to execute: the text names the
/// table, and the bulk insert carries its row count as a bound parameter.
pub enum SqlStatement {
    DropTableIfExists { table: String },
    CreateTable { table: String },
    InsertRows { table: String, count: i32 },
}

impl View for SqlStatement {
    type V = StmtModel;

    open spec fn view(&self) -> StmtModel {
        match self {
            SqlStatement::DropTableIfExists { table } => StmtModel::DropTableIfExists {
                table: table@,
            },
            SqlStatement::CreateTable { table } => StmtModel::CreateTable { table: table@ },
            SqlStatement::InsertRows { table, count } => StmtModel::InsertRows {
                table: table@,
                count: *count,
            },
        }
    }
}

impl StmtModel {
    /// The SQL text a statement renders to. The bulk insert derives each
    /// row's text value from a hash of the series position truncated to 10
    /// characters and its numeric value from the server's random function;
    /// its row count is the bound parameter, not part of the text.
    pub open spec fn sql_text(self) -> Seq<char> {
        match self {
            StmtModel::DropTableIfExists { table } => "DROP TABLE IF EXISTS "@ + table + ";"@,
            StmtModel::CreateTable { table } => "CREATE TABLE "@ + table
                + "(id SERIAL PRIMARY KEY, name TEXT NOT NULL, value REAL);"@,
            StmtModel::InsertRows { table, count } => "INSERT INTO "@ + table
                + "(name, value) SELECT LEFT(md5(i::TEXT), 10), random() FROM generate_series(1, $1) s(i);"@,
        }
    }

    /// The bound parameter the statement is executed with: the row count
    /// for the bulk insert, nothing for the others.
    pub open spec fn count_param(self) -> Option<i32> {
        match self {
            StmtModel::InsertRows { table, count } => Some(count),
            _ => None,
        }
    }
}

impl SqlStatement {
    /// Render the statement's SQL text.
    pub fn sql_text(&self) -> (r: String)
        ensures
            r@ == self@.sql_text(),
    {
        match self {
            SqlStatement::DropTableIfExists { table } => {
                let r = String::from_str("DROP TABLE IF EXISTS ").concat(table.as_str()).concat(
                    ";",
                );
                proof {
                    assert(r@ =~= self@.sql_text());
                }
                r
            },
            SqlStatement::CreateTable { table } => {
                let r = String::from_str("CREATE TABLE ").concat(table.as_str()).concat(
                    "(id SERIAL PRIMARY KEY, name TEXT NOT NULL, value REAL);",
                );
                proof {
                    assert(r@ =~= self@.sql_text());
                }
                r
            },
            SqlStatement::InsertRows { table, count } => {
                let r = String::from_str("INSERT INTO ").concat(table.as_str()).concat(
                    "(name, value) SELECT LEFT(md5(i::TEXT), 10), random() FROM generate_series(1, $1) s(i);",
                );
                proof {
                    assert(r@ =~= self@.sql_text());
                }
                r
            },
        }
    }

    /// The bound parameter to execute the statement with.
    pub fn count_param(&self) -> (r: Option<i32>)
        ensures
            r == self@.count_param(),
    {
        match self {
            SqlStatement::InsertRows { table: _, count } => Some(*count),
            _ => None,
        }
    }
}

/// The write workload was invoked with an argument it must reject.
#[derive(Clone, Copy, Debug, PartialEq, Eq, Structural)]
pub enum WorkloadError {
    /// The requested row count was zero or negative.
    NonPositiveCount,
}

impl WorkloadError {
    /// The message reported for the rejected argument.
    pub fn message(&self) -> (r: String)
        ensures
            r@ == "Count must be greater than 0"@,
    {
        String::from_str("Count must be greater than 0")
    }
}

/// The views of a statement sequence, element by element.
pub open spec fn plan_view(plan: Seq<SqlStatement>) -> Seq<StmtModel> {
    plan.map_values(|s: SqlStatement| s@)
}

/// Build the write workload's plan: drop the table if it exists, create it
/// with the three-column schema, bulk-insert `count` rows. A non-positive
/// count is rejected before any statement exists to execute.
pub fn write_plan(table: &str, count: i32) -> (r: Result<Vec<SqlStatement>, WorkloadError>)
    ensures
        count <= 0 <==> r == Err::<Vec<SqlStatement>, WorkloadError>(
            WorkloadError::NonPositiveCount,
        ),
        count > 0 <==> r is Ok,
        r matches Ok(plan) ==> plan@.len() == 3 && plan_view(plan@) == write_plan_spec(
            table@,
            count,
        ),
{
    if count <= 0 {
        return Err(WorkloadError::NonPositiveCount);
    }
    let mut plan: Vec<SqlStatement> = Vec::new();
    plan.push(SqlStatement::DropTableIfExists { table: table.to_owned() });
    plan.push(SqlStatement::CreateTable { table: table.to_owned() });
    plan.push(SqlStatement::InsertRows { table: table.to_owned(), count });
    proof {
        assert(plan_view(plan@) =~= write_plan_spec(table@, count));
    }
    Ok(plan)
}

/// The SQL text of the read workload's full-table scan.
pub open spec fn read_query_of(table: Seq<char>) -> Seq<char> {
    "SELECT * FROM "@ + table + ";"@
}

/// Build the read workload's query: an unfiltered scan whose column order
/// follows the table schema.
pub fn read_query_sql(table: &str) -> (r: String)
    ensures
        r@ == read_query_of(table@),
{
    let r = String::from_str("SELECT * FROM ").concat(table).concat(";");
    proof {
        assert(r@ =~= read_query_of(table@));
    }
    r
}

} // verus!
