use neonbench::READ_RUNS;
use neonbench::WorkloadError;
use neonbench::read_query_sql;
use neonbench::write_plan;

#[test]
fn write_plan_rejects_zero_count() {
    assert_eq!(write_plan("test_table", 0).err(), Some(WorkloadError::NonPositiveCount));
}

#[test]
fn write_plan_rejects_negative_count() {
    assert_eq!(write_plan("test_table", -5).err(), Some(WorkloadError::NonPositiveCount));
}

#[test]
fn workload_error_message() {
    assert_eq!(WorkloadError::NonPositiveCount.message(), "Count must be greater than 0");
}

#[test]
fn write_plan_statements_for_bench_table() {
    let plan = write_plan("bench_1", 1000).ok().unwrap();
    assert_eq!(plan.len(), 3);
    assert_eq!(plan[0].sql_text(), "DROP TABLE IF EXISTS bench_1;");
    assert_eq!(plan[0].count_param(), None);
    assert_eq!(
        plan[1].sql_text(),
        "CREATE TABLE bench_1(id SERIAL PRIMARY KEY, name TEXT NOT NULL, value REAL);"
    );
    assert_eq!(plan[1].count_param(), None);
    assert_eq!(
        plan[2].sql_text(),
        "INSERT INTO bench_1(name, value) SELECT LEFT(md5(i::TEXT), 10), random() FROM generate_series(1, $1) s(i);"
    );
    assert_eq!(plan[2].count_param(), Some(1000));
}

#[test]
fn write_plan_uses_the_default_row_count_of_the_tool() {
    let plan = write_plan("test_table", 30000).ok().unwrap();
    assert_eq!(plan.len(), 3);
    assert_eq!(plan[2].count_param(), Some(30000));
}

#[test]
fn write_plan_is_reproducible_on_the_same_table() {
    let first = write_plan("bench_1", 42).ok().unwrap();
    let second = write_plan("bench_1", 42).ok().unwrap();
    assert_eq!(first.len(), second.len());
    for (a, b) in first.iter().zip(second.iter()) {
        assert_eq!(a.sql_text(), b.sql_text());
        assert_eq!(a.count_param(), b.count_param());
    }
}

#[test]
fn read_query_is_an_unfiltered_scan() {
    assert_eq!(read_query_sql("bench_1"), "SELECT * FROM bench_1;");
    assert_eq!(read_query_sql("test_table"), "SELECT * FROM test_table;");
}

#[test]
fn read_workload_makes_ten_runs() {
    assert_eq!(READ_RUNS, 10);
}
