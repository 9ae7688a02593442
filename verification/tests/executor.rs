use arrow::array::{Array, BooleanArray, Int64Array, StringArray};
use query_executor::batch::Batch;
use query_executor::catalog::{Catalog, DatabaseSchema, TableSchema};
use query_executor::executor::{
    databases_to_batch, listing_fits, CreateQueryExecutorArgs, QueryExecutorError,
    QueryExecutorImpl,
};
use query_executor::listing::DatabaseRow;
use query_executor::query_log::{QueryKind, QueryLog, QueryPhase};
use query_executor::retention::{
    retention_policy_row, retention_policy_rows_to_batch, RetentionPolicyRow,
    RetentionPolicyRowBuilder,
};

fn db(name: &str, id: u32, deleted: bool) -> DatabaseSchema {
    let tables = vec![
        TableSchema {
            name: "cpu".to_string(),
            id: 0,
            columns: vec!["host".to_string(), "usage".to_string(), "time".to_string()],
        },
        TableSchema { name: "mem".to_string(), id: 1, columns: vec!["time".to_string()] },
    ];
    DatabaseSchema { name: name.to_string(), id, deleted, tables }
}

fn executor(log_size: usize) -> QueryExecutorImpl {
    QueryExecutorImpl::new(CreateQueryExecutorArgs {
        catalog: Catalog {
            databases: vec![
                db("test_db", 1, false),
                db("gone-20240101", 2, true),
                db("foo/bar", 3, false),
                db("alpha", 4, false),
            ],
        },
        datafusion_config: vec![("datafusion.execution.batch_size".to_string(), "8".to_string())],
        query_log_size: log_size,
    })
}

fn column_names(batch: &Batch) -> Vec<String> {
    batch.inner.schema().fields().iter().map(|f| f.name().clone()).collect()
}

fn text_column(batch: &Batch, i: usize) -> Vec<String> {
    let array = batch.inner.column(i).as_any().downcast_ref::<StringArray>().unwrap();
    assert_eq!(array.null_count(), 0);
    (0..array.len()).map(|k| array.value(k).to_string()).collect()
}

fn flag_column(batch: &Batch, i: usize) -> Vec<bool> {
    let array = batch.inner.column(i).as_any().downcast_ref::<BooleanArray>().unwrap();
    assert_eq!(array.null_count(), 0);
    (0..array.len()).map(|k| array.value(k)).collect()
}

fn number_column(batch: &Batch, i: usize) -> Vec<Option<i64>> {
    let array = batch.inner.column(i).as_any().downcast_ref::<Int64Array>().unwrap();
    (0..array.len()).map(|k| if array.is_null(k) { None } else { Some(array.value(k)) }).collect()
}

fn phases(exec: &QueryExecutorImpl) -> Vec<(u64, QueryPhase)> {
    exec.query_log().iter().map(|e| (e.id, e.phase)).collect()
}

#[test]
fn query_on_missing_database_is_not_found() {
    let mut exec = executor(10);
    match exec.query("nope", "select 1", None, QueryKind::Sql, None, None) {
        Err(QueryExecutorError::DatabaseNotFound { db_name }) => assert_eq!(db_name, "nope"),
        other => panic!("unexpected: {:?}", other),
    }
    assert!(exec.query_log().is_empty());
    assert_eq!(exec.num_queries(), 0);
}

#[test]
fn query_on_deleted_database_is_not_found() {
    let mut exec = executor(10);
    match exec.query("gone-20240101", "select 1", None, QueryKind::Sql, None, None) {
        Err(QueryExecutorError::DatabaseNotFound { db_name }) => {
            assert_eq!(db_name, "gone-20240101")
        }
        other => panic!("unexpected: {:?}", other),
    }
    assert!(exec.query_log().is_empty());
}

#[test]
fn query_goes_through_every_phase() {
    let mut exec = executor(10);
    let pending = exec
        .query(
            "test_db",
            "SELECT * FROM cpu",
            Some(vec![("host".to_string(), "a".to_string())]),
            QueryKind::Sql,
            Some(7),
            Some(9),
        )
        .unwrap();
    assert_eq!(pending.token.query_id(), 0);
    assert_eq!(pending.database.name(), "test_db");
    assert_eq!(pending.context.database_id, 1);
    assert_eq!(pending.context.trace_id, Some(7));
    assert_eq!(
        pending.context.options,
        vec![("datafusion.execution.batch_size".to_string(), "8".to_string())]
    );
    let functions: Vec<(&str, u32)> = pending
        .context
        .table_functions
        .iter()
        .map(|f| (f.name.as_str(), f.database_id))
        .collect();
    assert_eq!(functions, vec![("last_cache", 1), ("distinct_cache", 1)]);
    assert_eq!(exec.num_queries(), 1);
    {
        let log = exec.query_log();
        assert_eq!(log.len(), 1);
        assert_eq!(log[0].id, 0);
        assert_eq!(log[0].text, "SELECT * FROM cpu");
        assert_eq!(log[0].kind, QueryKind::Sql);
        assert_eq!(log[0].params, vec![("host".to_string(), "a".to_string())]);
        assert_eq!(log[0].trace_id, Some(9));
        assert_eq!(log[0].phase, QueryPhase::Received);
    }
    let planned = exec.query_planned(pending.token, Ok(())).unwrap();
    assert_eq!(phases(&exec), vec![(0, QueryPhase::Planned)]);
    let permitted = match exec.query_permitted(planned) {
        Ok(p) => p,
        Err(_) => panic!("a permit is free"),
    };
    assert_eq!(phases(&exec), vec![(0, QueryPhase::Permitted)]);
    assert_eq!(exec.permits_in_use(), 1);
    exec.query_executed(permitted, Ok(())).unwrap();
    assert_eq!(phases(&exec), vec![(0, QueryPhase::Success)]);
    assert_eq!(exec.permits_in_use(), 0);
    assert_eq!(exec.num_queries(), 1);
}

#[test]
fn failed_planning_is_logged_and_returned() {
    let mut exec = executor(10);
    let pending = exec.query("test_db", "SELEC", None, QueryKind::InfluxQl, None, None).unwrap();
    match exec.query_planned(pending.token, Err("syntax error at SELEC".to_string())) {
        Err(QueryExecutorError::QueryPlanning(text)) => assert_eq!(text, "syntax error at SELEC"),
        other => panic!("unexpected: {:?}", other),
    }
    assert_eq!(phases(&exec), vec![(0, QueryPhase::Failed)]);
    assert_eq!(exec.query_log()[0].kind, QueryKind::InfluxQl);
    assert!(exec.query_log()[0].params.is_empty());
    assert_eq!(exec.num_queries(), 1);
    assert_eq!(exec.permits_in_use(), 0);
}

#[test]
fn failed_stream_is_logged_and_returned() {
    let mut exec = executor(10);
    let pending = exec.query("test_db", "select 1", None, QueryKind::Sql, None, None).unwrap();
    let planned = exec.query_planned(pending.token, Ok(())).unwrap();
    let permitted = match exec.query_permitted(planned) {
        Ok(p) => p,
        Err(_) => panic!("a permit is free"),
    };
    match exec.query_executed(permitted, Err("out of memory".to_string())) {
        Err(QueryExecutorError::ExecuteStream(text)) => assert_eq!(text, "out of memory"),
        other => panic!("unexpected: {:?}", other),
    }
    assert_eq!(phases(&exec), vec![(0, QueryPhase::Failed)]);
    assert_eq!(exec.permits_in_use(), 0);
}

#[test]
fn every_query_ends_in_one_final_entry() {
    let mut exec = executor(10);
    for (i, ok) in [true, false, true].iter().enumerate() {
        let pending = exec.query("alpha", "select 1", None, QueryKind::Sql, None, None).unwrap();
        assert_eq!(pending.token.query_id(), i as u64);
        let planned = exec.query_planned(pending.token, Ok(())).unwrap();
        let permitted = match exec.query_permitted(planned) {
            Ok(p) => p,
            Err(_) => panic!("a permit is free"),
        };
        let stream = if *ok { Ok(()) } else { Err("no".to_string()) };
        assert_eq!(exec.query_executed(permitted, stream).is_ok(), *ok);
    }
    assert_eq!(
        phases(&exec),
        vec![(0, QueryPhase::Success), (1, QueryPhase::Failed), (2, QueryPhase::Success)]
    );
    assert_eq!(exec.num_queries(), 3);
}

#[test]
fn full_log_drops_its_oldest_entry() {
    let mut exec = executor(2);
    let first = exec.query("alpha", "q0", None, QueryKind::Sql, None, None).unwrap();
    let second = exec.query("alpha", "q1", None, QueryKind::Sql, None, None).unwrap();
    let third = exec.query("alpha", "q2", None, QueryKind::Sql, None, None).unwrap();
    assert_eq!(phases(&exec), vec![(1, QueryPhase::Received), (2, QueryPhase::Received)]);
    // the first query is no longer in the log: its transitions change nothing
    let planned = exec.query_planned(first.token, Ok(())).unwrap();
    assert_eq!(planned.query_id(), 0);
    assert_eq!(phases(&exec), vec![(1, QueryPhase::Received), (2, QueryPhase::Received)]);
    assert!(exec.query_planned(third.token, Err("bad".to_string())).is_err());
    assert_eq!(phases(&exec), vec![(1, QueryPhase::Received), (2, QueryPhase::Failed)]);
    exec.query_planned(second.token, Ok(())).unwrap();
    assert_eq!(phases(&exec), vec![(1, QueryPhase::Planned), (2, QueryPhase::Failed)]);
    let texts: Vec<String> = exec.query_log().iter().map(|e| e.text.clone()).collect();
    assert_eq!(texts, vec!["q1".to_string(), "q2".to_string()]);
}

#[test]
fn log_of_capacity_zero_keeps_nothing() {
    let mut log = QueryLog::new(0);
    let token = log.push(QueryKind::Sql, "q".to_string(), Vec::new(), None);
    assert_eq!(token.query_id(), 0);
    assert_eq!(log.len(), 0);
    assert_eq!(log.capacity(), 0);
    let next = log.push(QueryKind::Sql, "q".to_string(), Vec::new(), None);
    assert_eq!(next.query_id(), 1);
    next.fail(&mut log);
    assert!(log.entries().is_empty());
}

#[test]
fn tokens_move_forward_only() {
    let mut log = QueryLog::new(3);
    let a = log.push(QueryKind::Sql, "a".to_string(), Vec::new(), Some(1));
    let b = log.push(QueryKind::InfluxQl, "b".to_string(), Vec::new(), None);
    let a = a.planned(&mut log);
    let a = a.permit(&mut log);
    b.planned(&mut log).fail(&mut log);
    a.success(&mut log);
    let got: Vec<(u64, QueryPhase)> = log.entries().iter().map(|e| (e.id, e.phase)).collect();
    assert_eq!(got, vec![(0, QueryPhase::Success), (1, QueryPhase::Failed)]);
    assert_eq!(QueryKind::Sql.query_type(), "sql");
    assert_eq!(QueryKind::InfluxQl.query_type(), "influxql");
}

#[test]
fn permits_are_counted() {
    let mut exec = executor(1);
    assert_eq!(exec.max_permits(), usize::MAX >> 3);
    assert_eq!(exec.max_permits(), tokio::sync::Semaphore::MAX_PERMITS);
    let a = exec.acquire_semaphore().unwrap();
    let b = exec.acquire_semaphore().unwrap();
    assert_eq!(exec.permits_in_use(), 2);
    exec.release_semaphore(a);
    exec.release_semaphore(b);
    assert_eq!(exec.permits_in_use(), 0);
}

#[test]
fn namespace_gives_a_snapshot() {
    let mut exec = executor(1);
    let db_view = exec.namespace("test_db").unwrap().unwrap();
    exec.set_catalog(Catalog { databases: Vec::new() });
    assert_eq!(db_view.table_names(), vec!["cpu".to_string(), "mem".to_string()]);
    assert!(db_view.table_exist("cpu"));
    match exec.namespace("test_db") {
        Err(QueryExecutorError::DatabaseNotFound { db_name }) => assert_eq!(db_name, "test_db"),
        other => panic!("unexpected: {:?}", other),
    }
    assert!(exec.catalog().databases.is_empty());
}

#[test]
fn show_databases_without_deleted() {
    let exec = executor(1);
    let batch = exec.show_databases(false).unwrap();
    assert_eq!(column_names(&batch), vec!["iox::database".to_string()]);
    assert_eq!(batch.inner.num_columns(), 1);
    assert_eq!(
        text_column(&batch, 0),
        vec!["alpha".to_string(), "foo/bar".to_string(), "test_db".to_string()]
    );
    assert!(!batch.inner.schema().field(0).is_nullable());
}

#[test]
fn show_databases_with_deleted() {
    let exec = executor(1);
    let batch = exec.show_databases(true).unwrap();
    assert_eq!(column_names(&batch), vec!["iox::database".to_string(), "deleted".to_string()]);
    assert_eq!(
        text_column(&batch, 0),
        vec![
            "alpha".to_string(),
            "foo/bar".to_string(),
            "test_db".to_string(),
            "gone-20240101".to_string()
        ]
    );
    assert_eq!(flag_column(&batch, 1), vec![false, false, false, true]);
}

#[test]
fn show_databases_of_empty_catalog() {
    let exec = QueryExecutorImpl::new(CreateQueryExecutorArgs {
        catalog: Catalog { databases: Vec::new() },
        datafusion_config: Vec::new(),
        query_log_size: 0,
    });
    let batch = exec.show_databases(true).unwrap();
    assert_eq!(batch.inner.num_rows(), 0);
    assert_eq!(batch.inner.num_columns(), 2);
    let batch = exec.show_databases(false).unwrap();
    assert_eq!(batch.inner.num_rows(), 0);
    assert_eq!(batch.inner.num_columns(), 1);
}

#[test]
fn small_listings_fit() {
    assert!(listing_fits(&Vec::new()));
    let rows = vec![
        DatabaseRow { name: "é".to_string(), deleted: false },
        DatabaseRow { name: String::new(), deleted: true },
    ];
    assert!(listing_fits(&rows));
}

#[test]
fn databases_to_batch_keeps_the_rows() {
    let rows = vec![
        DatabaseRow { name: "b".to_string(), deleted: true },
        DatabaseRow { name: "a".to_string(), deleted: false },
    ];
    let batch = databases_to_batch(&rows, true).unwrap();
    assert_eq!(text_column(&batch, 0), vec!["b".to_string(), "a".to_string()]);
    assert_eq!(flag_column(&batch, 1), vec![true, false]);
    let batch = databases_to_batch(&rows, false).unwrap();
    assert_eq!(text_column(&batch, 0), vec!["b".to_string(), "a".to_string()]);
    assert_eq!(batch.inner.num_columns(), 1);
}

#[test]
fn show_retention_policies_of_all_databases() {
    let exec = executor(1);
    let batch = exec.show_retention_policies(None).unwrap();
    assert_eq!(
        column_names(&batch),
        vec!["iox::database".to_string(), "name".to_string(), "duration".to_string()]
    );
    assert_eq!(
        text_column(&batch, 0),
        vec!["alpha".to_string(), "foo".to_string(), "test_db".to_string()]
    );
    assert_eq!(
        text_column(&batch, 1),
        vec!["autogen".to_string(), "bar".to_string(), "autogen".to_string()]
    );
    assert_eq!(number_column(&batch, 2), vec![None, None, None]);
    assert!(batch.inner.schema().field(2).is_nullable());
    assert!(!batch.inner.schema().field(1).is_nullable());
}

#[test]
fn show_retention_policies_of_one_database() {
    let exec = executor(1);
    let batch = exec.show_retention_policies(Some("foo/bar")).unwrap();
    assert_eq!(text_column(&batch, 0), vec!["foo".to_string()]);
    assert_eq!(text_column(&batch, 1), vec!["bar".to_string()]);
    assert_eq!(number_column(&batch, 2), vec![None]);
}

#[test]
fn show_retention_policies_of_missing_database() {
    let exec = executor(1);
    match exec.show_retention_policies(Some("foo")) {
        Err(QueryExecutorError::DatabaseNotFound { db_name }) => assert_eq!(db_name, "foo"),
        Ok(_) => panic!("the catalog has no such database"),
        Err(other) => panic!("unexpected: {:?}", other),
    }
    match exec.show_retention_policies(Some("gone-20240101")) {
        Err(QueryExecutorError::DatabaseNotFound { db_name }) => {
            assert_eq!(db_name, "gone-20240101")
        }
        Ok(_) => panic!("the database is deleted"),
        Err(other) => panic!("unexpected: {:?}", other),
    }
}

#[test]
fn retention_policy_rows_stop_at_the_first_missing_name() {
    let exec = executor(1);
    let names = vec!["alpha".to_string(), "x".to_string(), "y".to_string()];
    match exec.retention_policy_rows(&names) {
        Err(QueryExecutorError::DatabaseNotFound { db_name }) => assert_eq!(db_name, "x"),
        other => panic!("unexpected: {:?}", other),
    }
    let rows = exec.retention_policy_rows(&vec!["test_db".to_string(), "alpha".to_string()]).unwrap();
    let got: Vec<(&str, &str, Option<i64>)> =
        rows.iter().map(|r| (r.database.as_str(), r.name.as_str(), r.duration)).collect();
    assert_eq!(got, vec![("test_db", "autogen", None), ("alpha", "autogen", None)]);
}

#[test]
fn retention_policy_batch_holds_durations() {
    let rows = vec![
        retention_policy_row("db/week", Some(604_800_000_000_000)),
        RetentionPolicyRow { database: "other".to_string(), name: "forever".to_string(), duration: None },
    ];
    assert_eq!(rows[0].database, "db");
    assert_eq!(rows[0].name, "week");
    let batch = retention_policy_rows_to_batch(&rows).unwrap();
    assert_eq!(text_column(&batch, 0), vec!["db".to_string(), "other".to_string()]);
    assert_eq!(text_column(&batch, 1), vec!["week".to_string(), "forever".to_string()]);
    assert_eq!(number_column(&batch, 2), vec![Some(604_800_000_000_000), None]);
}

#[test]
fn builder_is_empty_after_finish() {
    let mut builder = RetentionPolicyRowBuilder::new();
    builder.append(&retention_policy_row("a", None));
    builder.extend(&vec![retention_policy_row("b/c", Some(1)), retention_policy_row("d", Some(2))]);
    assert!(builder.can_append(&retention_policy_row("e", None)));
    let batch = builder.finish();
    assert_eq!(batch.inner.num_rows(), 3);
    assert_eq!(number_column(&batch, 2), vec![None, Some(1), Some(2)]);
    let batch = builder.finish();
    assert_eq!(batch.inner.num_rows(), 0);
    assert_eq!(batch.inner.num_columns(), 3);
}

#[test]
fn cancelled_query_keeps_its_last_phase() {
    let mut exec = executor(4);
    let pending = exec.query("alpha", "select 1", None, QueryKind::Sql, None, None).unwrap();
    let planned = exec.query_planned(pending.token, Ok(())).unwrap();
    let permitted = match exec.query_permitted(planned) {
        Ok(p) => p,
        Err(_) => panic!("a permit is free"),
    };
    assert_eq!(exec.permits_in_use(), 1);
    exec.query_cancelled(permitted);
    assert_eq!(exec.permits_in_use(), 0);
    assert_eq!(phases(&exec), vec![(0, QueryPhase::Permitted)]);
}

fn zeros(len: usize) -> String {
    String::from_utf8(vec![0u8; len]).unwrap()
}

#[test]
fn names_beyond_the_offset_range_do_not_fit() {
    let limit = i32::MAX as usize;
    let mut rows = vec![
        DatabaseRow { name: zeros(limit - 3), deleted: false },
        DatabaseRow { name: "abc".to_string(), deleted: false },
    ];
    assert!(listing_fits(&rows));
    rows.push(DatabaseRow { name: "d".to_string(), deleted: true });
    assert!(!listing_fits(&rows));
    match databases_to_batch(&rows, true) {
        Err(QueryExecutorError::DatabasesToRecordBatch(_)) => {}
        Err(other) => panic!("unexpected: {:?}", other),
        Ok(_) => panic!("the names do not fit into one column"),
    }
}

#[test]
fn oversized_policy_rows_give_no_batch() {
    let big = RetentionPolicyRow {
        database: "db".to_string(),
        name: zeros(i32::MAX as usize + 1),
        duration: None,
    };
    let builder = RetentionPolicyRowBuilder::new();
    assert!(!builder.can_append(&big));
    assert!(builder.can_append(&retention_policy_row("db/policy", Some(3))));
    assert!(retention_policy_rows_to_batch(&vec![retention_policy_row("a", None), big]).is_none());
}
