use query_executor::catalog::{DatabaseSchema, TableSchema};
use query_executor::namespace::{Database, FilterPushDown, SchemaKind, TableType};
use query_executor::query_log::{QueryKind, QueryLog, QueryPhase};

fn database() -> Database {
    let tables = vec![
        TableSchema {
            name: "cpu".to_string(),
            id: 3,
            columns: vec!["host".to_string(), "usage".to_string(), "time".to_string()],
        },
        TableSchema { name: "mem".to_string(), id: 4, columns: vec!["time".to_string()] },
    ];
    Database::new(
        DatabaseSchema { name: "test_db".to_string(), id: 11, deleted: false, tables },
        vec![("a".to_string(), "1".to_string()), ("b".to_string(), "2".to_string())],
    )
}

#[test]
fn schema_names_are_data_and_system() {
    assert_eq!(database().schema_names(), vec!["iox".to_string(), "system".to_string()]);
}

#[test]
fn schema_resolves_the_two_names_only() {
    let db = database();
    assert_eq!(db.schema("iox"), Some(SchemaKind::Tables));
    assert_eq!(db.schema("system"), Some(SchemaKind::System));
    assert_eq!(db.schema("public"), None);
    assert_eq!(db.schema(""), None);
    assert_eq!(db.schema("IOX"), None);
}

#[test]
fn tables_follow_the_snapshot() {
    let db = database();
    assert_eq!(db.table_names(), vec!["cpu".to_string(), "mem".to_string()]);
    assert!(db.table_exist("cpu"));
    assert!(db.table_exist("mem"));
    assert!(!db.table_exist("disk"));
    assert!(db.table("disk").is_none());
    assert!(db.query_table("disk").is_none());
    let table = db.table("cpu").unwrap();
    assert_eq!(
        table.schema(),
        vec!["host".to_string(), "usage".to_string(), "time".to_string()]
    );
    assert_eq!(table.table_type(), TableType::Base);
    assert_eq!(db.retention_time_ns(), None);
    assert_eq!(db.name(), "test_db");
}

#[test]
fn second_view_reads_the_same_snapshot() {
    let db = database();
    let other = Database::from_namespace(&db);
    assert_eq!(other.table_names(), db.table_names());
    assert_eq!(other.name(), "test_db");
    assert_eq!(other.new_query_context(None).options, db.new_query_context(None).options);
}

#[test]
fn every_filter_is_inexact() {
    let table = database().table("cpu").unwrap();
    assert_eq!(table.supports_filters_pushdown(0), Vec::new());
    assert_eq!(
        table.supports_filters_pushdown(3),
        vec![FilterPushDown::Inexact, FilterPushDown::Inexact, FilterPushDown::Inexact]
    );
}

#[test]
fn chunk_request_leaves_the_limit_out() {
    let table = database().table("mem").unwrap();
    let with_limit = table.chunks(Some(vec![0, 2]), 1, Some(4));
    let without = table.chunks(Some(vec![0, 2]), 1, None);
    assert_eq!(with_limit.database, "test_db");
    assert_eq!(with_limit.table, "mem");
    assert_eq!(with_limit.projection, Some(vec![0, 2]));
    assert_eq!(with_limit.filters, 1);
    assert_eq!(with_limit.database, without.database);
    assert_eq!(with_limit.table, without.table);
    assert_eq!(with_limit.projection, without.projection);
    assert_eq!(with_limit.filters, without.filters);
}

#[test]
fn scan_reads_every_chunk_in_order() {
    let table = database().table("cpu").unwrap();
    let source = table.scan(vec![5, 1, 9], None, 2, Some(4));
    assert_eq!(source.table, "cpu");
    assert_eq!(source.chunks, vec![5, 1, 9]);
    assert_eq!(source.columns, vec!["host".to_string(), "usage".to_string(), "time".to_string()]);
    assert_eq!(source.projection, None);
    assert_eq!(source.filters, 2);
    assert_eq!(source.limit, Some(4));
    let empty = table.scan(Vec::new(), Some(vec![1]), 0, None);
    assert!(empty.chunks.is_empty());
    assert_eq!(empty.projection, Some(vec![1]));
    assert_eq!(empty.limit, None);
}

#[test]
fn query_context_carries_options_and_functions() {
    let ctx = database().new_query_context(Some(42));
    assert_eq!(ctx.database_id, 11);
    assert_eq!(ctx.trace_id, Some(42));
    assert_eq!(
        ctx.options,
        vec![("a".to_string(), "1".to_string()), ("b".to_string(), "2".to_string())]
    );
    assert_eq!(ctx.table_functions.len(), 2);
    assert_eq!(ctx.table_functions[0].name, "last_cache");
    assert_eq!(ctx.table_functions[0].database_id, 11);
    assert_eq!(ctx.table_functions[1].name, "distinct_cache");
    assert_eq!(ctx.table_functions[1].database_id, 11);
}

#[test]
fn record_query_enters_the_log() {
    let db = database();
    let mut log = QueryLog::new(4);
    let token = db.record_query(
        &mut log,
        Some(5),
        QueryKind::InfluxQl,
        "show databases".to_string(),
        Vec::new(),
    );
    assert_eq!(token.query_id(), 0);
    let entries = log.entries();
    assert_eq!(entries.len(), 1);
    assert_eq!(entries[0].text, "show databases");
    assert_eq!(entries[0].trace_id, Some(5));
    assert_eq!(entries[0].kind, QueryKind::InfluxQl);
    assert_eq!(entries[0].phase, QueryPhase::Received);
}
