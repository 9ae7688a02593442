//! The view of one database that a query works on, and the tables that a plan
//! scans.

use vstd::prelude::*;
use crate::catalog::{
    copy_strings, has_table, is_table_named, texts, DatabaseSchema, DatabaseSchemaView,
    TableSchema, TableSchemaView,
};
use crate::query_log::{copy_params, pushed, QueryKind, QueryLog, ReceivedToken};

verus! {

/// What a schema name of a database stands for.
#[derive(Clone, Copy, Debug, PartialEq, Eq, Structural)]
pub enum SchemaKind {
    /// The tables that hold the data of the database.
    Tables,
    /// The system tables.
    System,
}

/// The kind of a table.
#[derive(Clone, Copy, Debug, PartialEq, Eq, Structural)]
pub enum TableType {
    Base,
    View,
    Temporary,
}

/// How far a table applies a filter that is handed to its scan.
#[derive(Clone, Copy, Debug, PartialEq, Eq, Structural)]
pub enum FilterPushDown {
    /// The filter is not used.
    Unsupported,
    /// The scan may return rows that the filter rejects: the plan filters again.
    Inexact,
    /// The scan returns only rows that the filter accepts.
    Exact,
}

/// A table function that a query can call, bound to one database.
#[derive(Debug)]
pub struct TableFunction {
    pub name: String,
    pub database_id: u32,
}

/// What a query runs in: the database, the configured options in their
/// order, the trace that the query belongs to, and the table functions.
#[derive(Debug)]
pub struct QueryContext {
    pub database_id: u32,
    pub options: Vec<(String, String)>,
    pub trace_id: Option<u128>,
    pub table_functions: Vec<TableFunction>,
}

/// The view of one database for one query: a snapshot of its schema, and the
/// options that its queries run with.
#[derive(Debug)]
pub struct Database {
    db_schema: DatabaseSchema,
    datafusion_config: Vec<(String, String)>,
}

/// One table of a database, as a plan scans it.
#[derive(Debug)]
pub struct QueryTable {
    db_name: String,
    table_name: String,
    schema: TableSchema,
}

/// What is asked of the storage for a scan: the chunks of one table that may
/// hold rows for the given columns and filters.
#[derive(Debug)]
pub struct ChunkRequest {
    pub database: String,
    pub table: String,
    pub projection: Option<Vec<usize>>,
    pub filters: usize,
}

/// What a scan reads: the chunks of one table in the order in which the storage
/// gave them, with the columns, filters and row limit that the plan applies.
#[derive(Debug)]
pub struct ScanSource {
    pub table: String,
    pub columns: Vec<String>,
    pub chunks: Vec<u64>,
    pub projection: Option<Vec<usize>>,
    pub filters: usize,
    pub limit: Option<usize>,
}

/// The name of the schema that holds the tables of a database.
pub open spec fn default_schema_name() -> Seq<char> {
    "iox"@
}

/// The name of the schema that holds the system tables.
pub open spec fn system_schema_name() -> Seq<char> {
    "system"@
}

/// The name of the table function that reads the cache of last values.
pub open spec fn last_cache_function_name() -> Seq<char> {
    "last_cache"@
}

/// The name of the table function that reads the cache of distinct values.
pub open spec fn distinct_cache_function_name() -> Seq<char> {
    "distinct_cache"@
}

/// What a schema name stands for, if anything.
pub open spec fn schema_kind(name: Seq<char>) -> Option<SchemaKind> {
    if name == default_schema_name() {
        Some(SchemaKind::Tables)
    } else if name == system_schema_name() {
        Some(SchemaKind::System)
    } else {
        None
    }
}

impl QueryContext {
    /// Whether this is the context of a query on the database `id` with the
    /// options `config` and the trace `trace_id`: it offers the two cache
    /// functions, both bound to that database.
    pub open spec fn is_context_of(
        &self,
        id: u32,
        config: Seq<(String, String)>,
        trace_id: Option<u128>,
    ) -> bool {
        &&& self.database_id == id
        &&& self.options@ == config
        &&& self.trace_id == trace_id
        &&& self.table_functions@.len() == 2
        &&& self.table_functions@[0].name@ == last_cache_function_name()
        &&& self.table_functions@[0].database_id == id
        &&& self.table_functions@[1].name@ == distinct_cache_function_name()
        &&& self.table_functions@[1].database_id == id
    }
}

impl Database {
    /// The schema snapshot that this view works on.
    pub closed spec fn schema_view(&self) -> DatabaseSchemaView {
        self.db_schema@
    }

    /// The options that queries on this database run with.
    pub closed spec fn config_view(&self) -> Seq<(String, String)> {
        self.datafusion_config@
    }

    /// The view of the database with the schema `db_schema`.
    pub fn new(db_schema: DatabaseSchema, datafusion_config: Vec<(String, String)>) -> (db:
        Database)
        ensures
            db.schema_view() == db_schema@,
            db.config_view() == datafusion_config@,
    {
        Database { db_schema, datafusion_config }
    }

    /// A second view of the same snapshot.
    pub fn from_namespace(db: &Database) -> (res: Database)
        ensures
            res.schema_view() == db.schema_view(),
            res.config_view() == db.config_view(),
    {
        Database {
            db_schema: db.db_schema.snapshot(),
            datafusion_config: copy_params(&db.datafusion_config),
        }
    }

    /// The name of the database.
    pub fn name(&self) -> (name: String)
        ensures
            name@ == self.schema_view().name,
    {
        self.db_schema.name.clone()
    }

    /// The table called `table_name`, ready to be scanned, if the snapshot has it.
    pub fn query_table(&self, table_name: &str) -> (res: Option<QueryTable>)
        ensures
            res.is_some() <==> has_table(self.schema_view().tables, table_name@),
            res matches Some(table) ==> {
                &&& table.db_name_view() == self.schema_view().name
                &&& table.table_name_view() == table_name@
                &&& is_table_named(self.schema_view().tables, table_name@, table.schema_view())
            },
    {
        match self.db_schema.table_schema(table_name) {
            Some(schema) => Some(
                QueryTable {
                    db_name: self.db_schema.name.clone(),
                    table_name: table_name.to_owned(),
                    schema,
                },
            ),
            None => None,
        }
    }

    /// The retention time of the database: none is known here.
    pub fn retention_time_ns(&self) -> (res: Option<i64>)
        ensures
            res.is_none(),
    {
        None
    }

    /// Records in `log` that a query was received, and returns its handle.
    pub fn record_query(
        &self,
        log: &mut QueryLog,
        trace_id: Option<u128>,
        kind: QueryKind,
        query_text: String,
        query_params: Vec<(String, String)>,
    ) -> (token: ReceivedToken)
        requires
            old(log).wf(),
        ensures
            final(log).wf(),
            final(log)@ == pushed(old(log)@, kind, query_text@, query_params@, trace_id),
            token.id() == old(log)@.next_id,
    {
        log.push(kind, query_text, query_params, trace_id)
    }

    /// The context of a new query on this database: the configured options in
    /// their order, the given trace, and the two cache functions bound to this
    /// database.
    pub fn new_query_context(&self, trace_id: Option<u128>) -> (ctx: QueryContext)
        ensures
            ctx.is_context_of(self.schema_view().id, self.config_view(), trace_id),
    {
        let mut table_functions: Vec<TableFunction> = Vec::new();
        table_functions.push(
            TableFunction { name: "last_cache".to_owned(), database_id: self.db_schema.id },
        );
        table_functions.push(
            TableFunction { name: "distinct_cache".to_owned(), database_id: self.db_schema.id },
        );
        QueryContext {
            database_id: self.db_schema.id,
            options: copy_params(&self.datafusion_config),
            trace_id,
            table_functions,
        }
    }

    /// The names of the two schemas of a database: that of its tables, then that
    /// of the system tables.
    pub fn schema_names(&self) -> (names: Vec<String>)
        ensures
            texts(names@) == seq![default_schema_name(), system_schema_name()],
    {
        let mut names: Vec<String> = Vec::new();
        names.push("iox".to_owned());
        names.push("system".to_owned());
        assert(texts(names@) =~= seq![default_schema_name(), system_schema_name()]);
        names
    }

    /// What the schema called `name` stands for, if this database has it.
    pub fn schema(&self, name: &str) -> (res: Option<SchemaKind>)
        ensures
            res == schema_kind(name@),
    {
        let wanted = name.to_owned();
        if wanted == "iox".to_owned() {
            Some(SchemaKind::Tables)
        } else if wanted == "system".to_owned() {
            Some(SchemaKind::System)
        } else {
            None
        }
    }

    /// The names of the tables of the snapshot, in its order.
    pub fn table_names(&self) -> (names: Vec<String>)
        ensures
            names@.len() == self.schema_view().tables.len(),
            forall|i: int|
                0 <= i < names@.len() ==> (#[trigger] names@[i])@
                    == self.schema_view().tables[i].name,
    {
        self.db_schema.table_names()
    }

    /// The table called `table_name`, ready to be scanned, if the snapshot has it.
    pub fn table(&self, table_name: &str) -> (res: Option<QueryTable>)
        ensures
            res.is_some() <==> has_table(self.schema_view().tables, table_name@),
            res matches Some(table) ==> {
                &&& table.db_name_view() == self.schema_view().name
                &&& table.table_name_view() == table_name@
                &&& is_table_named(self.schema_view().tables, table_name@, table.schema_view())
            },
    {
        self.query_table(table_name)
    }

    /// Whether the snapshot has a table called `name`.
    pub fn table_exist(&self, name: &str) -> (res: bool)
        ensures
            res == has_table(self.schema_view().tables, name@),
    {
        self.db_schema.table_name_to_id(name).is_some()
    }
}

impl QueryTable {
    /// The name of the database of the table.
    pub closed spec fn db_name_view(&self) -> Seq<char> {
        self.db_name@
    }

    /// The name of the table.
    pub closed spec fn table_name_view(&self) -> Seq<char> {
        self.table_name@
    }

    /// The schema of the table.
    pub closed spec fn schema_view(&self) -> TableSchemaView {
        self.schema@
    }

    /// What to ask of the storage for a scan. The row limit of the scan is not
    /// handed on: the plan applies it to what the chunks give.
    pub fn chunks(&self, projection: Option<Vec<usize>>, filters: usize, limit: Option<usize>) -> (req:
        ChunkRequest)
        ensures
            req.database@ == self.db_name_view(),
            req.table@ == self.table_name_view(),
            req.projection == projection,
            req.filters == filters,
    {
        ChunkRequest {
            database: self.db_name.clone(),
            table: self.table_name.clone(),
            projection,
            filters,
        }
    }

    /// The names of the columns of the table.
    pub fn schema(&self) -> (columns: Vec<String>)
        ensures
            texts(columns@) == self.schema_view().columns,
    {
        copy_strings(&self.schema.columns)
    }

    /// The kind of the table: always a base table.
    pub fn table_type(&self) -> (res: TableType)
        ensures
            res == TableType::Base,
    {
        TableType::Base
    }

    /// How far the table applies each of `filters` filters: none of them exactly.
    pub fn supports_filters_pushdown(&self, filters: usize) -> (res: Vec<FilterPushDown>)
        ensures
            res@.len() == filters,
            forall|i: int| 0 <= i < filters ==> (#[trigger] res@[i]) == FilterPushDown::Inexact,
    {
        let mut res: Vec<FilterPushDown> = Vec::new();
        let mut i: usize = 0;
        while i < filters
            invariant
                i <= filters,
                res@.len() == i,
                forall|j: int| 0 <= j < i ==> (#[trigger] res@[j]) == FilterPushDown::Inexact,
            decreases filters - i,
        {
            res.push(FilterPushDown::Inexact);
            i = i + 1;
        }
        res
    }

    /// What a scan of the table reads, given the chunks that the storage gave for
    /// the request of `chunks`: all of them, in their order, under the columns of
    /// the table, with the projection, filters and row limit of the scan.
    pub fn scan(
        &self,
        chunks: Vec<u64>,
        projection: Option<Vec<usize>>,
        filters: usize,
        limit: Option<usize>,
    ) -> (source: ScanSource)
        ensures
            source.table@ == self.table_name_view(),
            texts(source.columns@) == self.schema_view().columns,
            source.chunks@ == chunks@,
            source.projection == projection,
            source.filters == filters,
            source.limit == limit,
    {
        let mut added: Vec<u64> = Vec::new();
        let mut i: usize = 0;
        while i < chunks.len()
            invariant
                i <= chunks.len(),
                added@ == chunks@.take(i as int),
            decreases chunks.len() - i,
        {
            added.push(chunks[i]);
            assert(added@ =~= chunks@.take(i + 1));
            i = i + 1;
        }
        assert(chunks@.take(chunks.len() as int) =~= chunks@);
        ScanSource {
            table: self.table_name.clone(),
            columns: copy_strings(&self.schema.columns),
            chunks: added,
            projection,
            filters,
            limit,
        }
    }
}

} // verus!
