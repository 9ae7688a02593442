//! The query executor: it resolves the database of a query, follows the query
//! through planning, permission and execution in the query log, and lists
//! databases and retention policies.
//!
//! Planning and execution themselves are done by the caller. The executor
//! decides what happens before and after each of them.

use vstd::prelude::*;
use vstd::string::*;
use vstd::utf8::encode_utf8;
use crate::batch::{
    arrow_error_text, batch_column_names, batch_flag_columns, batch_nullable,
    batch_number_columns, batch_text_columns, fits_text_column, lemma_text_bytes_prefix,
    text_and_flag_batch, text_batch, text_bytes, Batch,
};
use crate::catalog::{is_database_named, is_visible, texts, Catalog, DatabaseSchemaView};
use crate::listing::{
    lemma_listed_rows_come_from_catalog, list_databases, listed_rows, row_views, rows_sorted,
    DatabaseRow, DatabaseRowView,
};
use crate::namespace::{Database, QueryContext};
use crate::query_log::{
    advanced, copy_params, count_in_phase, entry_views, lemma_advanced, lemma_pushed,
    lemma_terminal_step, log_wf, pushed, PermittedToken, PlannedToken, QueryKind, QueryLog,
    QueryLogEntry, QueryLogView, QueryPhase, ReceivedToken,
};
use crate::retention::{
    policies_fit, policy_row, policy_row_views, retention_policy_row,
    retention_policy_rows_to_batch, shows_policies, RetentionPolicyRow, RetentionPolicyRowView,
};

verus! {

/// Reads `tokio::sync::Semaphore::MAX_PERMITS`, the largest number of permits
/// that a semaphore of `tokio` holds. Its documentation gives the value that
/// is claimed here.
#[verifier::external_body]
pub(crate) fn semaphore_max_permits() -> (n: usize)
    ensures
        n == usize::MAX >> 3,
{
    tokio::sync::Semaphore::MAX_PERMITS
}

/// Why a request failed.
#[derive(Debug)]
pub enum QueryExecutorError {
    /// The catalog has no database of that name, or only a deleted one.
    DatabaseNotFound { db_name: String },
    /// The query could not be planned. The text is that of the planner.
    QueryPlanning(String),
    /// The stream of results could not be set up.
    ExecuteStream(String),
    /// A listing could not be turned into a batch. The text says why.
    DatabasesToRecordBatch(String),
}

/// What a new executor is made of.
#[derive(Debug)]
pub struct CreateQueryExecutorArgs {
    pub catalog: Catalog,
    pub datafusion_config: Vec<(String, String)>,
    pub query_log_size: usize,
}

/// The query executor of a server.
#[derive(Debug)]
pub struct QueryExecutorImpl {
    catalog: Catalog,
    datafusion_config: Vec<(String, String)>,
    query_log: QueryLog,
    num_queries: u64,
    max_permits: usize,
    permits_in_use: usize,
}

/// The right of one query to run.
#[derive(Debug)]
pub struct Permit {
    _private: (),
}

/// A query that was received and waits for its plan.
#[derive(Debug)]
pub struct PendingQuery {
    pub token: ReceivedToken,
    pub database: Database,
    pub context: QueryContext,
}

/// The executor, as a mathematical value.
pub ghost struct ExecutorView {
    pub catalog: Seq<DatabaseSchemaView>,
    pub config: Seq<(String, String)>,
    pub log: QueryLogView,
    pub num_queries: u64,
    pub max_permits: usize,
    pub permits_in_use: usize,
}

/// Whether `rows` is the listing of the databases of a catalog: the rows of the
/// databases that are listed, sorted by deletion flag and then by name.
pub open spec fn is_database_listing(
    rows: Seq<DatabaseRowView>,
    catalog: Seq<DatabaseSchemaView>,
    include_deleted: bool,
) -> bool {
    rows_sorted(rows) && rows.to_multiset() == listed_rows(catalog, include_deleted).to_multiset()
}

/// Whether a batch shows the given rows of databases: their names, and their
/// deletion flags if deleted databases are included. No column allows nulls.
pub open spec fn shows_databases(
    batch: Batch,
    rows: Seq<DatabaseRowView>,
    include_deleted: bool,
) -> bool {
    &&& batch_text_columns(batch) == map![0int => Seq::new(rows.len(), |i: int| rows[i].name)]
    &&& batch_number_columns(batch).dom() == Set::<int>::empty()
    &&& if include_deleted {
        &&& batch_column_names(batch) == seq!["iox::database"@, "deleted"@]
        &&& batch_nullable(batch) == seq![false, false]
        &&& batch_flag_columns(batch) == map![1int => Seq::new(rows.len(), |i: int| rows[i].deleted)]
    } else {
        &&& batch_column_names(batch) == seq!["iox::database"@]
        &&& batch_nullable(batch) == seq![false]
        &&& batch_flag_columns(batch).dom() == Set::<int>::empty()
    }
}

/// The rows of retention policies of the databases with the given names.
pub open spec fn policy_rows_of(names: Seq<Seq<char>>) -> Seq<RetentionPolicyRowView> {
    Seq::new(names.len(), |i: int| policy_row(names[i], None))
}

/// The names of the given rows of databases.
pub open spec fn row_names(rows: Seq<DatabaseRowView>) -> Seq<Seq<char>> {
    Seq::new(rows.len(), |i: int| rows[i].name)
}

/// Whether `missing` is the first of `names` that the catalog does not have, or
/// has only as deleted.
pub open spec fn is_first_missing(
    catalog: Seq<DatabaseSchemaView>,
    names: Seq<Seq<char>>,
    missing: Seq<char>,
) -> bool {
    exists|i: int|
        0 <= i < names.len() && missing == #[trigger] names[i] && !is_visible(catalog, names[i])
            && forall|j: int| 0 <= j < i ==> is_visible(catalog, #[trigger] names[j])
}

/// The count of queries after one more: it stops at the largest number.
pub open spec fn counted(n: u64) -> u64 {
    if n == u64::MAX {
        n
    } else {
        (n + 1) as u64
    }
}

/// The log of a query that was received and then failed at planning.
pub open spec fn log_after_failed_planning(
    log: QueryLogView,
    kind: QueryKind,
    text: Seq<char>,
    params: Seq<(String, String)>,
    trace_id: Option<u128>,
) -> QueryLogView {
    advanced(pushed(log, kind, text, params, trace_id), log.next_id, QueryPhase::Failed)
}

/// The log of a query that was received, planned and permitted, and whose
/// stream of results then was set up or not.
pub open spec fn log_after_execution(
    log: QueryLogView,
    kind: QueryKind,
    text: Seq<char>,
    params: Seq<(String, String)>,
    trace_id: Option<u128>,
    stream_ok: bool,
) -> QueryLogView {
    let received = pushed(log, kind, text, params, trace_id);
    let planned = advanced(received, log.next_id, QueryPhase::Planned);
    let permitted = advanced(planned, log.next_id, QueryPhase::Permitted);
    advanced(
        permitted,
        log.next_id,
        if stream_ok {
            QueryPhase::Success
        } else {
            QueryPhase::Failed
        },
    )
}

/// A query that fails at planning leaves exactly one entry in a log that
/// keeps entries, and that entry is `Failed`.
pub proof fn lemma_failed_planning_is_terminal(
    log: QueryLogView,
    kind: QueryKind,
    text: Seq<char>,
    params: Seq<(String, String)>,
    trace_id: Option<u128>,
)
    requires
        log_wf(log),
        log.capacity > 0,
        log.next_id < u64::MAX,
    ensures
        ({
            let after = log_after_failed_planning(log, kind, text, params, trace_id);
            &&& log_wf(after)
            &&& count_in_phase(after.entries, log.next_id, QueryPhase::Failed) == 1
            &&& count_in_phase(after.entries, log.next_id, QueryPhase::Success) == 0
            &&& count_in_phase(after.entries, log.next_id, QueryPhase::Received) == 0
        }),
{
    let received = pushed(log, kind, text, params, trace_id);
    lemma_pushed(log, kind, text, params, trace_id);
    lemma_advanced(received, log.next_id, QueryPhase::Failed);
    lemma_terminal_step(received, log.next_id, QueryPhase::Failed);
}

/// A query that reaches planning and has its plan leaves exactly one entry in
/// a log that keeps entries. That entry is final: `Success` if the stream of
/// results was set up, `Failed` if not, and never both.
pub proof fn lemma_one_terminal_entry(
    log: QueryLogView,
    kind: QueryKind,
    text: Seq<char>,
    params: Seq<(String, String)>,
    trace_id: Option<u128>,
    stream_ok: bool,
)
    requires
        log_wf(log),
        log.capacity > 0,
        log.next_id < u64::MAX,
    ensures
        ({
            let after = log_after_execution(log, kind, text, params, trace_id, stream_ok);
            let successes = count_in_phase(after.entries, log.next_id, QueryPhase::Success);
            let failures = count_in_phase(after.entries, log.next_id, QueryPhase::Failed);
            &&& log_wf(after)
            &&& successes + failures == 1
            &&& successes == 1 <==> stream_ok
            &&& count_in_phase(after.entries, log.next_id, QueryPhase::Received) == 0
            &&& count_in_phase(after.entries, log.next_id, QueryPhase::Planned) == 0
            &&& count_in_phase(after.entries, log.next_id, QueryPhase::Permitted) == 0
        }),
{
    let id = log.next_id;
    let received = pushed(log, kind, text, params, trace_id);
    lemma_pushed(log, kind, text, params, trace_id);
    let planned = advanced(received, id, QueryPhase::Planned);
    lemma_advanced(received, id, QueryPhase::Planned);
    let permitted = advanced(planned, id, QueryPhase::Permitted);
    lemma_advanced(planned, id, QueryPhase::Permitted);
    let last_phase = if stream_ok {
        QueryPhase::Success
    } else {
        QueryPhase::Failed
    };
    lemma_advanced(permitted, id, last_phase);
    lemma_terminal_step(permitted, id, last_phase);
}

/// Whether the names of the given rows fit into one column of text.
pub fn listing_fits(rows: &Vec<DatabaseRow>) -> (ok: bool)
    ensures
        ok == fits_text_column(row_names(row_views(rows@))),
{
    let ghost all = row_names(row_views(rows@));
    let mut total: usize = 0;
    let mut i: usize = 0;
    assert(all.take(0) =~= Seq::<Seq<char>>::empty());
    while i < rows.len()
        invariant
            i <= rows.len(),
            all == row_names(row_views(rows@)),
            total == text_bytes(all.take(i as int)),
            total <= 0x7fff_ffff,
        decreases rows.len() - i,
    {
        let n = rows[i].name.as_str().as_bytes().len();
        proof {
            assert(n == encode_utf8(rows@[i as int].name@).len());
            assert(all.take(i + 1).drop_last() =~= all.take(i as int));
            assert(all.take(i + 1).last() == rows@[i as int].name@);
        }
        if n > 0x7fff_ffff - total {
            proof {
                lemma_text_bytes_prefix(all, i + 1);
            }
            return false;
        }
        total = total + n;
        i = i + 1;
    }
    assert(all.take(all.len() as int) =~= all);
    true
}

/// The batch that shows the given rows of databases, with their deletion
/// flags if deleted databases are included. Names that do not fit into one
/// column of text give `DatabasesToRecordBatch`.
pub fn databases_to_batch(rows: &Vec<DatabaseRow>, include_deleted: bool) -> (res: Result<
    Batch,
    QueryExecutorError,
>)
    ensures
        res.is_ok() <==> fits_text_column(row_names(row_views(rows@))),
        res matches Ok(batch) ==> shows_databases(batch, row_views(rows@), include_deleted),
        res matches Err(e) ==> e is DatabasesToRecordBatch,
{
    if !listing_fits(rows) {
        return Err(QueryExecutorError::DatabasesToRecordBatch("offset overflow".to_owned()));
    }
    let mut names: Vec<String> = Vec::new();
    let mut flags: Vec<bool> = Vec::new();
    let mut i: usize = 0;
    while i < rows.len()
        invariant
            i <= rows.len(),
            names@.len() == i,
            flags@.len() == i,
            forall|j: int| 0 <= j < i ==> (#[trigger] names@[j])@ == rows@[j].name@,
            forall|j: int| 0 <= j < i ==> (#[trigger] flags@[j]) == rows@[j].deleted,
        decreases rows.len() - i,
    {
        names.push(rows[i].name.clone());
        flags.push(rows[i].deleted);
        i = i + 1;
    }
    proof {
        let views = row_views(rows@);
        assert(texts(names@) =~= Seq::new(views.len(), |i: int| views[i].name));
        assert(flags@ =~= Seq::new(views.len(), |i: int| views[i].deleted));
    }
    let built = if include_deleted {
        text_and_flag_batch("iox::database", &names, "deleted", &flags)
    } else {
        text_batch("iox::database", &names)
    };
    match built {
        Ok(batch) => Ok(batch),
        Err(e) => Err(QueryExecutorError::DatabasesToRecordBatch(arrow_error_text(&e))),
    }
}

impl View for QueryExecutorImpl {
    type V = ExecutorView;

    closed spec fn view(&self) -> ExecutorView {
        ExecutorView {
            catalog: self.catalog@,
            config: self.datafusion_config@,
            log: self.query_log@,
            num_queries: self.num_queries,
            max_permits: self.max_permits,
            permits_in_use: self.permits_in_use,
        }
    }
}

impl QueryExecutorImpl {
    /// Whether the executor is well-formed: its log is, and no more permits are
    /// given out than there are.
    pub closed spec fn wf(&self) -> bool {
        self.query_log.wf() && self.permits_in_use <= self.max_permits
    }

    /// An executor on the given catalog, with an empty query log of the given
    /// size, no query counted and every permit free. It has as many permits as
    /// a semaphore can hold.
    pub fn new(args: CreateQueryExecutorArgs) -> (res: QueryExecutorImpl)
        ensures
            res.wf(),
            res@ == (ExecutorView {
                catalog: args.catalog@,
                config: args.datafusion_config@,
                log: QueryLogView {
                    capacity: args.query_log_size,
                    entries: Seq::empty(),
                    next_id: 0,
                },
                num_queries: 0,
                max_permits: usize::MAX >> 3,
                permits_in_use: 0,
            }),
    {
        let query_log = QueryLog::new(args.query_log_size);
        QueryExecutorImpl {
            catalog: args.catalog,
            datafusion_config: args.datafusion_config,
            query_log,
            num_queries: 0,
            max_permits: semaphore_max_permits(),
            permits_in_use: 0,
        }
    }

    /// The catalog that the executor reads.
    pub fn catalog(&self) -> (catalog: &Catalog)
        ensures
            catalog@ == self@.catalog,
    {
        &self.catalog
    }

    /// Puts a newer catalog in the place of the one that the executor reads.
    /// Queries that were received before keep their snapshots.
    pub fn set_catalog(&mut self, catalog: Catalog)
        requires
            old(self).wf(),
        ensures
            final(self).wf(),
            final(self)@ == (ExecutorView { catalog: catalog@, ..old(self)@ }),
    {
        self.catalog = catalog;
    }

    /// The number of queries that reached planning.
    pub fn num_queries(&self) -> (n: u64)
        ensures
            n == self@.num_queries,
    {
        self.num_queries
    }

    /// The number of permits that can be given out at one time.
    pub fn max_permits(&self) -> (n: usize)
        ensures
            n == self@.max_permits,
    {
        self.max_permits
    }

    /// The number of permits that are given out.
    pub fn permits_in_use(&self) -> (n: usize)
        ensures
            n == self@.permits_in_use,
    {
        self.permits_in_use
    }

    /// The view of the database called `name` for one query, on a fresh
    /// snapshot of its schema. A database that the catalog does not have, or
    /// has only as deleted, is not found.
    pub fn namespace(&self, name: &str) -> (res: Result<Option<Database>, QueryExecutorError>)
        ensures
            res.is_ok() <==> is_visible(self@.catalog, name@),
            match res {
                Ok(Some(db)) => {
                    &&& is_database_named(self@.catalog, name@, db.schema_view())
                    &&& db.config_view() == self@.config
                },
                Ok(None) => false,
                Err(e) => e matches QueryExecutorError::DatabaseNotFound { db_name } && db_name@
                    == name@,
            },
    {
        match self.catalog.db_schema(name) {
            Some(db_schema) => Ok(
                Some(Database::new(db_schema, copy_params(&self.datafusion_config))),
            ),
            None => Err(QueryExecutorError::DatabaseNotFound { db_name: name.to_owned() }),
        }
    }

    /// Takes a permit, if one is free.
    pub fn acquire_semaphore(&mut self) -> (res: Option<Permit>)
        requires
            old(self).wf(),
        ensures
            final(self).wf(),
            res.is_some() <==> old(self)@.permits_in_use < old(self)@.max_permits,
            final(self)@ == (ExecutorView {
                permits_in_use: if res.is_some() {
                    (old(self)@.permits_in_use + 1) as usize
                } else {
                    old(self)@.permits_in_use
                },
                ..old(self)@
            }),
    {
        if self.permits_in_use < self.max_permits {
            self.permits_in_use = self.permits_in_use + 1;
            Some(Permit { _private: () })
        } else {
            None
        }
    }

    /// Gives a permit back.
    pub fn release_semaphore(&mut self, permit: Permit)
        requires
            old(self).wf(),
        ensures
            final(self).wf(),
            final(self)@ == (ExecutorView {
                permits_in_use: if old(self)@.permits_in_use > 0 {
                    (old(self)@.permits_in_use - 1) as usize
                } else {
                    0
                },
                ..old(self)@
            }),
    {
        if self.permits_in_use > 0 {
            self.permits_in_use = self.permits_in_use - 1;
        }
    }

    /// A copy of the query log, from the oldest entry to the newest.
    pub fn query_log(&self) -> (res: Vec<QueryLogEntry>)
        ensures
            entry_views(res@) == self@.log.entries,
    {
        self.query_log.entries()
    }

    /// Receives a query on `database`.
    ///
    /// If the catalog has no such database, or only a deleted one, the query
    /// fails with `DatabaseNotFound` and leaves no trace. Otherwise the query
    /// is entered in the log as received, under `external_trace_id`, and is
    /// counted; what comes back is its handle and the context in which the
    /// caller plans it, under `trace_id`.
    pub fn query(
        &mut self,
        database: &str,
        query: &str,
        params: Option<Vec<(String, String)>>,
        kind: QueryKind,
        trace_id: Option<u128>,
        external_trace_id: Option<u128>,
    ) -> (res: Result<PendingQuery, QueryExecutorError>)
        requires
            old(self).wf(),
        ensures
            final(self).wf(),
            res.is_ok() <==> is_visible(old(self)@.catalog, database@),
            match res {
                Ok(pending) => {
                    &&& pending.token.id() == old(self)@.log.next_id
                    &&& is_database_named(
                        old(self)@.catalog,
                        database@,
                        pending.database.schema_view(),
                    )
                    &&& pending.database.config_view() == old(self)@.config
                    &&& pending.context.is_context_of(
                        pending.database.schema_view().id,
                        old(self)@.config,
                        trace_id,
                    )
                    &&& final(self)@ == (ExecutorView {
                        log: pushed(
                            old(self)@.log,
                            kind,
                            query@,
                            match params {
                                Some(p) => p@,
                                None => Seq::empty(),
                            },
                            external_trace_id,
                        ),
                        num_queries: counted(old(self)@.num_queries),
                        ..old(self)@
                    })
                },
                Err(e) => {
                    &&& e matches QueryExecutorError::DatabaseNotFound { db_name }
                    &&& db_name@ == database@
                    &&& final(self)@ == old(self)@
                },
            },
    {
        let db = match self.namespace(database) {
            Ok(Some(db)) => db,
            _ => {
                return Err(QueryExecutorError::DatabaseNotFound { db_name: database.to_owned() });
            },
        };
        let params = match params {
            Some(p) => p,
            None => Vec::new(),
        };
        let token = db.record_query(
            &mut self.query_log,
            external_trace_id,
            kind,
            query.to_owned(),
            params,
        );
        let context = db.new_query_context(trace_id);
        if self.num_queries < u64::MAX {
            self.num_queries = self.num_queries + 1;
        }
        Ok(PendingQuery { token, database: db, context })
    }

    /// Takes note of how the planning of a query ended.
    ///
    /// With a plan, the query passes to `Planned`. Without one, it passes to
    /// `Failed`, and the error carries the planner's text unchanged.
    pub fn query_planned(&mut self, token: ReceivedToken, plan: Result<(), String>) -> (res:
        Result<PlannedToken, QueryExecutorError>)
        requires
            old(self).wf(),
        ensures
            final(self).wf(),
            res.is_ok() <==> plan.is_ok(),
            final(self)@ == (ExecutorView {
                log: advanced(
                    old(self)@.log,
                    token.id(),
                    if plan.is_ok() {
                        QueryPhase::Planned
                    } else {
                        QueryPhase::Failed
                    },
                ),
                ..old(self)@
            }),
            res matches Ok(planned) ==> planned.id() == token.id(),
            res matches Err(e) ==> (e matches QueryExecutorError::QueryPlanning(text)
                && plan == Err::<(), String>(text)),
    {
        match plan {
            Ok(_) => Ok(token.planned(&mut self.query_log)),
            Err(reason) => {
                token.fail(&mut self.query_log);
                Err(QueryExecutorError::QueryPlanning(reason))
            },
        }
    }

    /// Lets a planned query run, if a permit is free: the query then holds the
    /// permit and passes to `Permitted`. If none is free, nothing changes and
    /// the handle comes back: the caller waits and asks again.
    pub fn query_permitted(&mut self, token: PlannedToken) -> (res: Result<
        PermittedToken,
        PlannedToken,
    >)
        requires
            old(self).wf(),
        ensures
            final(self).wf(),
            res.is_ok() <==> old(self)@.permits_in_use < old(self)@.max_permits,
            match res {
                Ok(permitted) => {
                    &&& permitted.id() == token.id()
                    &&& final(self)@ == (ExecutorView {
                        log: advanced(old(self)@.log, token.id(), QueryPhase::Permitted),
                        permits_in_use: (old(self)@.permits_in_use + 1) as usize,
                        ..old(self)@
                    })
                },
                Err(planned) => planned.id() == token.id() && final(self)@ == old(self)@,
            },
    {
        match self.acquire_semaphore() {
            Some(_) => Ok(token.permit(&mut self.query_log)),
            None => Err(token),
        }
    }

    /// Takes note of how the execution of a permitted query began, and gives
    /// its permit back.
    ///
    /// With a stream of results, the query passes to `Success`. Without one, it
    /// passes to `Failed`, and the error carries the reason unchanged.
    pub fn query_executed(&mut self, token: PermittedToken, stream: Result<(), String>) -> (res:
        Result<(), QueryExecutorError>)
        requires
            old(self).wf(),
        ensures
            final(self).wf(),
            res.is_ok() <==> stream.is_ok(),
            final(self)@ == (ExecutorView {
                log: advanced(
                    old(self)@.log,
                    token.id(),
                    if stream.is_ok() {
                        QueryPhase::Success
                    } else {
                        QueryPhase::Failed
                    },
                ),
                permits_in_use: if old(self)@.permits_in_use > 0 {
                    (old(self)@.permits_in_use - 1) as usize
                } else {
                    0
                },
                ..old(self)@
            }),
            res matches Err(e) ==> (e matches QueryExecutorError::ExecuteStream(text)
                && stream == Err::<(), String>(text)),
    {
        self.release_semaphore(Permit { _private: () });
        match stream {
            Ok(_) => {
                token.success(&mut self.query_log);
                Ok(())
            },
            Err(reason) => {
                token.fail(&mut self.query_log);
                Err(QueryExecutorError::ExecuteStream(reason))
            },
        }
    }

    /// Takes note that a permitted query was given up before its execution
    /// began: its permit is given back, and its entry in the log stays as it is.
    pub fn query_cancelled(&mut self, token: PermittedToken)
        requires
            old(self).wf(),
        ensures
            final(self).wf(),
            final(self)@ == (ExecutorView {
                permits_in_use: if old(self)@.permits_in_use > 0 {
                    (old(self)@.permits_in_use - 1) as usize
                } else {
                    0
                },
                ..old(self)@
            }),
    {
        self.release_semaphore(Permit { _private: () });
    }

    /// The databases of the catalog as a batch: sorted by deletion flag and
    /// then by name. Deleted databases are shown, with a column that tells
    /// them apart, only if `include_deleted` is set.
    pub fn show_databases(&self, include_deleted: bool) -> (res: Result<Batch, QueryExecutorError>)
        ensures
            exists|rows: Seq<DatabaseRowView>|
                {
                    &&& #[trigger] is_database_listing(rows, self@.catalog, include_deleted)
                    &&& !include_deleted ==> forall|i: int|
                        0 <= i < rows.len() ==> !(#[trigger] rows[i]).deleted
                    &&& res.is_ok() <==> fits_text_column(row_names(rows))
                    &&& res matches Ok(batch) ==> shows_databases(batch, rows, include_deleted)
                },
            res matches Err(e) ==> e is DatabasesToRecordBatch,
    {
        let rows = list_databases(&self.catalog, include_deleted);
        let res = databases_to_batch(&rows, include_deleted);
        proof {
            let views = row_views(rows@);
            assert(is_database_listing(views, self@.catalog, include_deleted));
            if !include_deleted {
                assert forall|i: int| 0 <= i < views.len() implies !(#[trigger] views[i]).deleted by {
                    assert(!rows@[i].deleted);
                }
            }
        }
        res
    }

    /// The rows of retention policies of the databases with the given names, in
    /// their order: each name split into database and policy, without a
    /// duration. The first name that the catalog does not have, or has only as
    /// deleted, fails the whole with `DatabaseNotFound`.
    pub fn retention_policy_rows(&self, names: &Vec<String>) -> (res: Result<
        Vec<RetentionPolicyRow>,
        QueryExecutorError,
    >)
        ensures
            res.is_ok() <==> forall|i: int|
                0 <= i < names@.len() ==> is_visible(self@.catalog, #[trigger] names@[i]@),
            res matches Ok(rows) ==> policy_row_views(rows@) == policy_rows_of(texts(names@)),
            res matches Err(e) ==> (e matches QueryExecutorError::DatabaseNotFound { db_name }
                && is_first_missing(self@.catalog, texts(names@), db_name@)),
    {
        let mut rows: Vec<RetentionPolicyRow> = Vec::new();
        let mut i: usize = 0;
        while i < names.len()
            invariant
                i <= names.len(),
                rows@.len() == i,
                forall|j: int| 0 <= j < i ==> is_visible(self@.catalog, #[trigger] names@[j]@),
                forall|j: int| 0 <= j < i ==> (#[trigger] rows@[j])@ == policy_row(names@[j]@, None),
            decreases names.len() - i,
        {
            let name = names[i].as_str();
            let db = match self.namespace(name) {
                Ok(Some(db)) => db,
                _ => {
                    proof {
                        let all = texts(names@);
                        assert(all[i as int] == name@);
                        assert forall|j: int| 0 <= j < i implies is_visible(
                            self@.catalog,
                            #[trigger] all[j],
                        ) by {
                            assert(all[j] == names@[j]@);
                        }
                        assert(is_first_missing(self@.catalog, all, name@));
                    }
                    return Err(QueryExecutorError::DatabaseNotFound { db_name: name.to_owned() });
                },
            };
            let duration = db.retention_time_ns();
            rows.push(retention_policy_row(name, duration));
            i = i + 1;
        }
        assert(policy_row_views(rows@) =~= policy_rows_of(texts(names@)));
        Ok(rows)
    }

    /// The retention policies as a batch: of the database `database` alone, or
    /// of every database that is not deleted, sorted by name. A database that
    /// the catalog does not have, or has only as deleted, is not found.
    pub fn show_retention_policies(&self, database: Option<&str>) -> (res: Result<
        Batch,
        QueryExecutorError,
    >)
        ensures
            match database {
                Some(name) => {
                    let rows = seq![policy_row(name@, None)];
                    &&& res.is_ok() <==> is_visible(self@.catalog, name@) && policies_fit(rows)
                    &&& res matches Ok(batch) ==> shows_policies(batch, rows)
                    &&& res matches Err(e) ==> if is_visible(self@.catalog, name@) {
                        e is DatabasesToRecordBatch
                    } else {
                        e matches QueryExecutorError::DatabaseNotFound { db_name } && db_name@
                            == name@
                    }
                },
                None => {
                    &&& exists|rows: Seq<DatabaseRowView>|
                        {
                            &&& #[trigger] is_database_listing(rows, self@.catalog, false)
                            &&& res.is_ok() <==> policies_fit(policy_rows_of(row_names(rows)))
                            &&& res matches Ok(batch) ==> shows_policies(
                                batch,
                                policy_rows_of(row_names(rows)),
                            )
                        }
                    &&& res matches Err(e) ==> e is DatabasesToRecordBatch
                },
            },
    {
        let mut names: Vec<String> = Vec::new();
        let ghost listing: Seq<DatabaseRowView> = Seq::empty();
        match database {
            Some(name) => {
                names.push(name.to_owned());
            },
            None => {
                let listed = list_databases(&self.catalog, false);
                let mut i: usize = 0;
                while i < listed.len()
                    invariant
                        i <= listed.len(),
                        names@.len() == i,
                        forall|j: int| 0 <= j < i ==> (#[trigger] names@[j])@ == listed@[j].name@,
                    decreases listed.len() - i,
                {
                    names.push(listed[i].name.clone());
                    i = i + 1;
                }
                proof {
                    listing = row_views(listed@);
                    assert(is_database_listing(listing, self@.catalog, false));
                    assert(texts(names@) =~= row_names(listing));
                    assert forall|j: int| 0 <= j < names@.len() implies is_visible(
                        self@.catalog,
                        #[trigger] names@[j]@,
                    ) by {
                        let row = listing[j];
                        assert(listing.contains(row));
                        vstd::seq_lib::to_multiset_contains(listing, row);
                        vstd::seq_lib::to_multiset_contains(listed_rows(self@.catalog, false), row);
                        lemma_listed_rows_come_from_catalog(self@.catalog, false, row);
                    }
                }
            },
        }
        match self.retention_policy_rows(&names) {
            Ok(rows) => {
                proof {
                    if database.is_some() {
                        assert(policy_rows_of(texts(names@)) =~= seq![
                            policy_row(names@[0]@, None),
                        ]);
                    }
                }
                match retention_policy_rows_to_batch(&rows) {
                    Some(batch) => Ok(batch),
                    None => Err(
                        QueryExecutorError::DatabasesToRecordBatch("offset overflow".to_owned()),
                    ),
                }
            },
            Err(e) => Err(e),
        }
    }
}

} // verus!
