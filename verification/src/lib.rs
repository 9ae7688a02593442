//! Query execution and chunk lifecycle for a time-series database: resolving a
//! query against a catalog snapshot, tracking its lifecycle in a bounded log,
//! listing databases and retention policies, and promoting persisted chunks
//! back into the read buffer.

pub mod batch;
pub mod catalog;
pub mod executor;
pub mod lifecycle;
pub mod listing;
pub mod names;
pub mod namespace;
pub mod query_log;
pub mod retention;
