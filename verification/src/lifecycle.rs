//! Loading a chunk from object storage back into the read buffer.
//!
//! The caller holds the exclusive reference to the chunk, so no two loads of
//! one chunk can run their transitions at the same time. Between the two
//! transitions the chunk is marked as loading: it stays readable from object
//! storage, and a second load is rejected.

use vstd::prelude::*;

verus! {

/// Where the data of a chunk is kept.
#[derive(Clone, Copy, Debug, PartialEq, Eq, Structural)]
pub enum ChunkStorage {
    Open,
    ReadBufferOnly,
    ReadBufferAndObjectStore,
    ObjectStoreOnly,
}

/// How a job ended, or that it still runs.
#[derive(Clone, Copy, Debug, PartialEq, Eq, Structural)]
pub enum JobStatus {
    Running,
    Succeeded,
    Failed,
}

/// The address of a chunk, as a mathematical value.
pub ghost struct ChunkAddrView {
    pub db_name: Seq<char>,
    pub table_name: Seq<char>,
    pub partition_key: Seq<char>,
    pub chunk_id: u32,
}

/// A chunk, as a mathematical value.
pub ghost struct ChunkView {
    pub addr: ChunkAddrView,
    pub storage: ChunkStorage,
    pub loading: Option<usize>,
    pub read_buffer_rows: usize,
}

/// A job, as a mathematical value.
pub ghost struct JobView {
    pub chunk: ChunkAddrView,
    pub status: JobStatus,
}

/// The address of a chunk: its database, table and partition, and its id.
#[derive(Debug)]
pub struct ChunkAddr {
    pub db_name: String,
    pub table_name: String,
    pub partition_key: String,
    pub chunk_id: u32,
}

/// A chunk of the catalog: its address, where its data is kept, the job that
/// loads it into the read buffer if one runs, and the number of rows that the
/// read buffer holds of it.
#[derive(Debug)]
pub struct CatalogChunk {
    pub addr: ChunkAddr,
    pub storage: ChunkStorage,
    pub loading: Option<usize>,
    pub read_buffer_rows: usize,
}

/// A job that loads a chunk into the read buffer.
#[derive(Debug)]
pub struct Job {
    pub chunk: ChunkAddr,
    pub status: JobStatus,
}

/// The jobs that were registered, in the order of their registration. The id
/// of a job is its position.
#[derive(Debug)]
pub struct JobRegistry {
    pub jobs: Vec<Job>,
}

/// A load that has passed its first transition: the job and the chunk's address.
#[derive(Debug)]
pub struct LoadTask {
    pub job_id: usize,
    pub addr: ChunkAddr,
}

/// Why a load did not happen.
#[derive(Debug)]
pub enum Error {
    /// The load gave no rows.
    CannotLoadEmptyChunk { addr: ChunkAddr },
    /// Another job works on the chunk.
    LifecycleActionAlreadyInProgress { addr: ChunkAddr },
    /// The chunk is not where the transition needs it to be.
    UnexpectedChunkState { addr: ChunkAddr, storage: ChunkStorage },
}

/// Why a load did not happen, without the chunk's address.
#[derive(Clone, Copy, Debug, PartialEq, Eq, Structural)]
pub enum ErrorKind {
    CannotLoadEmptyChunk,
    LifecycleActionAlreadyInProgress,
    UnexpectedChunkState,
}

impl View for ChunkAddr {
    type V = ChunkAddrView;

    open spec fn view(&self) -> ChunkAddrView {
        ChunkAddrView {
            db_name: self.db_name@,
            table_name: self.table_name@,
            partition_key: self.partition_key@,
            chunk_id: self.chunk_id,
        }
    }
}

impl ChunkAddr {
    /// A copy of this address.
    pub fn snapshot(&self) -> (res: ChunkAddr)
        ensures
            res@ == self@,
    {
        ChunkAddr {
            db_name: self.db_name.clone(),
            table_name: self.table_name.clone(),
            partition_key: self.partition_key.clone(),
            chunk_id: self.chunk_id,
        }
    }
}

impl View for CatalogChunk {
    type V = ChunkView;

    open spec fn view(&self) -> ChunkView {
        ChunkView {
            addr: self.addr@,
            storage: self.storage,
            loading: self.loading,
            read_buffer_rows: self.read_buffer_rows,
        }
    }
}

impl View for Job {
    type V = JobView;

    open spec fn view(&self) -> JobView {
        JobView { chunk: self.chunk@, status: self.status }
    }
}

/// The values of a sequence of jobs.
pub open spec fn job_views(v: Seq<Job>) -> Seq<JobView> {
    Seq::new(v.len(), |i: int| v[i]@)
}

impl View for JobRegistry {
    type V = Seq<JobView>;

    open spec fn view(&self) -> Seq<JobView> {
        job_views(self.jobs@)
    }
}

impl View for Error {
    type V = (ErrorKind, ChunkAddrView);

    open spec fn view(&self) -> (ErrorKind, ChunkAddrView) {
        match *self {
            Error::CannotLoadEmptyChunk { addr } => (ErrorKind::CannotLoadEmptyChunk, addr@),
            Error::LifecycleActionAlreadyInProgress { addr } => (
                ErrorKind::LifecycleActionAlreadyInProgress,
                addr@,
            ),
            Error::UnexpectedChunkState { addr, storage } => (
                ErrorKind::UnexpectedChunkState,
                addr@,
            ),
        }
    }
}

/// Whether the read buffer can answer queries on the chunk.
pub open spec fn read_buffer_queryable(chunk: ChunkView) -> bool {
    chunk.storage == ChunkStorage::ReadBufferOnly || chunk.storage
        == ChunkStorage::ReadBufferAndObjectStore
}

/// Whether object storage can answer queries on the chunk. A load in progress
/// does not change that.
pub open spec fn object_store_queryable(chunk: ChunkView) -> bool {
    chunk.storage == ChunkStorage::ObjectStoreOnly || chunk.storage
        == ChunkStorage::ReadBufferAndObjectStore
}

/// Whether a load of the chunk can start: the chunk is kept in object storage
/// only, and no job works on it.
pub open spec fn can_start_load(chunk: ChunkView) -> bool {
    chunk.loading.is_none() && chunk.storage == ChunkStorage::ObjectStoreOnly
}

/// The chunk while the job `job_id` loads it.
pub open spec fn marked_loading(chunk: ChunkView, job_id: usize) -> ChunkView {
    ChunkView { loading: Some(job_id), ..chunk }
}

/// Whether the load `job_id` of the chunk can be committed: it is the job that
/// works on the chunk, and the chunk is still kept in object storage only.
pub open spec fn can_commit_load(chunk: ChunkView, job_id: usize) -> bool {
    chunk.loading == Some(job_id) && chunk.storage == ChunkStorage::ObjectStoreOnly
}

/// The chunk after a load of `rows` rows was committed.
pub open spec fn loaded(chunk: ChunkView, rows: usize) -> ChunkView {
    ChunkView {
        storage: ChunkStorage::ReadBufferAndObjectStore,
        loading: None,
        read_buffer_rows: rows,
        ..chunk
    }
}

/// The chunk after the load `job_id` was given up: if that job was the one
/// that worked on the chunk, no job works on it any more. Nothing else changes.
pub open spec fn abandoned(chunk: ChunkView, job_id: usize) -> ChunkView {
    if chunk.loading == Some(job_id) {
        ChunkView { loading: None, ..chunk }
    } else {
        chunk
    }
}

/// The jobs after the job `id` has ended with `status`. A job that has ended
/// before keeps its status, and an id that was never given out changes nothing.
pub open spec fn with_status(jobs: Seq<JobView>, id: usize, status: JobStatus) -> Seq<JobView> {
    if id < jobs.len() && jobs[id as int].status == JobStatus::Running {
        jobs.update(id as int, JobView { status: status, ..jobs[id as int] })
    } else {
        jobs
    }
}

impl JobRegistry {
    /// A registry without jobs.
    pub fn new() -> (res: JobRegistry)
        ensures
            res@ == Seq::<JobView>::empty(),
    {
        let res = JobRegistry { jobs: Vec::new() };
        assert(res@ =~= Seq::<JobView>::empty());
        res
    }

    /// Registers a running job that loads the chunk at `addr`, and returns its id.
    pub fn register(&mut self, addr: ChunkAddr) -> (id: usize)
        ensures
            id == old(self)@.len(),
            final(self)@ == old(self)@.push(JobView { chunk: addr@, status: JobStatus::Running }),
    {
        let id = self.jobs.len();
        let ghost before = self@;
        self.jobs.push(Job { chunk: addr, status: JobStatus::Running });
        assert(self@ =~= before.push(JobView { chunk: addr@, status: JobStatus::Running }));
        id
    }

    /// Ends the job `id` with `status`, if it runs.
    pub fn finish(&mut self, id: usize, status: JobStatus)
        ensures
            final(self)@ == with_status(old(self)@, id, status),
    {
        let ghost before = self@;
        if id < self.jobs.len() && self.jobs[id].status == JobStatus::Running {
            let mut job = self.jobs.remove(id);
            job.status = status;
            self.jobs.insert(id, job);
            assert(self@ =~= with_status(before, id, status));
        }
    }

    /// The status of the job `id`, if that id was given out.
    pub fn status(&self, id: usize) -> (res: Option<JobStatus>)
        ensures
            res == if id < self@.len() {
                Some(self@[id as int].status)
            } else {
                None
            },
    {
        if id < self.jobs.len() {
            Some(self.jobs[id].status)
        } else {
            None
        }
    }
}

/// Starts loading a chunk into the read buffer.
///
/// A job is registered for the chunk in any case. If the chunk is kept in
/// object storage only and no job works on it, the chunk is marked as loading
/// and the task is returned: the copy in object storage stays readable.
/// Otherwise the job ends as failed at once and the chunk is unchanged.
pub fn load_chunk(chunk: &mut CatalogChunk, jobs: &mut JobRegistry) -> (res: Result<
    LoadTask,
    Error,
>)
    ensures
        res.is_ok() <==> can_start_load(old(chunk)@),
        match res {
            Ok(task) => {
                &&& task.job_id == old(jobs)@.len()
                &&& task.addr@ == old(chunk)@.addr
                &&& final(chunk)@ == marked_loading(old(chunk)@, task.job_id)
                &&& final(jobs)@ == old(jobs)@.push(
                    JobView { chunk: old(chunk)@.addr, status: JobStatus::Running },
                )
            },
            Err(e) => {
                &&& final(chunk)@ == old(chunk)@
                &&& e@.1 == old(chunk)@.addr
                &&& e@.0 == if old(chunk)@.loading.is_some() {
                    ErrorKind::LifecycleActionAlreadyInProgress
                } else {
                    ErrorKind::UnexpectedChunkState
                }
                &&& final(jobs)@ == old(jobs)@.push(
                    JobView { chunk: old(chunk)@.addr, status: JobStatus::Failed },
                )
            },
        },
{
    let ghost registered = jobs@;
    let job_id = jobs.register(chunk.addr.snapshot());
    if chunk.loading.is_some() || chunk.storage != ChunkStorage::ObjectStoreOnly {
        jobs.finish(job_id, JobStatus::Failed);
        assert(jobs@ =~= registered.push(
            JobView { chunk: chunk@.addr, status: JobStatus::Failed },
        ));
        if chunk.loading.is_some() {
            return Err(Error::LifecycleActionAlreadyInProgress { addr: chunk.addr.snapshot() });
        }
        return Err(
            Error::UnexpectedChunkState { addr: chunk.addr.snapshot(), storage: chunk.storage },
        );
    }
    chunk.loading = Some(job_id);
    Ok(LoadTask { job_id, addr: chunk.addr.snapshot() })
}

/// Ends a load with what the read buffer got: `rows` rows.
///
/// A load of no rows fails with `CannotLoadEmptyChunk`: the chunk stays where
/// it was, and the job no longer works on it. A load of some rows is committed
/// if the task's job is the one that works on the chunk and the chunk is still
/// kept in object storage only: the chunk is then kept in both places. In
/// every case the job ends, as succeeded only after a commit.
pub fn finish_load(
    chunk: &mut CatalogChunk,
    jobs: &mut JobRegistry,
    task: LoadTask,
    rows: usize,
) -> (res: Result<(), Error>)
    ensures
        res.is_ok() <==> rows > 0 && can_commit_load(old(chunk)@, task.job_id),
        match res {
            Ok(_) => {
                &&& final(chunk)@ == loaded(old(chunk)@, rows)
                &&& final(jobs)@ == with_status(old(jobs)@, task.job_id, JobStatus::Succeeded)
            },
            Err(e) => {
                &&& final(chunk)@ == abandoned(old(chunk)@, task.job_id)
                &&& final(jobs)@ == with_status(old(jobs)@, task.job_id, JobStatus::Failed)
                &&& e@.1 == task.addr@
                &&& e@.0 == if rows == 0 {
                    ErrorKind::CannotLoadEmptyChunk
                } else {
                    ErrorKind::UnexpectedChunkState
                }
            },
        },
{
    let works_on_chunk = match chunk.loading {
        Some(id) => id == task.job_id,
        None => false,
    };
    if rows == 0 {
        if works_on_chunk {
            chunk.loading = None;
        }
        jobs.finish(task.job_id, JobStatus::Failed);
        return Err(Error::CannotLoadEmptyChunk { addr: task.addr });
    }
    if !works_on_chunk || chunk.storage != ChunkStorage::ObjectStoreOnly {
        if works_on_chunk {
            chunk.loading = None;
        }
        jobs.finish(task.job_id, JobStatus::Failed);
        return Err(Error::UnexpectedChunkState { addr: task.addr, storage: chunk.storage });
    }
    chunk.storage = ChunkStorage::ReadBufferAndObjectStore;
    chunk.loading = None;
    chunk.read_buffer_rows = rows;
    jobs.finish(task.job_id, JobStatus::Succeeded);
    Ok(())
}

/// Gives a load up that could not be carried out: the job ends as failed, and
/// no longer works on the chunk. The chunk stays where it was.
pub fn abandon_load(chunk: &mut CatalogChunk, jobs: &mut JobRegistry, task: LoadTask)
    ensures
        final(chunk)@ == abandoned(old(chunk)@, task.job_id),
        final(jobs)@ == with_status(old(jobs)@, task.job_id, JobStatus::Failed),
{
    let works_on_chunk = match chunk.loading {
        Some(id) => id == task.job_id,
        None => false,
    };
    if works_on_chunk {
        chunk.loading = None;
    }
    jobs.finish(task.job_id, JobStatus::Failed);
}

/// A load that is committed leaves the chunk in the read buffer and in object
/// storage, readable from both, with no job working on it.
pub proof fn lemma_committed_load(chunk: ChunkView, job_id: usize, rows: usize)
    requires
        can_commit_load(chunk, job_id),
    ensures
        loaded(chunk, rows).storage == ChunkStorage::ReadBufferAndObjectStore,
        read_buffer_queryable(loaded(chunk, rows)),
        object_store_queryable(loaded(chunk, rows)),
        loaded(chunk, rows).loading.is_none(),
{
}

/// A load that gave no rows leaves the chunk in object storage only, readable
/// from there, and a new load of it can start.
pub proof fn lemma_abandoned_load(chunk: ChunkView, job_id: usize)
    requires
        can_commit_load(chunk, job_id),
    ensures
        abandoned(chunk, job_id).storage == ChunkStorage::ObjectStoreOnly,
        object_store_queryable(abandoned(chunk, job_id)),
        !read_buffer_queryable(abandoned(chunk, job_id)),
        can_start_load(abandoned(chunk, job_id)),
{
}

/// While a load of a chunk runs, the chunk stays readable from object storage
/// and from there only, and no second load of it can start. Once the load is committed, the chunk
/// is no longer kept in object storage only, so no load of it can start either.
pub proof fn lemma_one_load_at_a_time(chunk: ChunkView, job_id: usize, rows: usize)
    requires
        can_start_load(chunk),
    ensures
        object_store_queryable(marked_loading(chunk, job_id)),
        !read_buffer_queryable(marked_loading(chunk, job_id)),
        !can_start_load(marked_loading(chunk, job_id)),
        can_commit_load(marked_loading(chunk, job_id), job_id),
        forall|other: usize|
            other != job_id ==> !can_commit_load(marked_loading(chunk, job_id), other),
        !can_start_load(loaded(marked_loading(chunk, job_id), rows)),
        loaded(marked_loading(chunk, job_id), rows).storage != ChunkStorage::ObjectStoreOnly,
{
}

} // verus!
