use query_executor::lifecycle::{
    abandon_load, finish_load, load_chunk, CatalogChunk, ChunkAddr, ChunkStorage, Error, JobRegistry, JobStatus,
};

fn addr() -> ChunkAddr {
    ChunkAddr {
        db_name: "db".to_string(),
        table_name: "cpu".to_string(),
        partition_key: "1970-01-01T00".to_string(),
        chunk_id: 0,
    }
}

fn chunk(storage: ChunkStorage) -> CatalogChunk {
    CatalogChunk { addr: addr(), storage, loading: None, read_buffer_rows: 0 }
}

#[test]
fn load_promotes_the_chunk_to_the_read_buffer() {
    let mut jobs = JobRegistry::new();
    let mut c = chunk(ChunkStorage::ObjectStoreOnly);
    assert_eq!(c.storage, ChunkStorage::ObjectStoreOnly);

    let task = load_chunk(&mut c, &mut jobs).unwrap();
    assert_eq!(c.storage, ChunkStorage::ObjectStoreOnly);
    assert_eq!(c.loading, Some(task.job_id));
    assert_eq!(jobs.status(task.job_id), Some(JobStatus::Running));
    assert_eq!(task.addr.table_name, "cpu");
    assert_eq!(task.addr.partition_key, "1970-01-01T00");

    let job_id = task.job_id;
    finish_load(&mut c, &mut jobs, task, 1).unwrap();
    assert_eq!(c.storage, ChunkStorage::ReadBufferAndObjectStore);
    assert_eq!(c.loading, None);
    assert_eq!(c.read_buffer_rows, 1);
    assert_eq!(jobs.status(job_id), Some(JobStatus::Succeeded));
    assert_eq!(jobs.jobs.len(), 1);
}

#[test]
fn load_of_no_rows_is_given_up() {
    let mut jobs = JobRegistry::new();
    let mut c = chunk(ChunkStorage::ObjectStoreOnly);
    let task = load_chunk(&mut c, &mut jobs).unwrap();
    let job_id = task.job_id;
    match finish_load(&mut c, &mut jobs, task, 0) {
        Err(Error::CannotLoadEmptyChunk { addr }) => {
            assert_eq!(addr.db_name, "db");
            assert_eq!(addr.table_name, "cpu");
            assert_eq!(addr.chunk_id, 0);
        }
        other => panic!("unexpected: {:?}", other),
    }
    assert_eq!(c.storage, ChunkStorage::ObjectStoreOnly);
    assert_eq!(c.loading, None);
    assert_eq!(c.read_buffer_rows, 0);
    assert_eq!(jobs.status(job_id), Some(JobStatus::Failed));
    // the chunk can be loaded again
    let again = load_chunk(&mut c, &mut jobs).unwrap();
    assert_eq!(again.job_id, 1);
    finish_load(&mut c, &mut jobs, again, 5).unwrap();
    assert_eq!(c.storage, ChunkStorage::ReadBufferAndObjectStore);
    assert_eq!(c.read_buffer_rows, 5);
}

#[test]
fn second_load_is_rejected_while_the_first_runs() {
    let mut jobs = JobRegistry::new();
    let mut c = chunk(ChunkStorage::ObjectStoreOnly);
    let first = load_chunk(&mut c, &mut jobs).unwrap();
    match load_chunk(&mut c, &mut jobs) {
        Err(Error::LifecycleActionAlreadyInProgress { addr }) => assert_eq!(addr.table_name, "cpu"),
        other => panic!("unexpected: {:?}", other),
    }
    assert_eq!(c.loading, Some(first.job_id));
    assert_eq!(c.storage, ChunkStorage::ObjectStoreOnly);
    assert_eq!(jobs.status(0), Some(JobStatus::Running));
    assert_eq!(jobs.status(1), Some(JobStatus::Failed));
    assert_eq!(jobs.status(2), None);
    finish_load(&mut c, &mut jobs, first, 3).unwrap();
    // once loaded, the chunk is no longer in object storage only
    match load_chunk(&mut c, &mut jobs) {
        Err(Error::UnexpectedChunkState { storage, .. }) => {
            assert_eq!(storage, ChunkStorage::ReadBufferAndObjectStore)
        }
        other => panic!("unexpected: {:?}", other),
    }
    assert_eq!(c.storage, ChunkStorage::ReadBufferAndObjectStore);
}

#[test]
fn load_needs_a_chunk_in_object_storage_only() {
    for storage in
        [ChunkStorage::Open, ChunkStorage::ReadBufferOnly, ChunkStorage::ReadBufferAndObjectStore]
    {
        let mut jobs = JobRegistry::new();
        let mut c = chunk(storage);
        match load_chunk(&mut c, &mut jobs) {
            Err(Error::UnexpectedChunkState { storage: s, .. }) => assert_eq!(s, storage),
            other => panic!("unexpected: {:?}", other),
        }
        assert_eq!(c.storage, storage);
        assert_eq!(c.loading, None);
        assert_eq!(jobs.status(0), Some(JobStatus::Failed));
    }
}

#[test]
fn commit_by_a_job_that_does_not_hold_the_chunk_fails() {
    let mut jobs = JobRegistry::new();
    let mut c = chunk(ChunkStorage::ObjectStoreOnly);
    let first = load_chunk(&mut c, &mut jobs).unwrap();
    let stranger =
        query_executor::lifecycle::LoadTask { job_id: first.job_id + 1, addr: addr() };
    match finish_load(&mut c, &mut jobs, stranger, 4) {
        Err(Error::UnexpectedChunkState { storage, .. }) => {
            assert_eq!(storage, ChunkStorage::ObjectStoreOnly)
        }
        other => panic!("unexpected: {:?}", other),
    }
    assert_eq!(c.loading, Some(first.job_id));
    assert_eq!(c.storage, ChunkStorage::ObjectStoreOnly);
    assert_eq!(jobs.status(first.job_id), Some(JobStatus::Running));
}

#[test]
fn finishing_a_job_twice_keeps_the_first_status() {
    let mut jobs = JobRegistry::new();
    let id = jobs.register(addr());
    assert_eq!(id, 0);
    jobs.finish(id, JobStatus::Succeeded);
    jobs.finish(id, JobStatus::Failed);
    assert_eq!(jobs.status(id), Some(JobStatus::Succeeded));
    jobs.finish(9, JobStatus::Failed);
    assert_eq!(jobs.jobs.len(), 1);
}

#[test]
fn abandoned_load_frees_the_chunk() {
    let mut jobs = JobRegistry::new();
    let mut c = chunk(ChunkStorage::ObjectStoreOnly);
    let task = load_chunk(&mut c, &mut jobs).unwrap();
    abandon_load(&mut c, &mut jobs, task);
    assert_eq!(c.loading, None);
    assert_eq!(c.storage, ChunkStorage::ObjectStoreOnly);
    assert_eq!(jobs.status(0), Some(JobStatus::Failed));
    assert!(load_chunk(&mut c, &mut jobs).is_ok());
}
