use pitchperfect::worker_pool::{
    new_download_pool, new_search_pool, WorkerPool, JOB_QUEUE_CAPACITY, NUM_DOWNLOAD_WORKERS,
    NUM_SEARCH_WORKERS,
};

#[test]
fn pool_instances_have_fixed_sizes() {
    let download: WorkerPool<u32> = new_download_pool();
    assert_eq!(download.num_workers(), NUM_DOWNLOAD_WORKERS);
    assert_eq!(download.num_workers(), 5);
    assert_eq!(download.capacity(), JOB_QUEUE_CAPACITY);
    assert_eq!(download.capacity(), 100);

    let search: WorkerPool<u32> = new_search_pool();
    assert_eq!(search.num_workers(), NUM_SEARCH_WORKERS);
    assert_eq!(search.num_workers(), 10);
    assert_eq!(search.capacity(), 100);
}

#[test]
fn full_queue_refuses_and_returns_the_job() {
    let mut pool: WorkerPool<&str> = WorkerPool::new(2, 3);
    assert!(pool.try_submit("one").is_ok());
    assert!(pool.try_submit("two").is_ok());
    assert!(pool.try_submit("three").is_ok());
    assert_eq!(pool.pending_len(), 3);

    let refused = pool.try_submit("four").unwrap_err();
    assert_eq!(refused, "four");
    assert_eq!(pool.pending_len(), 3);

    assert!(pool.worker_idle(0));
    assert!(pool.take_job(0));
    assert!(!pool.worker_idle(0));
    assert_eq!(pool.pending_len(), 2);

    assert!(pool.try_submit(refused).is_ok());
    assert_eq!(pool.pending_len(), 3);
}

#[test]
fn jobs_are_taken_in_order_by_one_worker_each() {
    let mut pool: WorkerPool<u32> = WorkerPool::new(2, 10);
    pool.try_submit(11).unwrap();
    pool.try_submit(22).unwrap();

    assert!(pool.take_job(0));
    assert!(pool.take_job(1));
    assert_eq!(pool.pending_len(), 0);

    assert_eq!(pool.finish_job(0), 11);
    assert_eq!(pool.finish_job(1), 22);
    assert!(pool.worker_idle(0));
    assert!(pool.worker_idle(1));
}

#[test]
fn take_on_empty_queue_leaves_worker_idle() {
    let mut pool: WorkerPool<u32> = WorkerPool::new(1, 1);
    assert!(!pool.take_job(0));
    assert!(pool.worker_idle(0));
}
