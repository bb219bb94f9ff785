use conduit_hyper::dispatch::{ApplicationError, Dispatcher, Handler, TaskOutcome};
use conduit_hyper::adaptor::ConduitRequest;
use conduit_hyper::pool::WorkerPool;
use conduit_hyper::response::{build_headers, Response};

struct Unused;
impl Handler for Unused {
    fn call(&self, _req: &mut ConduitRequest) -> Result<Response, ApplicationError> {
        Ok(Response {
            status: (204, "No Content"),
            headers: build_headers("unused"),
            body: Vec::new(),
        })
    }
}

#[test]
fn new_pool_is_idle() {
    let pool: WorkerPool<u32> = WorkerPool::new(3);
    assert_eq!(pool.size(), 3);
    assert_eq!(pool.busy(), 0);
    assert_eq!(pool.waiting(), 0);
}

#[test]
fn dispatcher_makes_a_pool_of_its_size() {
    let dispatcher = Dispatcher::new(Unused, 4);
    assert_eq!(dispatcher.pool_size(), 4);
    let pool: WorkerPool<u32> = dispatcher.worker_pool();
    assert_eq!(pool.size(), 4);
    assert_eq!(pool.busy(), 0);
    assert_eq!(pool.waiting(), 0);
}

#[test]
fn tasks_start_while_a_worker_is_free() {
    let mut pool: WorkerPool<u32> = WorkerPool::new(2);
    assert_eq!(pool.submit(1), Some(1));
    assert_eq!(pool.submit(2), Some(2));
    assert_eq!(pool.busy(), 2);
    assert_eq!(pool.waiting(), 0);
}

#[test]
fn tasks_wait_when_all_workers_are_busy() {
    let mut pool: WorkerPool<u32> = WorkerPool::new(1);
    assert_eq!(pool.submit(1), Some(1));
    assert_eq!(pool.submit(2), None);
    assert_eq!(pool.submit(3), None);
    assert_eq!(pool.busy(), 1);
    assert_eq!(pool.waiting(), 2);
    assert_eq!(pool.size(), 1);
}

#[test]
fn waiting_tasks_start_in_submission_order() {
    let mut pool: WorkerPool<u32> = WorkerPool::new(2);
    for task in 1..=5 {
        pool.submit(task);
    }
    assert_eq!(pool.waiting(), 3);
    assert_eq!(pool.complete(TaskOutcome::Panicked).next, Some(3));
    assert_eq!(pool.submit(6), None);
    assert_eq!(pool.complete(TaskOutcome::Panicked).next, Some(4));
    assert_eq!(pool.complete(TaskOutcome::Panicked).next, Some(5));
    assert_eq!(pool.complete(TaskOutcome::Panicked).next, Some(6));
    assert_eq!(pool.busy(), 2);
    assert_eq!(pool.complete(TaskOutcome::Panicked).next, None);
    assert_eq!(pool.busy(), 1);
    assert_eq!(pool.complete(TaskOutcome::Panicked).next, None);
    assert_eq!(pool.busy(), 0);
}

#[test]
fn no_outcome_shrinks_the_pool() {
    let mut pool: WorkerPool<u32> = WorkerPool::new(2);
    let outcomes = vec![
        TaskOutcome::Panicked,
        TaskOutcome::Failed(ApplicationError {
            message: String::from("failed"),
        }),
        TaskOutcome::Succeeded(Response {
            status: (1000, "invalid status code"),
            headers: build_headers("discarded"),
            body: Vec::new(),
        }),
        TaskOutcome::Succeeded(Response {
            status: (200, "OK"),
            headers: build_headers("value"),
            body: Vec::new(),
        }),
    ];
    for outcome in outcomes {
        assert_eq!(pool.submit(1), Some(1));
        assert_eq!(pool.submit(2), Some(2));
        pool.complete(outcome);
        assert_eq!(pool.size(), 2);
        assert_eq!(pool.busy(), 1);
        assert_eq!(pool.submit(3), Some(3));
        pool.complete(TaskOutcome::Panicked);
        pool.complete(TaskOutcome::Panicked);
        assert_eq!(pool.busy(), 0);
    }
}

#[test]
fn completion_carries_the_response() {
    let mut pool: WorkerPool<u32> = WorkerPool::new(1);
    pool.submit(1);
    let done = pool.complete(TaskOutcome::Succeeded(Response {
        status: (200, "OK"),
        headers: build_headers("value"),
        body: b"Hello, world!".to_vec(),
    }));
    assert_eq!(done.response.status, 200);
    assert_eq!(done.response.body, b"Hello, world!");
    pool.submit(2);
    let done = pool.complete(TaskOutcome::Panicked);
    assert_eq!(done.response.status, 500);
    assert_eq!(done.response.body, b"Internal Server Error");
}

#[test]
fn completion_on_an_idle_pool_changes_nothing() {
    let mut pool: WorkerPool<u32> = WorkerPool::new(2);
    let done = pool.complete(TaskOutcome::Panicked);
    assert_eq!(done.next, None);
    assert_eq!(pool.size(), 2);
    assert_eq!(pool.busy(), 0);
    assert_eq!(pool.waiting(), 0);
}
