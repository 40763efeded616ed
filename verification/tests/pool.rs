use std::cell::RefCell;
use std::rc::Rc;
use http_server::pool::ControlMessage;
use http_server::pool::PoolError;
use http_server::pool::ThreadPool;
use http_server::pool::WorkerAction;
use http_server::pool::worker_step;

#[test]
fn pool_with_zero_workers_fails() {
    assert!(matches!(ThreadPool::<u32>::new(0), Err(PoolError::ZeroWorkers)));
}

#[test]
fn pool_with_one_worker_succeeds() {
    let (_pool, workers) = ThreadPool::<u32>::new(1).expect("one worker is enough");
    assert_eq!(workers.len(), 1);
    assert_eq!(workers[0].id(), 0);
}

#[test]
fn pool_workers_get_stable_ids() {
    let (_pool, workers) = ThreadPool::<u32>::new(4).expect("four workers");
    assert_eq!(workers.len(), 4);
    for (i, worker) in workers.iter().enumerate() {
        assert_eq!(worker.id(), i);
    }
}

#[test]
fn worker_step_runs_jobs_and_exits_on_terminate() {
    assert!(matches!(worker_step(ControlMessage::NewJob(7u32)), WorkerAction::Run(7)));
    assert!(matches!(worker_step(ControlMessage::<u32>::Terminate), WorkerAction::Exit));
}

#[test]
fn each_submitted_job_runs_exactly_once() {
    let (pool, workers) = ThreadPool::<u32>::new(3).expect("three workers");
    let log: Rc<RefCell<Vec<u32>>> = Rc::new(RefCell::new(Vec::new()));
    let sink = log.clone();
    let handler = move |job: u32| {
        sink.borrow_mut().push(job);
    };

    let submitted: Vec<u32> = (0..10).collect();
    for job in &submitted {
        pool.execute(*job).expect("the queue is open");
    }
    pool.signal_shutdown();

    let mut stopped = 0;
    for worker in &workers {
        while worker.run_one(&handler) {}
        stopped += 1;
    }

    assert_eq!(*log.borrow(), submitted);
    assert_eq!(stopped, 3);
}

#[test]
fn shutdown_stops_every_worker_and_closes_the_queue() {
    let (pool, workers) = ThreadPool::<u32>::new(2).expect("two workers");
    let log: Rc<RefCell<Vec<u32>>> = Rc::new(RefCell::new(Vec::new()));
    let sink = log.clone();
    let handler = move |job: u32| {
        sink.borrow_mut().push(job);
    };

    pool.execute(1).expect("the queue is open");
    pool.signal_shutdown();
    for worker in &workers {
        while worker.run_one(&handler) {}
    }
    assert_eq!(*log.borrow(), vec![1]);

    // Every worker has exited; once their queue handles are gone, no further
    // job can be queued, and none runs.
    drop(workers);
    assert!(matches!(pool.execute(2), Err(PoolError::QueueClosed)));
    assert_eq!(*log.borrow(), vec![1]);
}

#[test]
fn jobs_queued_after_terminate_do_not_run_on_that_worker() {
    let (pool, workers) = ThreadPool::<u32>::new(1).expect("one worker");
    let log: Rc<RefCell<Vec<u32>>> = Rc::new(RefCell::new(Vec::new()));
    let sink = log.clone();
    let handler = move |job: u32| {
        sink.borrow_mut().push(job);
    };

    pool.execute(1).expect("the queue is open");
    pool.signal_shutdown();
    pool.execute(2).expect("the queue is still open");

    let worker = &workers[0];
    while worker.run_one(&handler) {}

    // The worker drained what was queued before the Terminate and nothing after.
    assert_eq!(*log.borrow(), vec![1]);
}

