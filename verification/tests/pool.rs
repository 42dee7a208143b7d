use hello::{Action, ChannelClosed, ThreadPool, WorkerState};
use std::sync::mpsc;
use std::sync::{Arc, Mutex};

type Job = Box<dyn FnOnce() + Send + 'static>;

/// Plays the part of the worker threads: lets each worker in turn ask for its
/// next message and run what it is handed, until none of them gets anything.
fn drive(pool: &mut ThreadPool<Job>) {
    loop {
        let mut progressed = false;
        for id in 0..pool.size() {
            if pool.worker_state(id) == WorkerState::Executing {
                pool.complete(id);
            }
            match pool.receive(id) {
                Action::Run(job) => {
                    job();
                    pool.complete(id);
                    progressed = true;
                }
                Action::Wait => {}
                Action::Exit => {}
            }
        }
        if !progressed {
            break;
        }
    }
}

/// Disposes of the pool as its owner does: begins the shutdown, lets the
/// workers run to their end, and waits on each in the order the pool names.
fn dispose(pool: &mut ThreadPool<Job>) -> Vec<usize> {
    pool.shutdown();
    drive(pool);
    let mut order = Vec::new();
    while let Some(id) = pool.next_join() {
        assert_eq!(pool.worker_state(id), WorkerState::Terminated);
        pool.join(id);
        order.push(id);
    }
    order
}

#[test]
fn test_thread_pool_new() {
    let pool: ThreadPool<Job> = ThreadPool::new(5);
    assert_eq!(pool.size(), 5);
}

#[test]
fn test_thread_pool_execute() {
    let mut pool: ThreadPool<Job> = ThreadPool::new(5);
    let (tx, rx) = mpsc::channel();

    pool.execute(Box::new(move || {
        tx.send(1).unwrap();
    }))
    .unwrap();
    drive(&mut pool);

    assert_eq!(rx.recv().unwrap(), 1);
}

#[test]
fn test_thread_pool_multiple_execute() {
    let mut pool: ThreadPool<Job> = ThreadPool::new(5);
    let (tx, rx) = mpsc::channel();

    for i in 0..10 {
        let tx = tx.clone();
        pool.execute(Box::new(move || {
            tx.send(i).unwrap();
        }))
        .unwrap();
    }

    drop(tx);
    drive(&mut pool);

    let mut results: Vec<_> = rx.iter().collect();
    results.sort();

    assert_eq!(results, (0..10).collect::<Vec<_>>());
}

#[test]
fn new_pool_has_idle_workers_and_nothing_pending() {
    for size in [1usize, 2, 4, 7] {
        let pool: ThreadPool<Job> = ThreadPool::new(size);
        assert_eq!(pool.size(), size);
        assert_eq!(pool.pending(), 0);
        assert!(pool.is_accepting());
        assert!(!pool.is_disposed());
        assert_eq!(pool.next_join(), None);
        for id in 0..size {
            assert_eq!(pool.worker_state(id), WorkerState::Idle);
        }
    }
}

#[test]
fn idle_worker_waits_on_empty_channel() {
    let mut pool: ThreadPool<u32> = ThreadPool::new(2);
    assert!(matches!(pool.receive(0), Action::Wait));
    assert_eq!(pool.worker_state(0), WorkerState::Idle);
    assert_eq!(pool.pending(), 0);
}

#[test]
fn jobs_leave_in_order_of_submission() {
    let mut pool: ThreadPool<u32> = ThreadPool::new(3);
    pool.execute(10).unwrap();
    pool.execute(20).unwrap();
    pool.execute(30).unwrap();
    assert_eq!(pool.pending(), 3);

    assert!(matches!(pool.receive(2), Action::Run(10)));
    assert_eq!(pool.worker_state(2), WorkerState::Executing);
    assert!(matches!(pool.receive(0), Action::Run(20)));
    assert_eq!(pool.pending(), 1);
    pool.complete(2);
    assert_eq!(pool.worker_state(2), WorkerState::Idle);
    assert!(matches!(pool.receive(2), Action::Run(30)));
    assert_eq!(pool.pending(), 0);
    assert!(matches!(pool.receive(1), Action::Wait));
    assert_eq!(pool.worker_state(0), WorkerState::Executing);
    assert_eq!(pool.worker_state(1), WorkerState::Idle);
}

#[test]
fn complete_changes_nothing_for_a_worker_without_a_job() {
    let mut pool: ThreadPool<u32> = ThreadPool::new(2);
    pool.execute(1).unwrap();
    pool.complete(0);
    assert_eq!(pool.worker_state(0), WorkerState::Idle);
    assert_eq!(pool.pending(), 1);
}

#[test]
fn each_job_runs_exactly_once() {
    let mut pool: ThreadPool<Job> = ThreadPool::new(3);
    let runs = Arc::new(Mutex::new(vec![0u32; 10]));
    for i in 0..10usize {
        let runs = Arc::clone(&runs);
        pool.execute(Box::new(move || {
            runs.lock().unwrap()[i] += 1;
        }))
        .unwrap();
    }
    dispose(&mut pool);
    assert_eq!(*runs.lock().unwrap(), vec![1u32; 10]);
}

#[test]
fn four_workers_eight_increments() {
    let mut pool: ThreadPool<Job> = ThreadPool::new(4);
    let counter = Arc::new(Mutex::new(0));
    for _ in 0..8 {
        let counter = Arc::clone(&counter);
        pool.execute(Box::new(move || {
            *counter.lock().unwrap() += 1;
        }))
        .unwrap();
    }
    dispose(&mut pool);
    assert!(pool.is_disposed());
    assert_eq!(*counter.lock().unwrap(), 8);
}

#[test]
fn five_workers_collect_ten_values() {
    let mut pool: ThreadPool<Job> = ThreadPool::new(5);
    let (tx, rx) = mpsc::channel();
    for i in 0..10 {
        let tx = tx.clone();
        pool.execute(Box::new(move || {
            tx.send(i).unwrap();
        }))
        .unwrap();
    }
    drop(tx);
    dispose(&mut pool);
    let mut results: Vec<i32> = rx.iter().collect();
    results.sort();
    assert_eq!(results, vec![0, 1, 2, 3, 4, 5, 6, 7, 8, 9]);
}

#[test]
fn shutdown_queues_one_order_per_worker_behind_the_jobs() {
    let mut pool: ThreadPool<u32> = ThreadPool::new(3);
    pool.execute(7).unwrap();
    pool.execute(8).unwrap();
    pool.shutdown();
    assert_eq!(pool.pending(), 5);
    assert!(!pool.is_accepting());

    assert!(matches!(pool.receive(0), Action::Run(7)));
    assert!(matches!(pool.receive(1), Action::Run(8)));
    assert!(matches!(pool.receive(2), Action::Exit));
    assert_eq!(pool.worker_state(2), WorkerState::Terminated);
    assert_eq!(pool.pending(), 2);
    pool.complete(0);
    pool.complete(1);
    assert!(matches!(pool.receive(0), Action::Exit));
    assert!(matches!(pool.receive(1), Action::Exit));
    assert_eq!(pool.pending(), 0);
}

#[test]
fn second_shutdown_changes_nothing() {
    let mut pool: ThreadPool<u32> = ThreadPool::new(2);
    pool.shutdown();
    assert_eq!(pool.pending(), 2);
    pool.shutdown();
    assert_eq!(pool.pending(), 2);
    assert!(!pool.is_accepting());
}

#[test]
fn submission_after_shutdown_is_refused() {
    let mut pool: ThreadPool<u32> = ThreadPool::new(2);
    pool.execute(1).unwrap();
    pool.shutdown();
    assert_eq!(pool.execute(2), Err(ChannelClosed));
    assert_eq!(pool.pending(), 3);
    assert!(matches!(pool.receive(0), Action::Run(1)));
    assert!(matches!(pool.receive(1), Action::Exit));
    assert_eq!(pool.execute(3), Err(ChannelClosed));
    assert_eq!(pool.pending(), 1);
}

#[test]
fn terminated_worker_dequeues_nothing_more() {
    let mut pool: ThreadPool<u32> = ThreadPool::new(2);
    pool.shutdown();
    assert!(matches!(pool.receive(0), Action::Exit));
    assert_eq!(pool.pending(), 1);
    assert!(matches!(pool.receive(0), Action::Exit));
    assert_eq!(pool.pending(), 1);
    assert_eq!(pool.worker_state(0), WorkerState::Terminated);
    assert_eq!(pool.worker_state(1), WorkerState::Idle);
}

#[test]
fn workers_are_joined_in_order_of_identity() {
    let mut pool: ThreadPool<Job> = ThreadPool::new(4);
    pool.execute(Box::new(|| {})).unwrap();
    assert_eq!(pool.next_join(), None);
    let order = dispose(&mut pool);
    assert_eq!(order, vec![0, 1, 2, 3]);
    assert_eq!(pool.next_join(), None);
    assert!(pool.is_disposed());
    for id in 0..4 {
        assert_eq!(pool.worker_state(id), WorkerState::Terminated);
    }
    assert_eq!(pool.pending(), 0);
}

#[test]
fn disposal_is_not_complete_before_the_last_join() {
    let mut pool: ThreadPool<u32> = ThreadPool::new(2);
    pool.shutdown();
    assert!(!pool.is_disposed());
    assert_eq!(pool.next_join(), Some(0));
    assert!(matches!(pool.receive(0), Action::Exit));
    assert!(matches!(pool.receive(1), Action::Exit));
    pool.join(0);
    assert!(!pool.is_disposed());
    assert_eq!(pool.next_join(), Some(1));
    pool.join(1);
    assert!(pool.is_disposed());
}

#[test]
fn disposal_runs_every_pending_job() {
    let mut pool: ThreadPool<Job> = ThreadPool::new(5);
    let (tx, rx) = mpsc::channel();

    for _ in 0..10 {
        let tx = tx.clone();
        pool.execute(Box::new(move || {
            tx.send(1).unwrap();
        }))
        .unwrap();
    }
    assert_eq!(pool.pending(), 10);

    dispose(&mut pool);

    assert!(pool.is_disposed());
    assert_eq!(rx.iter().take(10).fold(0, |sum, x| sum + x), 10);
}

#[test]
fn single_worker_runs_jobs_one_after_another() {
    let mut pool: ThreadPool<Job> = ThreadPool::new(1);
    let log = Arc::new(Mutex::new(Vec::new()));
    for i in 0..5 {
        let log = Arc::clone(&log);
        pool.execute(Box::new(move || {
            log.lock().unwrap().push(i);
        }))
        .unwrap();
    }
    let order = dispose(&mut pool);
    assert_eq!(order, vec![0]);
    assert_eq!(*log.lock().unwrap(), vec![0, 1, 2, 3, 4]);
}
