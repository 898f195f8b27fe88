use std::cell::{Cell, RefCell};
use std::rc::Rc;
use worker_pool::channel::Received;
use worker_pool::pool::{Dispatch, PoolCreationError, PoolError, ThreadPool};
use worker_pool::worker::{JobOutcome, WorkerState};

/// A job as the tests submit it. `Err` stands for a job that unwound.
type Job = Box<dyn FnOnce() -> Result<(), String>>;

/// Polls `worker` once and, if it got a job, runs it and reports its end.
/// Returns what the poll said, without the job.
fn turn(pool: &mut ThreadPool<Job>, worker: usize) -> Dispatch<()> {
    match pool.poll(worker).expect("the worker is at the top of its loop") {
        Dispatch::Run { ticket, job } => {
            let outcome = match job() {
                Ok(()) => JobOutcome::Returned,
                Err(_) => JobOutcome::Panicked,
            };
            assert_eq!(pool.complete(worker, outcome), Ok(ticket));
            Dispatch::Run { ticket, job: () }
        }
        Dispatch::Wait => Dispatch::Wait,
        Dispatch::Exit => Dispatch::Exit,
    }
}

/// Lets the workers take turns until every one of them has exited.
fn run_until_exit(pool: &mut ThreadPool<Job>) {
    let mut rounds = 0;
    while pool.live_workers() > 0 {
        for w in 0..pool.size() {
            if pool.worker_state(w) != Some(WorkerState::Exited) {
                turn(pool, w);
            }
        }
        rounds += 1;
        assert!(rounds < 100_000, "the pool drains in finitely many rounds");
    }
}

/// Joins every worker in id order.
fn join_all(pool: &mut ThreadPool<Job>) {
    for w in 0..pool.size() {
        assert_eq!(pool.join(w), Ok(()));
    }
}

#[test]
fn build_with_size_zero_is_refused() {
    let r: Result<ThreadPool<Job>, PoolCreationError> = ThreadPool::build(0);
    assert_eq!(r.err(), Some(PoolCreationError::PoolSizeZero));
}

#[test]
fn build_makes_idle_workers_and_an_open_channel() {
    let pool: ThreadPool<Job> = ThreadPool::build(4).ok().unwrap();
    assert_eq!(pool.size(), 4);
    assert_eq!(pool.live_workers(), 4);
    for w in 0..4 {
        assert_eq!(pool.worker_state(w), Some(WorkerState::Idle));
    }
    assert_eq!(pool.worker_state(4), None);
    assert!(!pool.is_closed());
    assert_eq!(pool.pending(), 0);
    assert_eq!(pool.submitted(), 0);
    assert_eq!(pool.dequeued(), 0);
    assert_eq!(pool.completed(), 0);
    assert_eq!(pool.panicked(), 0);
    assert_eq!(pool.joined(), 0);
    assert_eq!(pool.lock_holder(), None);
    assert!(!pool.is_released());
}

#[test]
fn new_makes_the_same_pool_as_build() {
    let pool: ThreadPool<u8> = ThreadPool::new(3);
    assert_eq!(pool.size(), 3);
    assert_eq!(pool.live_workers(), 3);
    assert_eq!(pool.worker_state(2), Some(WorkerState::Idle));
    assert_eq!(pool.worker_state(3), None);
    assert!(!pool.is_closed());
}

#[test]
fn execute_returns_before_the_job_runs() {
    let ran = Rc::new(Cell::new(false));
    let flag = ran.clone();
    let mut pool: ThreadPool<Job> = ThreadPool::new(1);
    let job: Job = Box::new(move || {
        flag.set(true);
        Ok(())
    });
    assert_eq!(pool.execute(job), Ok(0));
    assert!(!ran.get());
    assert_eq!(pool.pending(), 1);
    assert_eq!(pool.submitted(), 1);
    assert!(matches!(turn(&mut pool, 0), Dispatch::Run { ticket: 0, .. }));
    assert!(ran.get());
    assert_eq!(pool.pending(), 0);
    assert_eq!(pool.completed(), 1);
}

#[test]
fn single_worker_runs_jobs_in_submission_order() {
    let log: Rc<RefCell<Vec<usize>>> = Rc::new(RefCell::new(Vec::new()));
    let mut pool: ThreadPool<Job> = ThreadPool::build(1).ok().unwrap();
    for i in [0usize, 1, 2, 3, 4] {
        let log = log.clone();
        let job: Job = Box::new(move || {
            log.borrow_mut().push(i);
            Ok(())
        });
        assert_eq!(pool.execute(job), Ok(i as u64));
    }
    pool.shutdown();
    run_until_exit(&mut pool);
    join_all(&mut pool);
    assert_eq!(*log.borrow(), vec![0, 1, 2, 3, 4]);
    assert!(pool.is_released());
}

#[test]
fn panicking_job_does_not_stop_the_next_one() {
    let flag = Rc::new(Cell::new(false));
    let mut pool: ThreadPool<Job> = ThreadPool::build(2).ok().unwrap();
    let bad: Job = Box::new(|| Err(String::from("boom")));
    let set = flag.clone();
    let good: Job = Box::new(move || {
        set.set(true);
        Ok(())
    });
    assert_eq!(pool.execute(bad), Ok(0));
    assert_eq!(pool.execute(good), Ok(1));
    pool.shutdown();
    run_until_exit(&mut pool);
    join_all(&mut pool);
    assert!(flag.get());
    assert_eq!(pool.completed(), 2);
    assert_eq!(pool.panicked(), 1);
}

#[test]
fn panicking_job_leaves_its_worker_in_the_pool() {
    let mut pool: ThreadPool<Job> = ThreadPool::new(2);
    let bad: Job = Box::new(|| Err(String::from("boom")));
    assert_eq!(pool.execute(bad), Ok(0));
    assert_eq!(pool.live_workers(), 2);
    assert!(matches!(turn(&mut pool, 0), Dispatch::Run { ticket: 0, .. }));
    assert_eq!(pool.worker_state(0), Some(WorkerState::Idle));
    assert_eq!(pool.live_workers(), 2);
    assert_eq!(pool.size(), 2);
    assert_eq!(pool.panicked(), 1);
    let ran = Rc::new(Cell::new(false));
    let flag = ran.clone();
    let next: Job = Box::new(move || {
        flag.set(true);
        Ok(())
    });
    assert_eq!(pool.execute(next), Ok(1));
    assert!(matches!(turn(&mut pool, 0), Dispatch::Run { ticket: 1, .. }));
    assert!(ran.get());
}

#[test]
fn thousand_jobs_all_run_once() {
    let counter = Rc::new(Cell::new(0u32));
    let mut pool: ThreadPool<Job> = ThreadPool::build(4).ok().unwrap();
    for i in 0..1000u64 {
        let c = counter.clone();
        let job: Job = Box::new(move || {
            c.set(c.get() + 1);
            Ok(())
        });
        assert_eq!(pool.execute(job), Ok(i));
    }
    assert_eq!(pool.pending(), 1000);
    pool.shutdown();
    run_until_exit(&mut pool);
    join_all(&mut pool);
    assert_eq!(counter.get(), 1000);
    assert_eq!(pool.submitted(), 1000);
    assert_eq!(pool.dequeued(), 1000);
    assert_eq!(pool.completed(), 1000);
    assert_eq!(pool.panicked(), 0);
    assert_eq!(pool.pending(), 0);
    assert_eq!(pool.live_workers(), 0);
    assert!(pool.is_released());
}

#[test]
fn each_ticket_is_handed_out_once() {
    let mut pool: ThreadPool<u32> = ThreadPool::new(3);
    for v in 0..9u32 {
        assert_eq!(pool.execute(v * 10), Ok(v as u64));
    }
    let mut handed = Vec::new();
    for round in 0..3 {
        for w in 0..3 {
            match pool.poll(w) {
                Ok(Dispatch::Run { ticket, job }) => {
                    assert_eq!(job as u64, ticket * 10);
                    handed.push(ticket);
                }
                other => panic!("round {round}: a job was waiting, got {:?}", other.is_ok()),
            }
        }
        for w in 0..3 {
            assert!(pool.complete(w, JobOutcome::Returned).is_ok());
        }
    }
    assert_eq!(handed, vec![0, 1, 2, 3, 4, 5, 6, 7, 8]);
    assert!(matches!(pool.poll(0), Ok(Dispatch::Wait)));
    assert_eq!(pool.completed(), 9);
}

#[test]
fn two_workers_run_two_jobs_at_once() {
    let mut pool: ThreadPool<&str> = ThreadPool::new(2);
    assert_eq!(pool.execute("first"), Ok(0));
    assert_eq!(pool.execute("second"), Ok(1));
    assert!(matches!(pool.poll(0), Ok(Dispatch::Run { ticket: 0, job: "first" })));
    assert_eq!(pool.lock_holder(), None);
    assert!(matches!(pool.poll(1), Ok(Dispatch::Run { ticket: 1, job: "second" })));
    assert_eq!(pool.worker_state(0), Some(WorkerState::Running(0)));
    assert_eq!(pool.worker_state(1), Some(WorkerState::Running(1)));
    assert_eq!(pool.complete(1, JobOutcome::Returned), Ok(1));
    assert_eq!(pool.complete(0, JobOutcome::Returned), Ok(0));
    assert_eq!(pool.completed(), 2);
}

#[test]
fn long_job_does_not_hold_up_later_jobs() {
    let mut pool: ThreadPool<&str> = ThreadPool::new(4);
    assert_eq!(pool.execute("slow"), Ok(0));
    for (i, name) in ["a", "b", "c", "d"].into_iter().enumerate() {
        assert_eq!(pool.execute(name), Ok(i as u64 + 1));
    }
    assert!(matches!(pool.poll(0), Ok(Dispatch::Run { ticket: 0, job: "slow" })));
    let mut done = Vec::new();
    for turn in 0..4usize {
        let w = 1 + turn % 3;
        match pool.poll(w) {
            Ok(Dispatch::Run { ticket, job }) => {
                assert_eq!(pool.complete(w, JobOutcome::Returned), Ok(ticket));
                done.push(job);
            }
            _ => panic!("a job was waiting"),
        }
    }
    assert_eq!(done, vec!["a", "b", "c", "d"]);
    assert_eq!(pool.worker_state(0), Some(WorkerState::Running(0)));
    assert_eq!(pool.completed(), 4);
    assert_eq!(pool.complete(0, JobOutcome::Returned), Ok(0));
    assert_eq!(pool.completed(), 5);
}

#[test]
fn only_one_worker_holds_the_dequeue_lock() {
    let mut pool: ThreadPool<u32> = ThreadPool::new(3);
    assert_eq!(pool.acquire(1), Ok(true));
    assert_eq!(pool.lock_holder(), Some(1));
    assert_eq!(pool.worker_state(1), Some(WorkerState::Waiting));
    assert_eq!(pool.acquire(0), Ok(false));
    assert_eq!(pool.acquire(2), Ok(false));
    assert_eq!(pool.worker_state(0), Some(WorkerState::Idle));
    assert_eq!(pool.worker_state(2), Some(WorkerState::Idle));
    assert_eq!(pool.lock_holder(), Some(1));
    assert!(matches!(pool.receive(1), Ok(Received::Empty)));
    assert_eq!(pool.lock_holder(), Some(1));
    assert_eq!(pool.execute(42), Ok(0));
    assert!(matches!(pool.receive(1), Ok(Received::Job { ticket: 0, job: 42 })));
    assert_eq!(pool.lock_holder(), None);
    assert_eq!(pool.worker_state(1), Some(WorkerState::Received(0)));
    assert_eq!(pool.acquire(0), Ok(true));
    assert_eq!(pool.lock_holder(), Some(0));
    assert_eq!(pool.start(1), Ok(0));
    assert_eq!(pool.worker_state(1), Some(WorkerState::Running(0)));
    assert_eq!(pool.lock_holder(), Some(0));
}

#[test]
fn fine_steps_walk_one_worker_round_its_loop() {
    let mut pool: ThreadPool<u32> = ThreadPool::new(1);
    assert_eq!(pool.execute(11), Ok(0));
    assert_eq!(pool.acquire(0), Ok(true));
    assert!(matches!(pool.receive(0), Ok(Received::Job { ticket: 0, job: 11 })));
    assert_eq!(pool.dequeued(), 1);
    assert_eq!(pool.start(0), Ok(0));
    assert_eq!(pool.completed(), 0);
    assert_eq!(pool.complete(0, JobOutcome::Returned), Ok(0));
    assert_eq!(pool.completed(), 1);
    assert_eq!(pool.worker_state(0), Some(WorkerState::Idle));
    pool.shutdown();
    assert_eq!(pool.acquire(0), Ok(true));
    assert!(matches!(pool.receive(0), Ok(Received::Closed)));
    assert_eq!(pool.worker_state(0), Some(WorkerState::Exited));
    assert_eq!(pool.lock_holder(), None);
    assert_eq!(pool.live_workers(), 0);
}

#[test]
fn poll_waits_on_an_open_empty_channel() {
    let mut pool: ThreadPool<u32> = ThreadPool::new(2);
    assert!(matches!(pool.poll(0), Ok(Dispatch::Wait)));
    assert_eq!(pool.worker_state(0), Some(WorkerState::Waiting));
    assert_eq!(pool.lock_holder(), Some(0));
    assert!(matches!(pool.poll(1), Ok(Dispatch::Wait)));
    assert_eq!(pool.worker_state(1), Some(WorkerState::Idle));
    assert_eq!(pool.execute(5), Ok(0));
    assert!(matches!(pool.poll(1), Ok(Dispatch::Wait)));
    assert!(matches!(pool.poll(0), Ok(Dispatch::Run { ticket: 0, job: 5 })));
    assert!(matches!(pool.poll(1), Ok(Dispatch::Wait)));
    assert_eq!(pool.worker_state(1), Some(WorkerState::Waiting));
}

#[test]
fn shutdown_drains_before_workers_exit() {
    let mut pool: ThreadPool<u32> = ThreadPool::new(2);
    for v in 0..3u32 {
        assert_eq!(pool.execute(v), Ok(v as u64));
    }
    pool.shutdown();
    assert!(pool.is_closed());
    assert_eq!(pool.pending(), 3);
    assert_eq!(pool.live_workers(), 2);
    assert!(matches!(pool.poll(0), Ok(Dispatch::Run { ticket: 0, job: 0 })));
    assert!(matches!(pool.poll(1), Ok(Dispatch::Run { ticket: 1, job: 1 })));
    assert_eq!(pool.complete(0, JobOutcome::Returned), Ok(0));
    assert!(matches!(pool.poll(0), Ok(Dispatch::Run { ticket: 2, job: 2 })));
    assert_eq!(pool.complete(1, JobOutcome::Returned), Ok(1));
    assert!(matches!(pool.poll(1), Ok(Dispatch::Exit)));
    assert_eq!(pool.worker_state(1), Some(WorkerState::Exited));
    assert_eq!(pool.live_workers(), 1);
    assert_eq!(pool.complete(0, JobOutcome::Returned), Ok(2));
    assert!(matches!(pool.poll(0), Ok(Dispatch::Exit)));
    assert_eq!(pool.live_workers(), 0);
    assert_eq!(pool.completed(), 3);
}

#[test]
fn execute_after_shutdown_is_refused() {
    let dropped = Rc::new(());
    let mut pool: ThreadPool<Rc<()>> = ThreadPool::new(1);
    pool.shutdown();
    assert_eq!(pool.execute(dropped.clone()), Err(PoolError::Closed));
    assert_eq!(Rc::strong_count(&dropped), 1);
    assert_eq!(pool.submitted(), 0);
    assert_eq!(pool.pending(), 0);
}

#[test]
fn steps_on_a_missing_worker_are_refused() {
    let mut pool: ThreadPool<u32> = ThreadPool::new(2);
    assert_eq!(pool.acquire(2), Err(PoolError::NoSuchWorker));
    assert!(matches!(pool.receive(2), Err(PoolError::NoSuchWorker)));
    assert_eq!(pool.start(7), Err(PoolError::NoSuchWorker));
    assert_eq!(pool.complete(usize::MAX, JobOutcome::Returned), Err(PoolError::NoSuchWorker));
    assert!(matches!(pool.poll(2), Err(PoolError::NoSuchWorker)));
    pool.shutdown();
    assert_eq!(pool.join(2), Err(PoolError::NoSuchWorker));
}

#[test]
fn steps_from_the_wrong_state_are_refused() {
    let mut pool: ThreadPool<u32> = ThreadPool::new(1);
    assert!(matches!(pool.receive(0), Err(PoolError::WrongState)));
    assert_eq!(pool.start(0), Err(PoolError::WrongState));
    assert_eq!(pool.complete(0, JobOutcome::Returned), Err(PoolError::WrongState));
    assert_eq!(pool.execute(1), Ok(0));
    assert_eq!(pool.acquire(0), Ok(true));
    assert_eq!(pool.acquire(0), Err(PoolError::WrongState));
    assert_eq!(pool.start(0), Err(PoolError::WrongState));
    assert!(matches!(pool.receive(0), Ok(Received::Job { ticket: 0, job: 1 })));
    assert!(matches!(pool.receive(0), Err(PoolError::WrongState)));
    assert!(matches!(pool.poll(0), Err(PoolError::WrongState)));
    assert_eq!(pool.complete(0, JobOutcome::Returned), Err(PoolError::WrongState));
    assert_eq!(pool.start(0), Ok(0));
    assert_eq!(pool.start(0), Err(PoolError::WrongState));
    assert!(matches!(pool.poll(0), Err(PoolError::WrongState)));
    assert_eq!(pool.worker_state(0), Some(WorkerState::Running(0)));
    assert_eq!(pool.completed(), 0);
}

#[test]
fn exited_worker_takes_no_further_step() {
    let mut pool: ThreadPool<u32> = ThreadPool::new(1);
    pool.shutdown();
    assert!(matches!(pool.poll(0), Ok(Dispatch::Exit)));
    assert!(matches!(pool.poll(0), Err(PoolError::WrongState)));
    assert_eq!(pool.acquire(0), Err(PoolError::WrongState));
    assert_eq!(pool.worker_state(0), Some(WorkerState::Exited));
}

#[test]
fn join_before_shutdown_is_refused() {
    let mut pool: ThreadPool<u32> = ThreadPool::new(2);
    assert_eq!(pool.join(0), Err(PoolError::NotShutDown));
    assert_eq!(pool.join(5), Err(PoolError::NotShutDown));
    assert_eq!(pool.joined(), 0);
}

#[test]
fn join_goes_in_id_order_and_once_each() {
    let mut pool: ThreadPool<u32> = ThreadPool::new(3);
    pool.shutdown();
    for w in 0..3 {
        assert!(matches!(pool.poll(w), Ok(Dispatch::Exit)));
    }
    assert_eq!(pool.join(1), Err(PoolError::OutOfOrder));
    assert_eq!(pool.join(0), Ok(()));
    assert_eq!(pool.join(0), Err(PoolError::OutOfOrder));
    assert_eq!(pool.joined(), 1);
    assert!(!pool.is_released());
    assert_eq!(pool.join(2), Err(PoolError::OutOfOrder));
    assert_eq!(pool.join(1), Ok(()));
    assert_eq!(pool.join(2), Ok(()));
    assert_eq!(pool.joined(), 3);
    assert!(pool.is_released());
    assert_eq!(pool.join(3), Err(PoolError::NoSuchWorker));
}

#[test]
fn join_waits_for_a_worker_that_still_runs() {
    let mut pool: ThreadPool<u32> = ThreadPool::new(1);
    assert_eq!(pool.execute(1), Ok(0));
    assert!(matches!(pool.poll(0), Ok(Dispatch::Run { ticket: 0, job: 1 })));
    pool.shutdown();
    assert_eq!(pool.join(0), Err(PoolError::StillLive));
    assert_eq!(pool.complete(0, JobOutcome::Returned), Ok(0));
    assert_eq!(pool.join(0), Err(PoolError::StillLive));
    assert!(matches!(pool.poll(0), Ok(Dispatch::Exit)));
    assert_eq!(pool.join(0), Ok(()));
    assert!(pool.is_released());
    assert_eq!(pool.live_workers(), 0);
}

#[test]
fn shutdown_is_idempotent() {
    let mut pool: ThreadPool<u32> = ThreadPool::new(1);
    assert_eq!(pool.execute(3), Ok(0));
    pool.shutdown();
    pool.shutdown();
    assert!(pool.is_closed());
    assert_eq!(pool.pending(), 1);
    assert!(matches!(pool.poll(0), Ok(Dispatch::Run { ticket: 0, job: 3 })));
}

#[test]
fn size_stays_fixed_through_every_step() {
    let mut pool: ThreadPool<u32> = ThreadPool::new(3);
    assert_eq!(pool.execute(1), Ok(0));
    assert_eq!(pool.size(), 3);
    assert!(pool.poll(0).is_ok());
    assert_eq!(pool.size(), 3);
    assert_eq!(pool.live_workers(), 3);
    assert!(pool.complete(0, JobOutcome::Panicked).is_ok());
    assert_eq!(pool.size(), 3);
    assert_eq!(pool.live_workers(), 3);
    pool.shutdown();
    assert_eq!(pool.size(), 3);
    assert_eq!(pool.live_workers(), 3);
    for w in 0..3 {
        assert!(matches!(pool.poll(w), Ok(Dispatch::Exit)));
        assert_eq!(pool.live_workers(), 2 - w);
    }
    for w in 0..3 {
        assert_eq!(pool.join(w), Ok(()));
    }
    assert_eq!(pool.size(), 3);
}

#[test]
fn eight_jobs_on_four_workers_run_in_two_rounds() {
    let mut pool: ThreadPool<u32> = ThreadPool::build(4).ok().unwrap();
    for v in 0..8u32 {
        assert_eq!(pool.execute(v), Ok(v as u64));
    }
    for round in 0..2u64 {
        for w in 0..4usize {
            let expected = round * 4 + w as u64;
            match pool.poll(w) {
                Ok(Dispatch::Run { ticket, job }) => {
                    assert_eq!(ticket, expected);
                    assert_eq!(job as u64, expected);
                }
                _ => panic!("a job was waiting"),
            }
        }
        for w in 0..4usize {
            assert_eq!(pool.worker_state(w), Some(WorkerState::Running(round * 4 + w as u64)));
            assert!(matches!(pool.poll(w), Err(PoolError::WrongState)));
        }
        assert_eq!(pool.pending(), 4 - 4 * round as usize);
        for w in 0..4usize {
            assert_eq!(pool.complete(w, JobOutcome::Returned), Ok(round * 4 + w as u64));
        }
    }
    assert_eq!(pool.completed(), 8);
    assert_eq!(pool.pending(), 0);
}

#[test]
fn pool_is_reachable_from_the_crate_root() {
    let mut pool: worker_pool::ThreadPool<u8> = worker_pool::ThreadPool::new(1);
    assert_eq!(pool.execute(1), Ok(0));
    pool.shutdown();
    assert_eq!(pool.execute(2), Err(worker_pool::PoolError::Closed));
    let none: Result<worker_pool::ThreadPool<u8>, worker_pool::PoolCreationError> =
        worker_pool::ThreadPool::build(0);
    assert!(none.is_err());
}
