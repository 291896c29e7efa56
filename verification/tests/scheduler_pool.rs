use task_rustler::scheduler::local_queue::Flavor;
use task_rustler::scheduler::pool::Pool;
use task_rustler::scheduler::worker::{
    Backoff, Decision, Directive, Pause, PoolError, ShutdownMode, Step, TaskOutcome, WorkerCore,
    WorkerState, FIRST_PARK_MICROS, MAX_PARK_MICROS, SPIN_ROUNDS,
};

fn run_all(pool: &mut Pool, workers: usize) -> Vec<u64> {
    // Steps the workers in turn, each running what it is given, until all
    // have stopped.
    let mut ran = Vec::new();
    let mut live = workers;
    let mut guard = 0;
    while live > 0 {
        live = 0;
        for w in 0..workers {
            match pool.next_task(w) {
                Ok(Decision::Run(task)) => {
                    ran.push(task);
                    assert_eq!(pool.finish_task(w, TaskOutcome::Completed), Ok(()));
                    live += 1;
                }
                Ok(Decision::Pause(_)) => live += 1,
                Ok(Decision::Stop) => {}
                Err(e) => panic!("unexpected {:?}", e),
            }
        }
        guard += 1;
        assert!(guard < 100_000);
    }
    ran
}

#[test]
fn backoff_spins_then_sleeps_twice_as_long_each_time_up_to_the_cap() {
    let mut b = Backoff::new();
    assert_eq!(b, Backoff { rounds: 0, park_micros: FIRST_PARK_MICROS });
    for _ in 0..SPIN_ROUNDS {
        assert_eq!(b.next(), Pause::Spin);
    }
    let expected = [50u64, 100, 200, 400, 800, 1600, 3200, 6400, 10_000, 10_000, 10_000];
    for micros in expected {
        assert_eq!(b.next(), Pause::Park(micros));
    }
    assert_eq!(MAX_PARK_MICROS, 10_000);
    b.reset();
    assert_eq!(b.next(), Pause::Spin);
}

#[test]
fn backoff_with_an_absurd_delay_is_still_capped() {
    let mut b = Backoff { rounds: SPIN_ROUNDS, park_micros: u64::MAX };
    assert_eq!(b.next(), Pause::Park(MAX_PARK_MICROS));
    assert_eq!(b.park_micros, MAX_PARK_MICROS);
}

#[test]
fn worker_core_follows_the_signal() {
    let mut core = WorkerCore::new();
    assert_eq!(core.state, WorkerState::Running);
    assert_eq!(core.begin(None), Directive::Search);
    assert_eq!(core.begin(Some(ShutdownMode::Graceful)), Directive::Search);
    assert_eq!(core.begin(Some(ShutdownMode::Immediate)), Directive::Discard);

    assert_eq!(core.after_search(None, false, false), Step::Pause(Pause::Spin));
    assert_eq!(core.state, WorkerState::IdleBackoff);
    assert_eq!(core.backoff.rounds, 1);

    assert_eq!(core.after_search(None, true, false), Step::Run);
    assert_eq!(core.state, WorkerState::Running);
    assert_eq!(core.backoff, Backoff::new());

    // A contended source keeps the worker looking, also during shutdown.
    assert_eq!(
        core.after_search(Some(ShutdownMode::Graceful), false, true),
        Step::Pause(Pause::Spin)
    );
    assert_eq!(core.state, WorkerState::Running);

    assert_eq!(core.after_search(Some(ShutdownMode::Graceful), true, false), Step::Run);
    assert_eq!(core.state, WorkerState::ShuttingDown);
    assert_eq!(core.after_search(Some(ShutdownMode::Graceful), false, false), Step::Stop);
    assert_eq!(core.state, WorkerState::Stopped);
    assert_eq!(core.begin(None), Directive::Exit);

    let mut other = WorkerCore::new();
    other.discarded();
    assert_eq!(other.state, WorkerState::Stopped);
}

#[test]
fn error_messages() {
    assert_eq!(PoolError::PoolClosed.message(), "the pool is closed");
    assert_eq!(PoolError::TaskPanicked(3).message(), "a task panicked");
    assert_eq!(
        PoolError::QueueCorruption(1).message(),
        "a worker's queue state is corrupt; the worker was stopped"
    );
}

#[test]
fn new_pool_is_open_and_idle() {
    let pool = Pool::new(3, Flavor::Lifo);
    assert_eq!(pool.worker_count(), 3);
    assert!(!pool.is_closed());
    assert_eq!(pool.queued_globally(), 0);
    for w in 0..3 {
        assert_eq!(pool.queued_locally(w), 0);
        assert_eq!(pool.state_of(w), WorkerState::Running);
        assert_eq!(pool.running_on(w), None);
    }
}

#[test]
fn every_task_is_run_exactly_once() {
    for flavor in [Flavor::Fifo, Flavor::Lifo] {
        for workers in [1usize, 2, 3, 8] {
            let total: u64 = 1000;
            let mut pool = Pool::new(workers, flavor);
            for task in 0..total {
                assert_eq!(pool.submit(task), Ok(()));
            }
            pool.shutdown(ShutdownMode::Graceful);
            let mut ran = run_all(&mut pool, workers);
            let report = pool.join();
            assert!(report.executed.is_empty());
            assert_eq!(ran.len() as u64, total);
            ran.sort();
            assert_eq!(ran, (0..total).collect::<Vec<u64>>());
        }
    }
}

#[test]
fn tasks_spawned_by_running_tasks_are_run_exactly_once_too() {
    let mut pool = Pool::new(4, Flavor::Lifo);
    for task in 0..10u64 {
        pool.submit(task).unwrap();
    }
    let mut ran: Vec<u64> = Vec::new();
    let mut next_child: u64 = 1000;
    // Every task below 10 spawns three children while it runs.
    let mut idle_rounds = 0;
    while idle_rounds < 2 {
        let mut found = false;
        for w in 0..4 {
            if let Ok(Decision::Run(task)) = pool.next_task(w) {
                found = true;
                if task < 10 {
                    for _ in 0..3 {
                        pool.spawn(w, next_child).unwrap();
                        next_child += 1;
                    }
                }
                ran.push(task);
                pool.finish_task(w, TaskOutcome::Completed).unwrap();
            }
        }
        if found {
            idle_rounds = 0;
        } else {
            idle_rounds += 1;
        }
    }
    pool.shutdown(ShutdownMode::Graceful);
    let report = pool.join();
    ran.extend(report.executed);
    assert_eq!(ran.len(), 40);
    ran.sort();
    ran.dedup();
    assert_eq!(ran.len(), 40);
}

#[test]
fn spawn_goes_to_the_own_queue_of_a_busy_worker_and_to_the_shared_queue_else() {
    let mut pool = Pool::new(2, Flavor::Fifo);
    pool.submit(1).unwrap();
    assert_eq!(pool.next_task(0), Ok(Decision::Run(1)));
    pool.spawn(0, 2).unwrap();
    assert_eq!(pool.queued_locally(0), 1);
    assert_eq!(pool.queued_globally(), 0);
    // Worker 1 runs nothing, and worker 7 does not exist.
    pool.spawn(1, 3).unwrap();
    pool.spawn(7, 4).unwrap();
    assert_eq!(pool.queued_locally(1), 0);
    assert_eq!(pool.queued_globally(), 2);
}

#[test]
fn worker_looks_in_its_own_queue_then_the_shared_queue_then_with_peers() {
    let mut pool = Pool::new(3, Flavor::Fifo);
    pool.submit(1).unwrap();
    assert_eq!(pool.next_task(1), Ok(Decision::Run(1)));
    pool.spawn(1, 10).unwrap();
    pool.spawn(1, 11).unwrap();
    pool.finish_task(1, TaskOutcome::Completed).unwrap();
    pool.submit(2).unwrap();
    // Worker 1 prefers its own queue to the shared one.
    assert_eq!(pool.next_task(1), Ok(Decision::Run(10)));
    // Worker 0 has nothing of its own: it takes from the shared queue.
    assert_eq!(pool.next_task(0), Ok(Decision::Run(2)));
    pool.finish_task(0, TaskOutcome::Completed).unwrap();
    // Now the shared queue is empty too: it steals from worker 1.
    assert_eq!(pool.next_task(0), Ok(Decision::Run(11)));
    pool.finish_task(0, TaskOutcome::Completed).unwrap();
    // Nothing anywhere: the worker pauses.
    assert_eq!(pool.next_task(0), Ok(Decision::Pause(Pause::Spin)));
    assert_eq!(pool.state_of(0), WorkerState::IdleBackoff);
}

#[test]
fn peers_are_tried_in_turn_beginning_behind_the_worker() {
    let mut pool = Pool::new(4, Flavor::Fifo);
    // Give workers 0 and 3 one queued task each.
    for (w, first, child) in [(0usize, 1u64, 100u64), (3, 2, 300)] {
        pool.submit(first).unwrap();
        assert_eq!(pool.next_task(w), Ok(Decision::Run(first)));
        pool.spawn(w, child).unwrap();
    }
    // Worker 1 tries 2, then 3, then 0.
    assert_eq!(pool.next_task(1), Ok(Decision::Run(300)));
    pool.finish_task(1, TaskOutcome::Completed).unwrap();
    assert_eq!(pool.next_task(1), Ok(Decision::Run(100)));
}

#[test]
fn idle_worker_pauses_longer_and_longer_and_starts_over_after_work() {
    let mut pool = Pool::new(1, Flavor::Fifo);
    for _ in 0..SPIN_ROUNDS {
        assert_eq!(pool.next_task(0), Ok(Decision::Pause(Pause::Spin)));
    }
    assert_eq!(pool.next_task(0), Ok(Decision::Pause(Pause::Park(50))));
    assert_eq!(pool.next_task(0), Ok(Decision::Pause(Pause::Park(100))));
    pool.submit(5).unwrap();
    assert_eq!(pool.next_task(0), Ok(Decision::Run(5)));
    assert_eq!(pool.state_of(0), WorkerState::Running);
    pool.finish_task(0, TaskOutcome::Completed).unwrap();
    assert_eq!(pool.next_task(0), Ok(Decision::Pause(Pause::Spin)));
}

#[test]
fn submit_after_shutdown_is_refused() {
    for mode in [ShutdownMode::Graceful, ShutdownMode::Immediate] {
        let mut pool = Pool::new(2, Flavor::Fifo);
        pool.submit(1).unwrap();
        pool.shutdown(mode);
        assert!(pool.is_closed());
        assert_eq!(pool.submit(2), Err(PoolError::PoolClosed));
        assert_eq!(pool.spawn(0, 3), Err(PoolError::PoolClosed));
    }
}

#[test]
fn only_the_first_shutdown_counts() {
    let mut pool = Pool::new(1, Flavor::Fifo);
    pool.submit(1).unwrap();
    pool.submit(2).unwrap();
    pool.shutdown(ShutdownMode::Graceful);
    pool.shutdown(ShutdownMode::Immediate);
    let report = pool.join();
    assert_eq!(report.executed, vec![1, 2]);
}

#[test]
fn graceful_shutdown_drains() {
    for workers in [1usize, 4] {
        let mut pool = Pool::new(workers, Flavor::Lifo);
        for task in 0..500u64 {
            pool.submit(task).unwrap();
        }
        pool.shutdown(ShutdownMode::Graceful);
        let report = pool.join();
        let mut ran = report.executed.clone();
        ran.sort();
        assert_eq!(ran, (0..500u64).collect::<Vec<u64>>());
        assert_eq!(pool.queued_globally(), 0);
        for w in 0..workers {
            assert_eq!(pool.state_of(w), WorkerState::Stopped);
            assert_eq!(pool.queued_locally(w), 0);
            assert_eq!(pool.next_task(w), Ok(Decision::Stop));
        }
    }
}

#[test]
fn join_finishes_what_is_under_way() {
    let mut pool = Pool::new(2, Flavor::Fifo);
    for task in 1..=6u64 {
        pool.submit(task).unwrap();
    }
    assert_eq!(pool.next_task(0), Ok(Decision::Run(1)));
    assert_eq!(pool.next_task(1), Ok(Decision::Run(4)));
    pool.shutdown(ShutdownMode::Graceful);
    let report = pool.join();
    let mut ran = report.executed.clone();
    ran.sort();
    assert_eq!(ran, vec![1, 2, 3, 4, 5, 6]);
}

#[test]
fn immediate_shutdown_runs_no_more_than_what_is_under_way() {
    let workers = 4usize;
    let mut pool = Pool::new(workers, Flavor::Fifo);
    for task in 0..10_000u64 {
        pool.submit(task).unwrap();
    }
    // Two workers are in the middle of a task when the signal comes.
    assert_eq!(pool.next_task(0), Ok(Decision::Run(0)));
    let second = match pool.next_task(2) {
        Ok(Decision::Run(task)) => task,
        other => panic!("unexpected {:?}", other),
    };
    pool.shutdown(ShutdownMode::Immediate);
    assert_eq!(pool.queued_globally(), 0);
    // A worker that asks now is told to stop and its queue is gone.
    assert_eq!(pool.next_task(1), Ok(Decision::Stop));
    assert_eq!(pool.next_task(3), Ok(Decision::Stop));
    let report = pool.join();
    assert_eq!(report.executed, vec![0, second]);
    assert!(report.executed.len() <= workers);
    for w in 0..workers {
        assert_eq!(pool.state_of(w), WorkerState::Stopped);
        assert_eq!(pool.queued_locally(w), 0);
    }
}

#[test]
fn immediate_shutdown_of_an_idle_pool_runs_nothing() {
    let mut pool = Pool::new(3, Flavor::Lifo);
    for task in 0..100u64 {
        pool.submit(task).unwrap();
    }
    pool.shutdown(ShutdownMode::Immediate);
    let report = pool.join();
    assert!(report.executed.is_empty());
}

#[test]
fn a_panic_is_handed_back_and_the_worker_goes_on() {
    let mut pool = Pool::new(1, Flavor::Fifo);
    pool.submit(1).unwrap();
    pool.submit(2).unwrap();
    assert_eq!(pool.next_task(0), Ok(Decision::Run(1)));
    assert_eq!(
        pool.finish_task(0, TaskOutcome::Panicked),
        Err(PoolError::TaskPanicked(1))
    );
    assert_eq!(pool.state_of(0), WorkerState::Running);
    assert_eq!(pool.running_on(0), None);
    assert_eq!(pool.next_task(0), Ok(Decision::Run(2)));
    assert_eq!(pool.finish_task(0, TaskOutcome::Completed), Ok(()));
}

#[test]
fn a_worker_in_a_state_that_cannot_be_is_stopped() {
    // Asking for a task while one is under way.
    let mut pool = Pool::new(2, Flavor::Fifo);
    for task in 1..=5u64 {
        pool.submit(task).unwrap();
    }
    assert_eq!(pool.next_task(0), Ok(Decision::Run(1)));
    assert_eq!(pool.next_task(0), Err(PoolError::QueueCorruption(0)));
    assert_eq!(pool.state_of(0), WorkerState::Stopped);
    assert_eq!(pool.running_on(0), None);
    assert_eq!(pool.queued_locally(0), 0);
    // The other worker is not touched.
    assert_eq!(pool.state_of(1), WorkerState::Running);
    assert_eq!(pool.next_task(1), Ok(Decision::Run(4)));

    // Reporting the end of a task that was never begun.
    let mut pool = Pool::new(2, Flavor::Fifo);
    assert_eq!(
        pool.finish_task(1, TaskOutcome::Completed),
        Err(PoolError::QueueCorruption(1))
    );
    assert_eq!(pool.state_of(1), WorkerState::Stopped);
    assert_eq!(pool.state_of(0), WorkerState::Running);
}

#[test]
fn a_worker_that_does_not_exist_changes_nothing() {
    let mut pool = Pool::new(2, Flavor::Fifo);
    pool.submit(1).unwrap();
    assert_eq!(pool.next_task(2), Err(PoolError::QueueCorruption(2)));
    assert_eq!(
        pool.finish_task(9, TaskOutcome::Completed),
        Err(PoolError::QueueCorruption(9))
    );
    assert_eq!(pool.queued_globally(), 1);
    assert_eq!(pool.state_of(0), WorkerState::Running);
    assert_eq!(pool.state_of(1), WorkerState::Running);
}

#[test]
fn single_worker_starts_tasks_in_submission_order() {
    for flavor in [Flavor::Fifo, Flavor::Lifo] {
        let mut pool = Pool::new(1, flavor);
        let mut started = Vec::new();
        let mut next: u64 = 0;
        for round in 0..300u64 {
            for _ in 0..(round % 5) {
                pool.submit(next).unwrap();
                next += 1;
            }
            if let Ok(Decision::Run(task)) = pool.next_task(0) {
                started.push(task);
                pool.finish_task(0, TaskOutcome::Completed).unwrap();
            }
        }
        pool.shutdown(ShutdownMode::Graceful);
        started.extend(pool.join().executed);
        assert_eq!(started, (0..next).collect::<Vec<u64>>());
    }
}

#[test]
fn each_worker_keeps_to_its_own_flavor() {
    let mut pool = Pool::with_flavors(&vec![Flavor::Fifo, Flavor::Lifo]);
    assert_eq!(pool.worker_count(), 2);
    for w in 0..2usize {
        pool.submit(w as u64).unwrap();
        assert_eq!(pool.next_task(w), Ok(Decision::Run(w as u64)));
        for child in [10u64, 11, 12] {
            pool.spawn(w, child + 100 * w as u64).unwrap();
        }
        pool.finish_task(w, TaskOutcome::Completed).unwrap();
    }
    let mut order = |w: usize| {
        let mut ran = Vec::new();
        for _ in 0..3 {
            match pool.next_task(w) {
                Ok(Decision::Run(task)) => {
                    ran.push(task);
                    pool.finish_task(w, TaskOutcome::Completed).unwrap();
                }
                other => panic!("unexpected {:?}", other),
            }
        }
        ran
    };
    assert_eq!(order(0), vec![10, 11, 12]);
    assert_eq!(order(1), vec![112, 111, 110]);
}
