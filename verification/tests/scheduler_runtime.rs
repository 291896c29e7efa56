use crossbeam::deque::{Injector, Stealer, Worker};
use task_rustler::scheduler::local_queue::Flavor;
use task_rustler::scheduler::runtime::{
    find_task, search_for_task, Factory, SearchReport, RETRY_BUDGET,
};
use task_rustler::scheduler::search::{Search, Source, Stage};
use task_rustler::scheduler::steal::Steal;

#[test]
fn search_asks_local_then_global_then_the_peers_in_turn() {
    let mut search: Search<u64> = Search::new(3, 1, 0);
    assert_eq!(search.next(), Some(Source::Local));
    search.record(Steal::Empty);
    assert_eq!(search.next(), Some(Source::Global));
    search.record(Steal::Empty);
    assert_eq!(search.next(), Some(Source::Peer(1)));
    search.record(Steal::Empty);
    assert_eq!(search.next(), Some(Source::Peer(2)));
    search.record(Steal::Empty);
    assert_eq!(search.next(), Some(Source::Peer(0)));
    search.record(Steal::Empty);
    assert_eq!(search.next(), None);
    assert_eq!(search.stage, Stage::Exhausted);
    assert_eq!(search.found, None);
    assert!(!search.contended);
}

#[test]
fn search_ends_with_the_first_task() {
    let mut search: Search<u64> = Search::new(2, 0, 3);
    search.record(Steal::Empty);
    search.record(Steal::Retry);
    search.record(Steal::Success(77));
    assert_eq!(search.next(), None);
    assert_eq!(search.found, Some(77));
    // A search that is over takes no more answers.
    search.record(Steal::Success(78));
    assert_eq!(search.found, Some(77));
}

#[test]
fn search_retries_a_contended_source_only_as_often_as_the_budget_allows() {
    let mut search: Search<u64> = Search::new(1, 0, 2);
    search.record(Steal::Empty);
    assert_eq!(search.next(), Some(Source::Global));
    search.record(Steal::Retry);
    assert_eq!(search.next(), Some(Source::Global));
    search.record(Steal::Retry);
    assert_eq!(search.next(), Some(Source::Global));
    assert!(!search.contended);
    search.record(Steal::Retry);
    assert!(search.contended);
    assert_eq!(search.next(), Some(Source::Peer(0)));
    search.record(Steal::Empty);
    assert_eq!(search.next(), None);
    assert_eq!(search.found, None);
    assert!(search.contended);
}

#[test]
fn search_without_peers_and_with_a_start_beyond_their_number() {
    let mut search: Search<u64> = Search::new(0, 5, 1);
    assert_eq!(search.first, 0);
    search.record(Steal::Empty);
    search.record(Steal::Empty);
    assert_eq!(search.next(), None);

    let search: Search<u64> = Search::new(4, 10, 1);
    assert_eq!(search.first, 2);
}

#[test]
fn search_never_asks_more_often_than_its_bound() {
    let peers = 3usize;
    let budget = 4usize;
    let mut search: Search<u64> = Search::new(peers, 0, budget);
    let mut asked = 0usize;
    while search.next().is_some() {
        search.record(Steal::Retry);
        asked += 1;
    }
    assert_eq!(asked, (peers + 2) * (budget + 1));
}

#[test]
fn find_task_prefers_the_own_queue() {
    let local = Worker::new_fifo();
    let global = Injector::new();
    let other = Worker::new_fifo();
    local.push(1u64);
    global.push(2u64);
    other.push(3u64);
    let stealers = vec![other.stealer()];
    assert_eq!(find_task(&local, &global, &stealers), Some(1));
    assert_eq!(find_task(&local, &global, &stealers), Some(2));
    assert_eq!(find_task(&local, &global, &stealers), Some(3));
    assert_eq!(find_task(&local, &global, &stealers), None);
}

#[test]
fn find_task_moves_a_batch_over_from_the_shared_queue() {
    let local: Worker<u64> = Worker::new_fifo();
    let global = Injector::new();
    for task in 0..10u64 {
        global.push(task);
    }
    let stealers: Vec<Stealer<u64>> = Vec::new();
    assert_eq!(find_task(&local, &global, &stealers), Some(0));
    assert!(!local.is_empty());
    let mut got = vec![0u64];
    while let Some(task) = find_task(&local, &global, &stealers) {
        got.push(task);
    }
    assert_eq!(got, (0..10u64).collect::<Vec<u64>>());
}

#[test]
fn search_for_task_begins_with_the_peer_it_is_told() {
    let local: Worker<u64> = Worker::new_lifo();
    let global: Injector<u64> = Injector::new();
    let a = Worker::new_fifo();
    let b = Worker::new_fifo();
    let c = Worker::new_fifo();
    a.push(10u64);
    b.push(20u64);
    c.push(30u64);
    let stealers = vec![a.stealer(), b.stealer(), c.stealer()];
    let report = search_for_task(&local, &global, &stealers, 1, RETRY_BUDGET);
    assert_eq!(report, SearchReport { task: Some(20), contended: false });
    let report = search_for_task(&local, &global, &stealers, 1, RETRY_BUDGET);
    assert_eq!(report.task, Some(30));
    let report = search_for_task(&local, &global, &stealers, 1, RETRY_BUDGET);
    assert_eq!(report.task, Some(10));
    let report = search_for_task(&local, &global, &stealers, 1, RETRY_BUDGET);
    assert_eq!(report, SearchReport { task: None, contended: false });
}

#[test]
fn factory_gives_each_worker_a_handle_on_every_other() {
    let factory: Factory<u64> = Factory::new();
    assert!(factory.workers.is_empty());
    let factory = factory.build_threadpool(3, Flavor::Fifo);
    assert_eq!(factory.workers.len(), 3);
    let expected: [&[usize]; 3] = [&[1, 2], &[0, 2], &[0, 1]];
    for (i, data) in factory.workers.iter().enumerate() {
        assert_eq!(data.index, i);
        assert_eq!(data.stealers.len(), 2);
        assert_eq!(data.targets, expected[i]);
    }
    assert_eq!(factory.workers[0].first_peer(), 0);
    assert_eq!(factory.workers[1].first_peer(), 1);
    assert_eq!(factory.workers[2].first_peer(), 0);
}

#[test]
fn factory_handles_reach_the_queues_they_are_for() {
    let factory: Factory<u64> = Factory::new().build_threadpool(4, Flavor::Lifo);
    for (i, data) in factory.workers.iter().enumerate() {
        data.task_q.push(100 + i as u64);
    }
    // Each handle of worker 0 takes the task of the worker it is for.
    let thief = &factory.workers[0];
    for (place, handle) in thief.stealers.iter().enumerate() {
        let target = thief.targets[place];
        assert_eq!(handle.steal().success(), Some(100 + target as u64));
    }
    assert_eq!(thief.task_q.pop(), Some(100));
}

#[test]
fn factory_of_one_worker_has_no_handles() {
    let factory: Factory<u64> = Factory::new().build_threadpool(1, Flavor::Fifo);
    assert_eq!(factory.workers.len(), 1);
    assert!(factory.workers[0].stealers.is_empty());
    assert_eq!(factory.workers[0].first_peer(), 0);
    factory.injector.push(5);
    let data = &factory.workers[0];
    assert_eq!(find_task(&data.task_q, &factory.injector, &data.stealers), Some(5));
}

#[test]
fn factory_flavor_is_that_of_the_queues() {
    let fifo: Factory<u64> = Factory::new().build_threadpool(1, Flavor::Fifo);
    fifo.workers[0].task_q.push(1);
    fifo.workers[0].task_q.push(2);
    assert_eq!(fifo.workers[0].task_q.pop(), Some(1));
    let lifo: Factory<u64> = Factory::new().build_threadpool(1, Flavor::Lifo);
    lifo.workers[0].task_q.push(1);
    lifo.workers[0].task_q.push(2);
    assert_eq!(lifo.workers[0].task_q.pop(), Some(2));
}
