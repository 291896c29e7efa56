use crate::scheduler::local_queue::Flavor;
use crate::scheduler::search::{Search, Source};
use crate::scheduler::steal::Steal;
use vstd::prelude::*;

verus! {

/// The owner's end of a lock-free work-stealing queue.
#[verifier::external_type_specification]
#[verifier::external_body]
#[verifier::reject_recursive_types(T)]
pub struct ExWorker<T>(crossbeam::deque::Worker<T>);

/// A thief's handle on somebody else's queue.
#[verifier::external_type_specification]
#[verifier::external_body]
#[verifier::reject_recursive_types(T)]
pub struct ExStealer<T>(crossbeam::deque::Stealer<T>);

/// The lock-free queue that all workers share.
#[verifier::external_type_specification]
#[verifier::external_body]
#[verifier::reject_recursive_types(T)]
pub struct ExInjector<T>(crossbeam::deque::Injector<T>);

/// Calls `crossbeam::deque::Worker::new_fifo`. Nothing is claimed of the
/// queue that comes back.
#[verifier::external_body]
fn new_fifo_queue<T>() -> crossbeam::deque::Worker<T> {
    crossbeam::deque::Worker::new_fifo()
}

/// Calls `crossbeam::deque::Worker::new_lifo`. Nothing is claimed of the
/// queue that comes back.
#[verifier::external_body]
fn new_lifo_queue<T>() -> crossbeam::deque::Worker<T> {
    crossbeam::deque::Worker::new_lifo()
}

/// Calls `crossbeam::deque::Injector::new`. Nothing is claimed of the queue
/// that comes back.
#[verifier::external_body]
fn new_injector<T>() -> crossbeam::deque::Injector<T> {
    crossbeam::deque::Injector::new()
}

/// Calls `crossbeam::deque::Worker::stealer`. Nothing is claimed of the
/// handle that comes back.
#[verifier::external_body]
fn stealer_of<T>(queue: &crossbeam::deque::Worker<T>) -> crossbeam::deque::Stealer<T> {
    queue.stealer()
}

/// Calls `clone` on a `crossbeam::deque::Stealer`. Nothing is claimed of the
/// handle that comes back.
#[verifier::external_body]
fn clone_stealer<T>(handle: &crossbeam::deque::Stealer<T>) -> crossbeam::deque::Stealer<T> {
    handle.clone()
}

/// Calls `crossbeam::deque::Worker::pop`. Other threads may take from the
/// same queue at the same time, so nothing is claimed of what comes back.
#[verifier::external_body]
fn pop_local<T>(queue: &crossbeam::deque::Worker<T>) -> Option<T> {
    queue.pop()
}

/// Calls `crossbeam::deque::Injector::steal_batch_and_pop` and hands the
/// outcome back variant for variant. Other threads use both queues at the
/// same time, so nothing is claimed of what comes back.
#[verifier::external_body]
fn steal_batch_from<T>(
    global: &crossbeam::deque::Injector<T>,
    local: &crossbeam::deque::Worker<T>,
) -> Steal<T> {
    match global.steal_batch_and_pop(local) {
        crossbeam::deque::Steal::Empty => Steal::Empty,
        crossbeam::deque::Steal::Success(task) => Steal::Success(task),
        crossbeam::deque::Steal::Retry => Steal::Retry,
    }
}

/// Calls `crossbeam::deque::Stealer::steal` and hands the outcome back
/// variant for variant. Other threads use the queue at the same time, so
/// nothing is claimed of what comes back.
#[verifier::external_body]
fn steal_from<T>(handle: &crossbeam::deque::Stealer<T>) -> Steal<T> {
    match handle.steal() {
        crossbeam::deque::Steal::Empty => Steal::Empty,
        crossbeam::deque::Steal::Success(task) => Steal::Success(task),
        crossbeam::deque::Steal::Retry => Steal::Retry,
    }
}

/// How often a source that answers `Retry` is asked again before the search
/// moves on.
pub const RETRY_BUDGET: usize = 4;

/// What a search for a task came to.
#[derive(Debug, Clone, PartialEq, Eq)]
pub struct SearchReport<T> {
    /// The task that was found, if one was.
    pub task: Option<T>,
    /// Whether the search left a source that still answered `Retry`. Such a
    /// source may hold tasks: a worker that found nothing must look again
    /// soon and must not take the queues for empty.
    pub contended: bool,
}

/// Whether a report is what a search makes of some run of answers: the
/// search began afresh, each answer was that of the source the search asked
/// for, and the search was over at the end of the run.
pub open spec fn reports<T>(
    report: SearchReport<T>,
    peers: usize,
    first: usize,
    budget: usize,
    answers: Seq<Steal<T>>,
) -> bool {
    let end = Search::<T>::start(peers, first, budget).fed(answers);
    &&& end.done()
    &&& report.task == end.found
    &&& report.contended == end.contended
    &&& answers.len() <= (peers + 2) * (budget + 1)
}

/// Looks for a task for the worker that owns `local`: in its own queue,
/// then in the shared queue, from which a batch is moved over, then with
/// the peers one after the other, beginning with the handle at `first`. A
/// queue that answers `Retry` is asked again up to `budget` times.
///
/// What the queues answer depends on what other threads do in the
/// meantime. Whatever they answer, the search asks them in that order,
/// asks no more than `(peers + 2) * (budget + 1)` times, and hands back the
/// first task that any of them gave.
pub fn search_for_task<T>(
    local: &crossbeam::deque::Worker<T>,
    global: &crossbeam::deque::Injector<T>,
    stealers: &[crossbeam::deque::Stealer<T>],
    first: usize,
    budget: usize,
) -> (report: SearchReport<T>)
    ensures
        exists|answers: Seq<Steal<T>>|
            #[trigger] reports(report, stealers@.len() as usize, first, budget, answers),
{
    let peers: usize = stealers.len();
    let mut search: Search<T> = Search::new(peers, first, budget);
    let ghost mut answers: Seq<Steal<T>> = Seq::empty();
    let ghost bound = (peers + 2) * (budget + 1);
    proof {
        assert(search.answers_left() <= bound) by (nonlinear_arith)
            requires
                search.answers_left() == (peers + 2) * (budget + 1) - 0,
                bound == (peers + 2) * (budget + 1),
        ;
    }
    loop
        invariant
            peers == stealers@.len(),
            search.peers == peers,
            search.wf(),
            search == Search::<T>::start(peers, first, budget).fed(answers),
            answers.len() + search.answers_left() <= bound,
            bound == (peers + 2) * (budget + 1),
        ensures
            search.done(),
        decreases search.answers_left(),
    {
        let answer: Steal<T> = match search.next() {
            None => {
                break ;
            },
            Some(Source::Local) => match pop_local(local) {
                Some(task) => Steal::Success(task),
                None => Steal::Empty,
            },
            Some(Source::Global) => steal_batch_from(global, local),
            Some(Source::Peer(index)) => steal_from(&stealers[index]),
        };
        proof {
            search.lemma_told(answer);
            assert(answers.push(answer).drop_last() =~= answers);
            answers = answers.push(answer);
        }
        search.record(answer);
    }
    let Search { found, contended, .. } = search;
    let report = SearchReport { task: found, contended };
    assert(stealers@.len() as usize == peers);
    assert(reports(report, stealers@.len() as usize, first, budget, answers));
    report
}

/// Looks for a task as `search_for_task` does, beginning with the first
/// peer and with the usual budget, and hands back the task alone.
pub fn find_task<T>(
    local: &crossbeam::deque::Worker<T>,
    global: &crossbeam::deque::Injector<T>,
    stealers: &[crossbeam::deque::Stealer<T>],
) -> (r: Option<T>)
    ensures
        exists|answers: Seq<Steal<T>>|
            #![trigger Search::<T>::start(stealers@.len() as usize, 0, RETRY_BUDGET).fed(answers)]
            {
                let end = Search::<T>::start(stealers@.len() as usize, 0, RETRY_BUDGET).fed(
                    answers,
                );
                end.done() && r == end.found
            },
{
    let report = search_for_task(local, global, stealers, 0, RETRY_BUDGET);
    proof {
        let answers = choose|answers: Seq<Steal<T>>|
            #[trigger] reports(report, stealers@.len() as usize, 0, RETRY_BUDGET, answers);
        let end = Search::<T>::start(stealers@.len() as usize, 0, RETRY_BUDGET).fed(answers);
        assert(end.done() && report.task == end.found);
    }
    report.task
}

/// The worker that the handle at place `place` in the list of worker
/// `owner` steals from: the handles stand in the order of the workers, the
/// owner itself left out.
pub open spec fn target_at(owner: int, place: int) -> int {
    if place < owner {
        place
    } else {
        place + 1
    }
}

/// All that one worker thread needs: its own queue and a handle on the
/// queue of every other worker.
#[verifier::reject_recursive_types(T)]
pub struct ThreadData<T> {
    /// The worker's number.
    pub index: usize,
    /// The worker's own queue.
    pub task_q: crossbeam::deque::Worker<T>,
    /// The handles on the queues of the other workers.
    pub stealers: Vec<crossbeam::deque::Stealer<T>>,
    /// For each handle, the number of the worker whose queue it is for.
    pub targets: Vec<usize>,
}

impl<T> ThreadData<T> {
    /// The worker has the number `index` among `count` workers and holds
    /// one handle for each of the others, in their order.
    pub open spec fn wired(&self, index: int, count: int) -> bool {
        &&& self.index == index
        &&& self.stealers@.len() == count - 1
        &&& self.targets@.len() == count - 1
        &&& forall|place: int|
            0 <= place < count - 1 ==> #[trigger] self.targets@[place] == target_at(index, place)
    }

    /// The handle with which this worker does best to begin its round of
    /// the peers: that of the worker behind it, so that the workers do not
    /// all fall upon the same peer.
    pub fn first_peer(&self) -> (r: usize)
        ensures
            self.stealers@.len() == 0 ==> r == 0,
            self.stealers@.len() > 0 ==> r == self.index as int % self.stealers@.len() as int,
    {
        if self.stealers.len() == 0 {
            0
        } else {
            self.index % self.stealers.len()
        }
    }
}

/// The parts of a pool of threads before the threads are started.
#[verifier::reject_recursive_types(T)]
pub struct Factory<T> {
    /// The queue that all workers share.
    pub injector: crossbeam::deque::Injector<T>,
    /// One entry for each worker.
    pub workers: Vec<ThreadData<T>>,
}

impl<T> Factory<T> {
    /// A factory with a shared queue and no workers yet.
    pub fn new() -> (r: Factory<T>)
        ensures
            r.workers@.len() == 0,
    {
        Factory { injector: new_injector(), workers: Vec::new() }
    }

    /// Makes the queues of `worker_count` workers, all of one flavor, and
    /// gives each worker a handle on the queue of every other worker, in
    /// the order of the workers. Workers that the factory held before are
    /// dropped.
    pub fn build_threadpool(self, worker_count: usize, flavor: Flavor) -> (r: Factory<T>)
        requires
            worker_count >= 1,
        ensures
            r.workers@.len() == worker_count,
            forall|i: int|
                0 <= i < worker_count ==> (#[trigger] r.workers@[i]).wired(i, worker_count as int),
    {
        let mut queues: Vec<crossbeam::deque::Worker<T>> = Vec::new();
        let mut handles: Vec<crossbeam::deque::Stealer<T>> = Vec::new();
        while queues.len() < worker_count
            invariant
                queues@.len() <= worker_count,
                handles@.len() == queues@.len(),
            decreases worker_count - queues@.len(),
        {
            let queue = match flavor {
                Flavor::Fifo => new_fifo_queue(),
                Flavor::Lifo => new_lifo_queue(),
            };
            handles.push(stealer_of(&queue));
            queues.push(queue);
        }
        let mut workers: Vec<ThreadData<T>> = Vec::new();
        while queues.len() > 0
            invariant
                handles@.len() == worker_count,
                queues@.len() <= worker_count,
                workers@.len() + queues@.len() == worker_count,
                forall|i: int|
                    0 <= i < workers@.len() ==> (#[trigger] workers@[i]).wired(
                        worker_count - 1 - i,
                        worker_count as int,
                    ),
            decreases queues@.len(),
        {
            let index: usize = queues.len() - 1;
            let task_q = queues.pop().unwrap();
            let mut stealers: Vec<crossbeam::deque::Stealer<T>> = Vec::new();
            let mut targets: Vec<usize> = Vec::new();
            let mut peer: usize = 0;
            while peer < worker_count
                invariant
                    handles@.len() == worker_count,
                    index < worker_count,
                    peer <= worker_count,
                    stealers@.len() == targets@.len(),
                    targets@.len() == if peer <= index {
                        peer as int
                    } else {
                        peer - 1
                    },
                    forall|place: int|
                        0 <= place < targets@.len() ==> #[trigger] targets@[place] == target_at(
                            index as int,
                            place,
                        ),
                decreases worker_count - peer,
            {
                if peer != index {
                    stealers.push(clone_stealer(&handles[peer]));
                    targets.push(peer);
                }
                peer += 1;
            }
            workers.push(ThreadData { index, task_q, stealers, targets });
        }
        let mut ordered: Vec<ThreadData<T>> = Vec::new();
        while workers.len() > 0
            invariant
                workers@.len() + ordered@.len() == worker_count,
                forall|i: int|
                    0 <= i < workers@.len() ==> (#[trigger] workers@[i]).wired(
                        worker_count - 1 - i,
                        worker_count as int,
                    ),
                forall|i: int|
                    0 <= i < ordered@.len() ==> (#[trigger] ordered@[i]).wired(
                        i,
                        worker_count as int,
                    ),
            decreases workers@.len(),
        {
            let next = workers.pop().unwrap();
            ordered.push(next);
        }
        Factory { injector: self.injector, workers: ordered }
    }
}

} // verus!
