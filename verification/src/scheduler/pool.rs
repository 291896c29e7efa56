use crate::scheduler::injector::GlobalInjector;
use crate::scheduler::local_queue::{Flavor, LocalQueue};
use crate::scheduler::model::{PoolView, WorkerView};
use crate::scheduler::steal::{Steal, TaskId};
use crate::scheduler::worker::{
    Backoff, Decision, Pause, PoolError, ShutdownMode, TaskOutcome, WorkerState,
};
use vstd::prelude::*;

verus! {

/// One worker of a pool: its own queue, where it stands, the task it is in
/// the middle of, and how long it has been idle.
pub struct PoolWorker {
    queue: LocalQueue,
    state: WorkerState,
    running: Option<TaskId>,
    backoff: Backoff,
}

impl View for PoolWorker {
    type V = WorkerView;

    closed spec fn view(&self) -> WorkerView {
        WorkerView {
            state: self.state,
            flavor: self.queue.flavor_spec(),
            queue: self.queue@,
            running: self.running,
            backoff: self.backoff,
        }
    }
}

/// The record of what has happened to the tasks of a pool. It exists for
/// proofs only.
pub struct Ledger {
    pub accepted: Seq<TaskId>,
    pub started: Seq<TaskId>,
    pub finished: Seq<TaskId>,
    pub discarded: Seq<TaskId>,
    pub faulted: bool,
    pub closed_at: nat,
    pub spawned: nat,
}

/// What `join` did: the tasks it ran, in the order in which it ran them.
#[derive(Debug, Clone, PartialEq, Eq)]
pub struct JoinReport {
    pub executed: Vec<TaskId>,
}

/// A pool of workers around one shared queue. The pool decides; it does not
/// run anything itself. Whoever drives it hands tasks in, asks for each
/// worker what that worker is to do next, runs the task it is given, and
/// reports how the run ended. Each call is one indivisible step, so whatever
/// holds after every step holds however the steps of different workers are
/// interleaved.
pub struct Pool {
    injector: GlobalInjector,
    workers: Vec<PoolWorker>,
    mode: Option<ShutdownMode>,
    ledger: Ghost<Ledger>,
}

impl View for Pool {
    type V = PoolView;

    closed spec fn view(&self) -> PoolView {
        PoolView {
            injector: self.injector@,
            workers: Seq::new(self.workers@.len(), |i: int| self.workers@[i]@),
            mode: self.mode,
            accepted: self.ledger@.accepted,
            started: self.ledger@.started,
            finished: self.ledger@.finished,
            discarded: self.ledger@.discarded,
            faulted: self.ledger@.faulted,
            closed_at: self.ledger@.closed_at,
            spawned: self.ledger@.spawned,
        }
    }
}

impl Pool {
    /// The queues are sound.
    closed spec fn queues_wf(&self) -> bool {
        &&& self.injector.wf()
        &&& forall|i: int| 0 <= i < self.workers@.len() ==> (#[trigger] self.workers@[i]).queue.wf()
    }

    /// The queues are sound and the pool is in order.
    pub closed spec fn wf(&self) -> bool {
        &&& self.queues_wf()
        &&& self@.inv()
    }

    /// A sound pool is in order, so all that is proved of pools in order
    /// holds of it.
    pub proof fn lemma_in_order(&self)
        requires
            self.wf(),
        ensures
            self@.inv(),
    {
    }

    /// A pool of `worker_count` workers, each with an empty queue of the
    /// given flavor, open for tasks.
    pub fn new(worker_count: usize, flavor: Flavor) -> (pool: Pool)
        requires
            worker_count >= 1,
        ensures
            pool.wf(),
            pool@ == PoolView::fresh(worker_count as nat, flavor),
    {
        let mut flavors: Vec<Flavor> = Vec::new();
        while flavors.len() < worker_count
            invariant
                flavors@.len() <= worker_count,
                forall|i: int| 0 <= i < flavors@.len() ==> flavors@[i] == flavor,
            decreases worker_count - flavors@.len(),
        {
            flavors.push(flavor);
        }
        assert(flavors@ =~= Seq::new(worker_count as nat, |i: int| flavor));
        Pool::with_flavors(&flavors)
    }

    /// A pool with one worker for each of the given flavors, each with an
    /// empty queue of its flavor, open for tasks.
    pub fn with_flavors(flavors: &Vec<Flavor>) -> (pool: Pool)
        requires
            flavors@.len() >= 1,
        ensures
            pool.wf(),
            pool@ == PoolView::fresh_with(flavors@),
    {
        let mut workers: Vec<PoolWorker> = Vec::new();
        while workers.len() < flavors.len()
            invariant
                workers@.len() <= flavors@.len(),
                forall|i: int|
                    0 <= i < workers@.len() ==> (#[trigger] workers@[i]).queue.wf()
                        && workers@[i]@ == WorkerView::fresh(flavors@[i]),
            decreases flavors@.len() - workers@.len(),
        {
            let queue = LocalQueue::new(flavors[workers.len()]);
            workers.push(
                PoolWorker {
                    queue,
                    state: WorkerState::Running,
                    running: None,
                    backoff: Backoff::new(),
                },
            );
        }
        let pool = Pool {
            injector: GlobalInjector::new(),
            workers,
            mode: None,
            ledger: Ghost(
                Ledger {
                    accepted: Seq::empty(),
                    started: Seq::empty(),
                    finished: Seq::empty(),
                    discarded: Seq::empty(),
                    faulted: false,
                    closed_at: 0,
                    spawned: 0,
                },
            ),
        };
        proof {
            PoolView::lemma_fresh_inv(flavors@);
            assert(pool@ =~= PoolView::fresh_with(flavors@));
        }
        pool
    }

    /// The number of workers.
    pub fn worker_count(&self) -> (r: usize)
        ensures
            r == self@.workers.len(),
    {
        self.workers.len()
    }

    /// Whether shutdown has been initiated.
    pub fn is_closed(&self) -> (r: bool)
        ensures
            r <==> self@.mode is Some,
    {
        self.mode.is_some()
    }

    /// The number of tasks in the shared queue.
    pub fn queued_globally(&self) -> (r: usize)
        ensures
            r == self@.injector.len(),
    {
        self.injector.len()
    }

    /// The number of tasks in a worker's own queue.
    pub fn queued_locally(&self, worker: usize) -> (r: usize)
        requires
            self.wf(),
            worker < self@.workers.len(),
        ensures
            r == self@.workers[worker as int].queue.len(),
    {
        self.workers[worker].queue.len()
    }

    /// Where a worker stands.
    pub fn state_of(&self, worker: usize) -> (r: WorkerState)
        requires
            worker < self@.workers.len(),
        ensures
            r == self@.workers[worker as int].state,
    {
        self.workers[worker].state
    }

    /// The task that a worker is in the middle of, if any.
    pub fn running_on(&self, worker: usize) -> (r: Option<TaskId>)
        requires
            worker < self@.workers.len(),
        ensures
            r == self@.workers[worker as int].running,
    {
        self.workers[worker].running
    }

    /// Hands a task in from outside. While the pool is open the task is
    /// accepted and queued at the tail of the shared queue; once shutdown
    /// has been initiated it is refused and nothing changes.
    pub fn submit(&mut self, task: TaskId) -> (r: Result<(), PoolError>)
        requires
            old(self).wf(),
        ensures
            final(self).wf(),
            final(self)@ == old(self)@.submit(task),
            old(self)@.mode is None ==> r == Ok::<(), PoolError>(()),
            old(self)@.mode is Some ==> r == Err::<(), PoolError>(PoolError::PoolClosed),
    {
        if self.mode.is_some() {
            return Err(PoolError::PoolClosed);
        }
        proof {
            old(self)@.lemma_submit_inv(task);
        }
        self.injector.push(task);
        self.ledger = Ghost(Ledger { accepted: self.ledger@.accepted.push(task), ..self.ledger@ });
        assert(self@ =~= old(self)@.submit(task));
        Ok(())
    }

    /// Hands a task in from inside a task that a worker is running. While
    /// the pool is open the task is accepted: it goes to that worker's own
    /// queue where the worker is in the middle of a task, and to the shared
    /// queue otherwise. Once shutdown has been initiated it is refused.
    pub fn spawn(&mut self, worker: usize, task: TaskId) -> (r: Result<(), PoolError>)
        requires
            old(self).wf(),
        ensures
            final(self).wf(),
            final(self)@ == old(self)@.spawn(worker as int, task),
            old(self)@.mode is None ==> r == Ok::<(), PoolError>(()),
            old(self)@.mode is Some ==> r == Err::<(), PoolError>(PoolError::PoolClosed),
    {
        if self.mode.is_some() {
            return Err(PoolError::PoolClosed);
        }
        proof {
            old(self)@.lemma_spawn_inv(worker as int, task);
        }
        if worker < self.workers.len() && self.workers[worker].running.is_some() {
            self.workers[worker].queue.push(task);
        } else {
            self.injector.push(task);
        }
        self.ledger = Ghost(
            Ledger {
                accepted: self.ledger@.accepted.push(task),
                spawned: self.ledger@.spawned + 1,
                ..self.ledger@
            },
        );
        assert(self@ =~= old(self)@.spawn(worker as int, task));
        Ok(())
    }

    /// Initiates shutdown. Only the first call counts. From then on no task
    /// is accepted. An immediate shutdown throws away what is in the shared
    /// queue on the spot; each worker throws away its own queue when it next
    /// asks what to do.
    pub fn shutdown(&mut self, mode: ShutdownMode)
        requires
            old(self).wf(),
        ensures
            final(self).wf(),
            final(self)@ == old(self)@.shutdown(mode),
    {
        if self.mode.is_some() {
            return ;
        }
        proof {
            old(self)@.lemma_shutdown_inv(mode);
        }
        self.mode = Some(mode);
        match mode {
            ShutdownMode::Immediate => {
                let ghost thrown = self.injector@;
                self.injector.clear();
                self.ledger = Ghost(
                    Ledger {
                        closed_at: self.ledger@.finished.len(),
                        discarded: self.ledger@.discarded + thrown,
                        ..self.ledger@
                    },
                );
            },
            ShutdownMode::Graceful => {
                self.ledger = Ghost(
                    Ledger { closed_at: self.ledger@.finished.len(), ..self.ledger@ },
                );
            },
        }
        assert(self@ =~= old(self)@.shutdown(mode));
    }

    /// Stops a worker for a corrupt state and throws away what it held.
    fn abort(&mut self, worker: usize)
        requires
            old(self).queues_wf(),
            worker < old(self)@.workers.len(),
        ensures
            final(self).queues_wf(),
            final(self)@ == old(self)@.abort(worker as int),
    {
        let ghost held = self@.workers[worker as int].held();
        self.workers[worker].queue.clear();
        self.workers[worker].running = None;
        self.workers[worker].state = WorkerState::Stopped;
        self.ledger = Ghost(
            Ledger { discarded: self.ledger@.discarded + held, faulted: true, ..self.ledger@ },
        );
        assert(self@ =~= old(self)@.abort(worker as int));
    }

    /// Looks for a task for a worker: in its own queue, then in the shared
    /// queue, then with each peer in turn.
    fn search(&mut self, worker: usize) -> (r: Option<TaskId>)
        requires
            old(self).queues_wf(),
            worker < old(self)@.workers.len(),
        ensures
            final(self).queues_wf(),
            match old(self)@.search(worker as int) {
                Some((task, after)) => r == Some(task) && final(self)@ == after,
                None => r is None && final(self)@ == old(self)@,
            },
    {
        match self.workers[worker].queue.pop() {
            Some(task) => {
                assert(self@ =~= old(self)@.searched(worker as int));
                return Some(task);
            },
            None => {},
        }
        match self.injector.steal_batch_and_pop(&mut self.workers[worker].queue) {
            Steal::Success(task) => {
                assert(self@ =~= old(self)@.searched(worker as int));
                return Some(task);
            },
            _ => {},
        }
        assert(self@ =~= old(self)@);
        let count: usize = self.workers.len();
        let room: usize = count - 1 - worker;
        let mut turn: usize = 0;
        while turn < count - 1
            invariant
                self.queues_wf(),
                self@ == old(self)@,
                count == self.workers@.len(),
                worker < count,
                room == count - 1 - worker,
                self@.first_busy_peer(worker as int, 0) == self@.first_busy_peer(
                    worker as int,
                    turn as int,
                ),
                self@.workers[worker as int].queue.len() == 0,
                self@.injector.len() == 0,
            decreases count - turn,
        {
            let peer: usize = if turn < room {
                worker + 1 + turn
            } else {
                turn - room
            };
            assert(peer == self@.peer_at(worker as int, turn as int));
            let ghost before = self@;
            match self.workers[peer].queue.steal() {
                Steal::Success(task) => {
                    assert(before.first_busy_peer(worker as int, turn as int) == Some(turn as int));
                    assert(self@ =~= before.searched(worker as int));
                    return Some(task);
                },
                _ => {
                    assert(self@ =~= before);
                },
            }
            turn += 1;
        }
        None
    }

    /// Tells a worker what to do next.
    ///
    /// A stopped worker is told to stop. A worker that asks while it is in
    /// the middle of a task is in a state that cannot be: it is stopped for
    /// good, what it held is thrown away, and the call fails. After an
    /// immediate shutdown the worker throws away its own queue and stops.
    /// Otherwise the worker looks for a task: in its own queue, then in the
    /// shared queue, from which it takes a batch, then with each peer in
    /// turn. It is told to run what it finds. Where it finds nothing it
    /// stops, if shutdown has been initiated, and else pauses, each time
    /// longer than the last.
    ///
    /// An index that names no worker fails the call and changes nothing.
    pub fn next_task(&mut self, worker: usize) -> (r: Result<Decision, PoolError>)
        requires
            old(self).wf(),
        ensures
            final(self).wf(),
            worker >= old(self)@.workers.len() ==> {
                &&& r == Err::<Decision, PoolError>(PoolError::QueueCorruption(worker))
                &&& final(self)@ == old(self)@
            },
            worker < old(self)@.workers.len() ==> {
                &&& r == old(self)@.decision(worker as int)
                &&& final(self)@ == old(self)@.next_task(worker as int)
            },
    {
        if worker >= self.workers.len() {
            return Err(PoolError::QueueCorruption(worker));
        }
        proof {
            old(self)@.lemma_next_task_inv(worker as int);
        }
        if self.workers[worker].state == WorkerState::Stopped {
            return Ok(Decision::Stop);
        }
        if self.workers[worker].running.is_some() {
            self.abort(worker);
            return Err(PoolError::QueueCorruption(worker));
        }
        if self.mode == Some(ShutdownMode::Immediate) {
            let ghost thrown = self@.workers[worker as int].queue;
            self.workers[worker].queue.clear();
            self.workers[worker].state = WorkerState::Stopped;
            self.ledger = Ghost(
                Ledger { discarded: self.ledger@.discarded + thrown, ..self.ledger@ },
            );
            assert(self@ =~= old(self)@.next_task(worker as int));
            return Ok(Decision::Stop);
        }
        let found: Option<TaskId> = self.search(worker);
        proof {
            old(self)@.lemma_search(worker as int);
            assert(self@.workers.len() == self.workers@.len());
        }
        match found {
            Some(task) => {
                self.workers[worker].running = Some(task);
                self.workers[worker].state = if self.mode.is_some() {
                    WorkerState::ShuttingDown
                } else {
                    WorkerState::Running
                };
                self.workers[worker].backoff.reset();
                self.ledger = Ghost(
                    Ledger { started: self.ledger@.started.push(task), ..self.ledger@ },
                );
                assert(self@ =~= old(self)@.next_task(worker as int));
                Ok(Decision::Run(task))
            },
            None => {
                if self.mode.is_some() {
                    self.workers[worker].state = WorkerState::Stopped;
                    assert(self@ =~= old(self)@.next_task(worker as int));
                    Ok(Decision::Stop)
                } else {
                    self.workers[worker].state = WorkerState::IdleBackoff;
                    let pause: Pause = self.workers[worker].backoff.next();
                    assert(self@ =~= old(self)@.next_task(worker as int));
                    Ok(Decision::Pause(pause))
                }
            },
        }
    }

    /// Takes a worker's report that the run of its task has ended. The task
    /// counts as run, however the run ended, and the worker goes on. A
    /// panic is handed back to the caller as an error, for it to report.
    ///
    /// A worker that reports the end of a task that it did not have is in a
    /// state that cannot be: it is stopped for good, what it held is thrown
    /// away, and the call fails. An index that names no worker fails the
    /// call and changes nothing.
    pub fn finish_task(&mut self, worker: usize, outcome: TaskOutcome) -> (r: Result<
        (),
        PoolError,
    >)
        requires
            old(self).wf(),
        ensures
            final(self).wf(),
            worker >= old(self)@.workers.len() ==> {
                &&& r == Err::<(), PoolError>(PoolError::QueueCorruption(worker))
                &&& final(self)@ == old(self)@
            },
            worker < old(self)@.workers.len() ==> {
                &&& r == old(self)@.finish_result(worker as int, outcome)
                &&& final(self)@ == old(self)@.finish_task(worker as int)
            },
    {
        if worker >= self.workers.len() {
            return Err(PoolError::QueueCorruption(worker));
        }
        proof {
            old(self)@.lemma_finish_task_inv(worker as int);
        }
        match self.workers[worker].running {
            None => {
                self.abort(worker);
                Err(PoolError::QueueCorruption(worker))
            },
            Some(task) => {
                self.workers[worker].running = None;
                self.ledger = Ghost(
                    Ledger { finished: self.ledger@.finished.push(task), ..self.ledger@ },
                );
                assert(self@ =~= old(self)@.finish_task(worker as int));
                match outcome {
                    TaskOutcome::Panicked => Err(PoolError::TaskPanicked(task)),
                    TaskOutcome::Completed => Ok(()),
                }
            },
        }
    }

    /// Runs a worker until it stops: the task it is in the middle of comes
    /// to its end, and so does every task that the worker is told to run
    /// after it.
    fn run_out(&mut self, worker: usize, executed: &mut Vec<TaskId>)
        requires
            old(self).wf(),
            old(self)@.mode is Some,
            worker < old(self)@.workers.len(),
        ensures
            final(self).wf(),
            final(self)@.mode == old(self)@.mode,
            final(self)@.accepted == old(self)@.accepted,
            final(self)@.faulted == old(self)@.faulted,
            final(self)@.closed_at == old(self)@.closed_at,
            final(self)@.spawned == old(self)@.spawned,
            final(self)@.workers.len() == old(self)@.workers.len(),
            final(self)@ == old(self)@.run_out(worker as int),
            final(self)@.workers[worker as int].state == WorkerState::Stopped,
            forall|v: int|
                0 <= v < old(self)@.workers.len() && v != worker && (#[trigger] old(
                    self,
                )@.workers[v]).state == WorkerState::Stopped ==> final(self)@.workers[v].state
                    == WorkerState::Stopped,
            final(executed)@.len() >= old(executed)@.len(),
            final(executed)@.subrange(0, old(executed)@.len() as int) == old(executed)@,
            final(self)@.finished == old(self)@.finished + final(executed)@.skip(
                old(executed)@.len() as int,
            ),
    {
        let ghost first = self@.finished;
        let ghost base = executed@;
        assert(executed@.skip(base.len() as int) =~= Seq::<TaskId>::empty());
        assert(self@.finished =~= first + executed@.skip(base.len() as int));
        loop
            invariant
                self.wf(),
                self@.mode is Some,
                self@.mode == old(self)@.mode,
                self@.accepted == old(self)@.accepted,
                self@.faulted == old(self)@.faulted,
                self@.closed_at == old(self)@.closed_at,
                self@.spawned == old(self)@.spawned,
                self@.workers.len() == old(self)@.workers.len(),
                worker < self@.workers.len(),
                forall|v: int|
                    0 <= v < old(self)@.workers.len() && v != worker && (#[trigger] old(
                        self,
                    )@.workers[v]).state == WorkerState::Stopped ==> self@.workers[v].state
                        == WorkerState::Stopped,
                executed@.len() >= base.len(),
                executed@.subrange(0, base.len() as int) == base,
                self@.finished == first + executed@.skip(base.len() as int),
                first == old(self)@.finished,
                base == old(executed)@,
                self@.run_out(worker as int) == old(self)@.run_out(worker as int),
            ensures
                self@.workers[worker as int].state == WorkerState::Stopped,
                self@ == old(self)@.run_out(worker as int),
            decreases self@.accepted.len() - self@.finished.len(),
        {
            let ghost begun = self@;
            proof {
                self.lemma_in_order();
                self@.lemma_finished_within_accepted();
            }
            match self.running_on(worker) {
                Some(task) => {
                    let ghost ran = executed@;
                    let _ = self.finish_task(worker, TaskOutcome::Completed);
                    executed.push(task);
                    proof {
                        assert(executed@.subrange(0, base.len() as int) =~= base);
                        assert(executed@.skip(base.len() as int) =~= ran.skip(
                            base.len() as int,
                        ).push(task));
                        assert(self@.finished =~= first + executed@.skip(base.len() as int));
                    }
                },
                None => {},
            }
            let ghost before = self@;
            proof {
                assert(before == begun.settle(worker as int));
                before.lemma_search(worker as int);
                before.lemma_finished_within_accepted();
            }
            match self.next_task(worker) {
                Ok(Decision::Run(task)) => {
                    let ghost ran = executed@;
                    let _ = self.finish_task(worker, TaskOutcome::Completed);
                    executed.push(task);
                    proof {
                        self@.lemma_finished_within_accepted();
                        assert(executed@.subrange(0, base.len() as int) =~= base);
                        assert(executed@.skip(base.len() as int) =~= ran.skip(
                            base.len() as int,
                        ).push(task));
                        assert(self@.finished =~= first + executed@.skip(base.len() as int));
                        assert(self@.run_out(worker as int) == begun.run_out(worker as int));
                    }
                },
                _ => {
                    assert(self@ == begun.run_out(worker as int));
                    break ;
                },
            }
        }
    }

    /// Brings the pool to its end, once shutdown has been initiated: every
    /// worker in turn is run until it stops. A task that a worker is in the
    /// middle of comes to its end; after a graceful shutdown so does every
    /// task that is still queued anywhere, and after an immediate one each
    /// worker throws its queue away. The report names the tasks that were
    /// run on the way, in the order in which they were run.
    pub fn join(&mut self) -> (report: JoinReport)
        requires
            old(self).wf(),
            old(self)@.mode is Some,
        ensures
            final(self).wf(),
            final(self)@.all_stopped(),
            final(self)@.mode == old(self)@.mode,
            final(self)@.accepted == old(self)@.accepted,
            final(self)@.faulted == old(self)@.faulted,
            final(self)@.closed_at == old(self)@.closed_at,
            final(self)@.spawned == old(self)@.spawned,
            final(self)@.workers.len() == old(self)@.workers.len(),
            final(self)@.finished == old(self)@.finished + report.executed@,
            final(self)@ == old(self)@.joined(old(self)@.workers.len() as int),
    {
        let count: usize = self.workers.len();
        let mut executed: Vec<TaskId> = Vec::new();
        let mut worker: usize = 0;
        assert(self@.finished =~= old(self)@.finished + executed@);
        while worker < count
            invariant
                self.wf(),
                self@.mode is Some,
                self@.mode == old(self)@.mode,
                self@.accepted == old(self)@.accepted,
                self@.faulted == old(self)@.faulted,
                self@.closed_at == old(self)@.closed_at,
                self@.spawned == old(self)@.spawned,
                self@.workers.len() == old(self)@.workers.len(),
                count == self@.workers.len(),
                worker <= count,
                forall|v: int|
                    0 <= v < worker ==> (#[trigger] self@.workers[v]).state
                        == WorkerState::Stopped,
                self@.finished == old(self)@.finished + executed@,
                self@ == old(self)@.joined(worker as int),
            decreases count - worker,
        {
            let ghost before = self@;
            let ghost ran = executed@;
            self.run_out(worker, &mut executed);
            proof {
                assert(executed@ =~= ran + executed@.skip(ran.len() as int)) by {
                    assert(executed@.subrange(0, ran.len() as int) == ran);
                }
                assert(self@.finished =~= old(self)@.finished + executed@);
                assert forall|v: int| 0 <= v < worker + 1 implies (#[trigger] self@.workers[v]).state
                    == WorkerState::Stopped by {
                    if v != worker {
                        assert(before.workers[v].state == WorkerState::Stopped);
                    }
                }
            }
            worker += 1;
        }
        JoinReport { executed }
    }
}

} // verus!
