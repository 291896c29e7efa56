use crate::scheduler::injector::{batch_len, laid_out};
use crate::scheduler::ledger::bag;
use crate::scheduler::local_queue::{after_pop, pop_choice, ring_slot, Flavor};
use crate::scheduler::steal::TaskId;
use crate::scheduler::worker::{
    Backoff, Decision, PoolError, ShutdownMode, TaskOutcome, WorkerState,
};
use vstd::multiset::Multiset;
use vstd::prelude::*;

verus! {

/// One worker as the pool's contracts speak of it.
#[verifier::ext_equal]
pub struct WorkerView {
    pub state: WorkerState,
    pub flavor: Flavor,
    /// The worker's own queue, oldest task first.
    pub queue: Seq<TaskId>,
    /// The task that the worker is in the middle of, if any.
    pub running: Option<TaskId>,
    pub backoff: Backoff,
}

/// A pool as its contracts speak of it: the queues, the workers, and the
/// record of what has happened to every task so far.
#[verifier::ext_equal]
pub struct PoolView {
    /// The shared queue, oldest task first.
    pub injector: Seq<TaskId>,
    pub workers: Seq<WorkerView>,
    /// The shutdown signal; `None` while the pool is open.
    pub mode: Option<ShutdownMode>,
    /// Every task that was accepted, in the order of acceptance.
    pub accepted: Seq<TaskId>,
    /// Every task that a worker was told to run, in the order of the telling.
    pub started: Seq<TaskId>,
    /// Every task whose run has ended, in the order of the endings.
    pub finished: Seq<TaskId>,
    /// Every task that was thrown away.
    pub discarded: Seq<TaskId>,
    /// Whether some worker was stopped for a corrupt state.
    pub faulted: bool,
    /// How many runs had ended when shutdown was initiated.
    pub closed_at: nat,
    /// How many tasks were accepted from inside a running task.
    pub spawned: nat,
}

/// One step in the life of a pool: something that is done to it from
/// outside or by one of its workers.
pub enum Op {
    /// A task is handed in from outside.
    Submit(TaskId),
    /// A task is handed in from inside a task that this worker is running.
    Spawn(usize, TaskId),
    /// Shutdown is asked for.
    Shutdown(ShutdownMode),
    /// This worker asks what to do next.
    NextTask(usize),
    /// This worker reports the end of its task.
    FinishTask(usize),
}

/// A task that may be there, as a sequence of none or one.
pub open spec fn maybe(task: Option<TaskId>) -> Seq<TaskId> {
    match task {
        Some(t) => seq![t],
        None => Seq::empty(),
    }
}

impl WorkerView {
    /// A worker that has done nothing yet.
    pub open spec fn fresh(flavor: Flavor) -> WorkerView {
        WorkerView {
            state: WorkerState::Running,
            flavor,
            queue: Seq::empty(),
            running: None,
            backoff: Backoff::fresh(),
        }
    }

    /// Every task that is in this worker's hands: queued with it, or being
    /// run by it.
    pub open spec fn held(self) -> Seq<TaskId> {
        self.queue + maybe(self.running)
    }

    /// The worker after it was stopped for a corrupt state: it holds nothing
    /// any more.
    pub open spec fn aborted(self) -> WorkerView {
        WorkerView { state: WorkerState::Stopped, queue: Seq::empty(), running: None, ..self }
    }
}

/// The tasks in the hands of all these workers together.
pub open spec fn held_by_all(workers: Seq<WorkerView>) -> Multiset<TaskId>
    decreases workers.len(),
{
    if workers.len() == 0 {
        Multiset::empty()
    } else {
        held_by_all(workers.drop_last()).add(bag(workers.last().held()))
    }
}

/// How many of these workers are in the middle of a task.
pub open spec fn busy_count(workers: Seq<WorkerView>) -> nat
    decreases workers.len(),
{
    if workers.len() == 0 {
        0
    } else {
        busy_count(workers.drop_last()) + if workers.last().running is Some {
            1nat
        } else {
            0nat
        }
    }
}

impl PoolView {
    /// A pool of `count` workers of one flavor in which nothing has happened
    /// yet.
    pub open spec fn fresh(count: nat, flavor: Flavor) -> PoolView {
        PoolView::fresh_with(Seq::new(count, |i: int| flavor))
    }

    /// A pool with one worker for each of the given flavors in which nothing
    /// has happened yet.
    pub open spec fn fresh_with(flavors: Seq<Flavor>) -> PoolView {
        PoolView {
            injector: Seq::empty(),
            workers: Seq::new(flavors.len(), |i: int| WorkerView::fresh(flavors[i])),
            mode: None,
            accepted: Seq::empty(),
            started: Seq::empty(),
            finished: Seq::empty(),
            discarded: Seq::empty(),
            faulted: false,
            closed_at: 0,
            spawned: 0,
        }
    }

    /// Whether tasks are still accepted.
    pub open spec fn is_open(self) -> bool {
        self.mode is None
    }

    /// Whether every worker has stopped.
    pub open spec fn all_stopped(self) -> bool {
        forall|w: int|
            0 <= w < self.workers.len() ==> (#[trigger] self.workers[w]).state
                == WorkerState::Stopped
    }

    /// This pool with one worker replaced.
    pub open spec fn with_worker(self, w: int, worker: WorkerView) -> PoolView {
        PoolView { workers: self.workers.update(w, worker), ..self }
    }

    /// The peer that worker `w` tries as its `turn`-th: the workers behind
    /// it in turn, round to those before it.
    pub open spec fn peer_at(self, w: int, turn: int) -> int {
        ring_slot(w + 1, turn, self.workers.len() as int)
    }

    /// The first turn, from `from` on, at which worker `w` finds a peer with
    /// a task in its queue.
    pub open spec fn first_busy_peer(self, w: int, from: int) -> Option<int>
        decreases self.workers.len() - from,
    {
        if from < 0 || from + 1 >= self.workers.len() {
            None
        } else if self.workers[self.peer_at(w, from)].queue.len() > 0 {
            Some(from)
        } else {
            self.first_busy_peer(w, from + 1)
        }
    }

    /// What worker `w` finds when it looks for a task, and the pool once the
    /// task has left its queue: the worker's own queue comes first, then a
    /// batch from the injector, then the front task of the first peer that
    /// has one.
    pub open spec fn search(self, w: int) -> Option<(TaskId, PoolView)> {
        let me = self.workers[w];
        if me.queue.len() > 0 {
            Some(
                (
                    pop_choice(me.flavor, me.queue),
                    self.with_worker(
                        w,
                        WorkerView { queue: after_pop(me.flavor, me.queue), ..me },
                    ),
                ),
            )
        } else if self.injector.len() > 0 {
            let take = batch_len(self.injector.len()) as int;
            Some(
                (
                    self.injector.first(),
                    PoolView {
                        injector: self.injector.skip(take),
                        workers: self.workers.update(
                            w,
                            WorkerView {
                                queue: me.queue + laid_out(
                                    me.flavor,
                                    self.injector.subrange(1, take),
                                ),
                                ..me
                            },
                        ),
                        ..self
                    },
                ),
            )
        } else {
            match self.first_busy_peer(w, 0) {
                Some(turn) => {
                    let victim = self.workers[self.peer_at(w, turn)];
                    Some(
                        (
                            victim.queue.first(),
                            self.with_worker(
                                self.peer_at(w, turn),
                                WorkerView { queue: victim.queue.skip(1), ..victim },
                            ),
                        ),
                    )
                },
                None => None,
            }
        }
    }

    /// The pool after one step. A step of a worker that the pool does not
    /// have changes nothing.
    pub open spec fn step(self, op: Op) -> PoolView {
        match op {
            Op::Submit(task) => self.submit(task),
            Op::Spawn(w, task) => self.spawn(w as int, task),
            Op::Shutdown(mode) => self.shutdown(mode),
            Op::NextTask(w) => if w < self.workers.len() {
                self.next_task(w as int)
            } else {
                self
            },
            Op::FinishTask(w) => if w < self.workers.len() {
                self.finish_task(w as int)
            } else {
                self
            },
        }
    }

    /// The pool after a run of steps, in whatever way the steps of the
    /// workers and of the outside are interleaved in it.
    pub open spec fn replay(self, ops: Seq<Op>) -> PoolView
        decreases ops.len(),
    {
        if ops.len() == 0 {
            self
        } else {
            self.replay(ops.drop_last()).step(ops.last())
        }
    }

    /// The pool as a search by worker `w` leaves it.
    pub open spec fn searched(self, w: int) -> PoolView {
        match self.search(w) {
            Some((task, after)) => after,
            None => self,
        }
    }

    /// The pool after worker `w` was stopped for a corrupt state: what it
    /// held is thrown away.
    pub open spec fn abort(self, w: int) -> PoolView {
        PoolView {
            workers: self.workers.update(w, self.workers[w].aborted()),
            discarded: self.discarded + self.workers[w].held(),
            faulted: true,
            ..self
        }
    }

    /// The pool after a task was handed in from outside.
    pub open spec fn submit(self, task: TaskId) -> PoolView {
        if self.mode is Some {
            self
        } else {
            PoolView {
                injector: self.injector.push(task),
                accepted: self.accepted.push(task),
                ..self
            }
        }
    }

    /// Whether a task handed in by worker `w` goes to that worker's own
    /// queue: it does when the worker is in the middle of a task.
    pub open spec fn spawns_locally(self, w: int) -> bool {
        0 <= w < self.workers.len() && self.workers[w].running is Some
    }

    /// The pool after a task was handed in from inside a task that worker
    /// `w` is running.
    pub open spec fn spawn(self, w: int, task: TaskId) -> PoolView {
        if self.mode is Some {
            self
        } else if self.spawns_locally(w) {
            PoolView {
                workers: self.workers.update(
                    w,
                    WorkerView { queue: self.workers[w].queue.push(task), ..self.workers[w] },
                ),
                accepted: self.accepted.push(task),
                spawned: self.spawned + 1,
                ..self
            }
        } else {
            PoolView {
                injector: self.injector.push(task),
                accepted: self.accepted.push(task),
                spawned: self.spawned + 1,
                ..self
            }
        }
    }

    /// The pool after shutdown was asked for. Only the first request counts.
    /// An immediate shutdown empties the injector on the spot.
    pub open spec fn shutdown(self, mode: ShutdownMode) -> PoolView {
        if self.mode is Some {
            self
        } else if mode == ShutdownMode::Immediate {
            PoolView {
                mode: Some(mode),
                closed_at: self.finished.len(),
                injector: Seq::empty(),
                discarded: self.discarded + self.injector,
                ..self
            }
        } else {
            PoolView { mode: Some(mode), closed_at: self.finished.len(), ..self }
        }
    }

    /// The pool after worker `w` asked what to do next.
    pub open spec fn next_task(self, w: int) -> PoolView {
        let me = self.workers[w];
        if me.state == WorkerState::Stopped {
            self
        } else if me.running is Some {
            self.abort(w)
        } else if self.mode == Some(ShutdownMode::Immediate) {
            PoolView {
                workers: self.workers.update(
                    w,
                    WorkerView { state: WorkerState::Stopped, queue: Seq::empty(), ..me },
                ),
                discarded: self.discarded + me.queue,
                ..self
            }
        } else {
            match self.search(w) {
                Some((task, after)) => PoolView {
                    workers: after.workers.update(
                        w,
                        WorkerView {
                            state: if self.mode is Some {
                                WorkerState::ShuttingDown
                            } else {
                                WorkerState::Running
                            },
                            running: Some(task),
                            backoff: Backoff::fresh(),
                            ..after.workers[w]
                        },
                    ),
                    started: self.started.push(task),
                    ..after
                },
                None => if self.mode is Some {
                    self.with_worker(w, WorkerView { state: WorkerState::Stopped, ..me })
                } else {
                    self.with_worker(
                        w,
                        WorkerView {
                            state: WorkerState::IdleBackoff,
                            backoff: me.backoff.stepped(),
                            ..me
                        },
                    )
                },
            }
        }
    }

    /// What worker `w` is told when it asks what to do next.
    pub open spec fn decision(self, w: int) -> Result<Decision, PoolError> {
        let me = self.workers[w];
        if me.state == WorkerState::Stopped {
            Ok(Decision::Stop)
        } else if me.running is Some {
            Err(PoolError::QueueCorruption(w as usize))
        } else if self.mode == Some(ShutdownMode::Immediate) {
            Ok(Decision::Stop)
        } else {
            match self.search(w) {
                Some((task, after)) => Ok(Decision::Run(task)),
                None => if self.mode is Some {
                    Ok(Decision::Stop)
                } else {
                    Ok(Decision::Pause(me.backoff.pause()))
                },
            }
        }
    }

    /// The pool after worker `w` reported the end of its task.
    pub open spec fn finish_task(self, w: int) -> PoolView {
        let me = self.workers[w];
        match me.running {
            None => self.abort(w),
            Some(task) => PoolView {
                workers: self.workers.update(w, WorkerView { running: None, ..me }),
                finished: self.finished.push(task),
                ..self
            },
        }
    }

    /// What worker `w` is told when it reports the end of its task.
    pub open spec fn finish_result(self, w: int, outcome: TaskOutcome) -> Result<(), PoolError> {
        match self.workers[w].running {
            None => Err(PoolError::QueueCorruption(w as usize)),
            Some(task) => if outcome == TaskOutcome::Panicked {
                Err(PoolError::TaskPanicked(task))
            } else {
                Ok(())
            },
        }
    }
}

} // verus!
