use crate::scheduler::injector::{batch_len, laid_out};
use crate::scheduler::ledger::{
    bag, lemma_bag_concat, lemma_bag_empty, lemma_bag_first, lemma_bag_last, lemma_bag_push,
    lemma_bag_split,
};
use crate::scheduler::local_queue::{after_pop, pop_choice, Flavor};
use crate::scheduler::model::{busy_count, held_by_all, maybe, Op, PoolView, WorkerView};
use crate::scheduler::steal::TaskId;
use crate::scheduler::worker::{
    Decision, Directive, PoolError, ShutdownMode, Step, WorkerCore, WorkerState,
};
use vstd::multiset::Multiset;
use vstd::prelude::*;

verus! {

/// A run laid out for a queue holds the tasks of the run, no more and no
/// fewer.
pub proof fn lemma_laid_out_keeps_tasks(flavor: Flavor, run: Seq<TaskId>)
    ensures
        bag(laid_out(flavor, run)) == bag(run),
        laid_out(flavor, run).len() == run.len(),
        laid_out(flavor, laid_out(flavor, run)) == run,
{
    assert(laid_out(flavor, laid_out(flavor, run)) =~= run);
    match flavor {
        Flavor::Fifo => {
            assert(laid_out(flavor, run) =~= run);
        },
        Flavor::Lifo => {
            assert(laid_out(flavor, run) =~= run.reverse());
            run.lemma_reverse_to_multiset();
        },
    }
}

/// Replacing one worker changes what all workers hold by what that worker
/// holds more or less than before.
pub proof fn lemma_held_update(workers: Seq<WorkerView>, w: int, worker: WorkerView)
    requires
        0 <= w < workers.len(),
    ensures
        held_by_all(workers.update(w, worker)).add(bag(workers[w].held())) == held_by_all(
            workers,
        ).add(bag(worker.held())),
    decreases workers.len(),
{
    broadcast use vstd::multiset::group_multiset_axioms;

    let changed = workers.update(w, worker);
    assert(held_by_all(changed) == held_by_all(changed.drop_last()).add(
        bag(changed.last().held()),
    ));
    assert(held_by_all(workers) == held_by_all(workers.drop_last()).add(
        bag(workers.last().held()),
    ));
    if w == workers.len() - 1 {
        assert(changed.drop_last() =~= workers.drop_last());
        assert(changed.last() == worker);
    } else {
        assert(changed.drop_last() =~= workers.drop_last().update(w, worker));
        assert(workers.drop_last()[w] == workers[w]);
        assert(changed.last() == workers.last());
        lemma_held_update(workers.drop_last(), w, worker);
    }
    let before = held_by_all(workers).add(bag(worker.held()));
    let after = held_by_all(changed).add(bag(workers[w].held()));
    if w < workers.len() - 1 {
        let rest = workers.drop_last();
        let inner_before = held_by_all(rest).add(bag(worker.held()));
        let inner_after = held_by_all(rest.update(w, worker)).add(bag(workers[w].held()));
        assert forall|t: TaskId| after.count(t) == before.count(t) by {
            assert(inner_after.count(t) == inner_before.count(t));
        }
    }
    assert(after =~= before);
}

/// Replacing one worker changes the number of busy workers by one at most,
/// and not at all where the worker is as busy as before.
pub proof fn lemma_busy_update(workers: Seq<WorkerView>, w: int, worker: WorkerView)
    requires
        0 <= w < workers.len(),
    ensures
        busy_count(workers.update(w, worker)) + (if workers[w].running is Some {
            1nat
        } else {
            0nat
        }) == busy_count(workers) + (if worker.running is Some {
            1nat
        } else {
            0nat
        }),
    decreases workers.len(),
{
    let changed = workers.update(w, worker);
    if w == workers.len() - 1 {
        assert(changed.drop_last() =~= workers.drop_last());
    } else {
        assert(changed.drop_last() =~= workers.drop_last().update(w, worker));
        assert(workers.drop_last()[w] == workers[w]);
        lemma_busy_update(workers.drop_last(), w, worker);
    }
}

/// No more workers are busy than there are workers.
pub proof fn lemma_busy_bound(workers: Seq<WorkerView>)
    ensures
        busy_count(workers) <= workers.len(),
    decreases workers.len(),
{
    if workers.len() > 0 {
        lemma_busy_bound(workers.drop_last());
    }
}

/// Workers that hold nothing hold nothing between them.
pub proof fn lemma_nothing_held(workers: Seq<WorkerView>)
    requires
        forall|w: int|
            0 <= w < workers.len() ==> (#[trigger] workers[w]).queue.len() == 0
                && workers[w].running is None,
    ensures
        held_by_all(workers) == Multiset::<TaskId>::empty(),
        busy_count(workers) == 0,
    decreases workers.len(),
{
    broadcast use vstd::multiset::group_multiset_axioms;

    if workers.len() > 0 {
        lemma_nothing_held(workers.drop_last());
        let last = workers.last();
        assert(last == workers[workers.len() - 1]);
        assert(last.held() =~= Seq::<TaskId>::empty());
        lemma_bag_empty();
        assert(held_by_all(workers) =~= Multiset::<TaskId>::empty());
    }
}

impl PoolView {
    /// No task is lost and none is counted twice: every accepted task is in
    /// the injector, in a worker's hands, finished, or thrown away.
    pub open spec fn conserved(self) -> bool {
        bag(self.accepted) == bag(self.injector).add(held_by_all(self.workers)).add(
            bag(self.finished),
        ).add(bag(self.discarded))
    }

    /// A stopped worker holds nothing.
    pub open spec fn stopped_hold_nothing(self) -> bool {
        forall|w: int|
            0 <= w < self.workers.len() && (#[trigger] self.workers[w]).state
                == WorkerState::Stopped ==> self.workers[w].queue.len() == 0
                && self.workers[w].running is None
    }

    /// Unless a worker was stopped for a corrupt state, a worker stops only
    /// after shutdown was asked for and the injector has run empty.
    pub open spec fn stops_are_clean(self) -> bool {
        !self.faulted ==> forall|w: int|
            0 <= w < self.workers.len() && (#[trigger] self.workers[w]).state
                == WorkerState::Stopped ==> self.mode is Some && self.injector.len() == 0
    }

    /// Unless shutdown is immediate or a worker was stopped for a corrupt
    /// state, nothing is thrown away.
    pub open spec fn nothing_thrown_away_lightly(self) -> bool {
        !self.faulted && self.mode != Some(ShutdownMode::Immediate) ==> self.discarded.len() == 0
    }

    /// After an immediate shutdown the injector is empty, and the runs that
    /// have ended and the runs under way together are no more than the runs
    /// that had ended at shutdown and one per worker.
    pub open spec fn immediate_is_bounded(self) -> bool {
        &&& self.mode is Some ==> self.closed_at <= self.finished.len()
        &&& self.mode == Some(ShutdownMode::Immediate) ==> {
            &&& self.injector.len() == 0
            &&& self.finished.len() + busy_count(self.workers) <= self.closed_at
                + self.workers.len()
        }
    }

    /// In a pool of one worker, where no task handed in further tasks, tasks
    /// are started in the order in which they were accepted: the tasks
    /// started, then the worker's own queue in the order in which it will
    /// take them, then the injector, are the accepted tasks in order.
    pub open spec fn single_worker_keeps_order(self) -> bool {
        self.workers.len() == 1 && self.spawned == 0 && !self.faulted && self.mode != Some(
            ShutdownMode::Immediate,
        ) ==> self.started + laid_out(self.workers[0].flavor, self.workers[0].queue)
            + self.injector == self.accepted
    }

    /// What holds of a pool at all times.
    pub open spec fn inv(self) -> bool {
        &&& self.workers.len() >= 1
        &&& self.conserved()
        &&& self.stopped_hold_nothing()
        &&& self.stops_are_clean()
        &&& self.nothing_thrown_away_lightly()
        &&& self.immediate_is_bounded()
        &&& self.single_worker_keeps_order()
    }

    /// A pool in which nothing has happened yet is in order.
    pub proof fn lemma_fresh_inv(flavors: Seq<Flavor>)
        requires
            flavors.len() >= 1,
        ensures
            PoolView::fresh_with(flavors).inv(),
    {
        broadcast use vstd::multiset::group_multiset_axioms;

        let p = PoolView::fresh_with(flavors);
        lemma_bag_empty();
        lemma_nothing_held(p.workers);
        assert(p.conserved()) by {
            assert(bag(p.accepted) =~= bag(p.injector).add(held_by_all(p.workers)).add(
                bag(p.finished),
            ).add(bag(p.discarded)));
        }
        assert(p.started + laid_out(flavors[0], p.workers[0].queue) + p.injector =~= p.accepted);
    }

    /// Handing in a task from outside keeps the pool in order.
    pub proof fn lemma_submit_inv(self, task: TaskId)
        requires
            self.inv(),
        ensures
            self.submit(task).inv(),
    {
        broadcast use vstd::multiset::group_multiset_axioms;

        let q = self.submit(task);
        if self.mode is None {
            lemma_bag_push(self.injector, task);
            lemma_bag_push(self.accepted, task);
            assert(q.conserved()) by {
                assert(bag(q.accepted) =~= bag(q.injector).add(held_by_all(q.workers)).add(
                    bag(q.finished),
                ).add(bag(q.discarded)));
            }
            assert(q.single_worker_keeps_order()) by {
                if q.workers.len() == 1 && q.spawned == 0 && !q.faulted {
                    let mine = laid_out(q.workers[0].flavor, q.workers[0].queue);
                    assert(q.started + mine + q.injector =~= (self.started + mine
                        + self.injector).push(task));
                }
            }
        }
    }

    /// Handing in a task from inside a running task keeps the pool in order.
    pub proof fn lemma_spawn_inv(self, w: int, task: TaskId)
        requires
            self.inv(),
        ensures
            self.spawn(w, task).inv(),
    {
        broadcast use vstd::multiset::group_multiset_axioms;

        let q = self.spawn(w, task);
        if self.mode is None {
            lemma_bag_push(self.accepted, task);
            if self.spawns_locally(w) {
                let me = self.workers[w];
                let grown = WorkerView { queue: me.queue.push(task), ..me };
                lemma_held_update(self.workers, w, grown);
                assert(grown.held() =~= me.held().insert(me.queue.len() as int, task));
                assert(bag(grown.held()) == bag(me.held()).insert(task)) by {
                    broadcast use vstd::seq_lib::group_to_multiset_ensures;

                }
                lemma_busy_update(self.workers, w, grown);
                assert(q.conserved()) by {
                    let now = bag(q.injector).add(held_by_all(q.workers)).add(bag(q.finished)).add(
                        bag(q.discarded),
                    );
                    assert forall|t: TaskId| bag(q.accepted).count(t) == now.count(t) by {
                        assert(held_by_all(q.workers).add(bag(me.held())).count(t) == held_by_all(
                            self.workers,
                        ).add(bag(grown.held())).count(t));
                    }
                    assert(bag(q.accepted) =~= now);
                }
            } else {
                lemma_bag_push(self.injector, task);
                assert(q.conserved()) by {
                    assert(bag(q.accepted) =~= bag(q.injector).add(held_by_all(q.workers)).add(
                        bag(q.finished),
                    ).add(bag(q.discarded)));
                }
            }
        }
    }

    /// Asking for shutdown keeps the pool in order.
    pub proof fn lemma_shutdown_inv(self, mode: ShutdownMode)
        requires
            self.inv(),
        ensures
            self.shutdown(mode).inv(),
    {
        broadcast use vstd::multiset::group_multiset_axioms;

        let q = self.shutdown(mode);
        if self.mode is None {
            lemma_busy_bound(self.workers);
            if mode == ShutdownMode::Immediate {
                lemma_bag_empty();
                lemma_bag_concat(self.discarded, self.injector);
                assert(q.conserved()) by {
                    assert(bag(q.accepted) =~= bag(q.injector).add(held_by_all(q.workers)).add(
                        bag(q.finished),
                    ).add(bag(q.discarded)));
                }
            }
        }
    }

    /// Reporting the end of a task keeps the pool in order.
    pub proof fn lemma_finish_task_inv(self, w: int)
        requires
            self.inv(),
            0 <= w < self.workers.len(),
        ensures
            self.finish_task(w).inv(),
    {
        broadcast use vstd::multiset::group_multiset_axioms;

        let me = self.workers[w];
        match me.running {
            None => {
                self.lemma_abort_inv(w);
            },
            Some(task) => {
                let q = self.finish_task(w);
                let done = WorkerView { running: None, ..me };
                lemma_held_update(self.workers, w, done);
                lemma_busy_update(self.workers, w, done);
                assert(me.held() =~= me.queue.push(task));
                assert(done.held() =~= me.queue);
                lemma_bag_push(me.queue, task);
                lemma_bag_push(self.finished, task);
                assert(q.conserved()) by {
                    let now = bag(q.injector).add(held_by_all(q.workers)).add(bag(q.finished)).add(
                        bag(q.discarded),
                    );
                    assert forall|t: TaskId| bag(q.accepted).count(t) == now.count(t) by {
                        assert(held_by_all(q.workers).add(bag(me.held())).count(t) == held_by_all(
                            self.workers,
                        ).add(bag(done.held())).count(t));
                    }
                    assert(bag(q.accepted) =~= now);
                }
                assert(q.single_worker_keeps_order()) by {
                    if q.workers.len() == 1 {
                        assert(q.workers[0].queue == self.workers[0].queue);
                    }
                }
            },
        }
    }

    /// Stopping a worker for a corrupt state keeps the pool in order.
    pub proof fn lemma_abort_inv(self, w: int)
        requires
            self.inv(),
            0 <= w < self.workers.len(),
        ensures
            self.abort(w).inv(),
    {
        broadcast use vstd::multiset::group_multiset_axioms;

        let q = self.abort(w);
        let me = self.workers[w];
        lemma_held_update(self.workers, w, me.aborted());
        lemma_busy_update(self.workers, w, me.aborted());
        assert(me.aborted().held() =~= Seq::<TaskId>::empty());
        lemma_bag_empty();
        lemma_bag_concat(self.discarded, me.held());
        assert(q.conserved()) by {
            let now = bag(q.injector).add(held_by_all(q.workers)).add(bag(q.finished)).add(
                bag(q.discarded),
            );
            assert forall|t: TaskId| bag(q.accepted).count(t) == now.count(t) by {
                assert(held_by_all(q.workers).add(bag(me.held())).count(t) == held_by_all(
                    self.workers,
                ).add(bag(me.aborted().held())).count(t));
            }
            assert(bag(q.accepted) =~= now);
        }
    }

    /// Where the search for a busy peer ends: at the first peer in turn that
    /// has a task queued, which is never the searching worker itself; or
    /// nowhere, when no peer has one.
    pub proof fn lemma_first_busy_peer(self, w: int, from: int)
        requires
            0 <= w < self.workers.len(),
            0 <= from,
        ensures
            match self.first_busy_peer(w, from) {
                Some(turn) => {
                    &&& from <= turn < self.workers.len() - 1
                    &&& 0 <= self.peer_at(w, turn) < self.workers.len()
                    &&& self.peer_at(w, turn) != w
                    &&& self.workers[self.peer_at(w, turn)].queue.len() > 0
                    &&& forall|k: int|
                        from <= k < turn ==> self.workers[#[trigger] self.peer_at(w, k)].queue.len()
                            == 0
                },
                None => forall|k: int|
                    from <= k < self.workers.len() - 1 ==> self.workers[#[trigger] self.peer_at(
                        w,
                        k,
                    )].queue.len() == 0,
            },
        decreases self.workers.len() - from,
    {
        if from + 1 < self.workers.len() {
            if self.workers[self.peer_at(w, from)].queue.len() == 0 {
                self.lemma_first_busy_peer(w, from + 1);
            }
        }
    }

    /// What a search does to the pool: the task that was found has left the
    /// place where it was queued and nothing else has moved, except that a
    /// batch from the injector brings further tasks into the searching
    /// worker's queue. No worker changes its state or the task it runs.
    pub proof fn lemma_search(self, w: int)
        requires
            0 <= w < self.workers.len(),
        ensures
            match self.search(w) {
                Some((task, after)) => {
                    &&& bag(after.injector).add(held_by_all(after.workers)).insert(task) == bag(
                        self.injector,
                    ).add(held_by_all(self.workers))
                    &&& after.workers.len() == self.workers.len()
                    &&& after.injector.len() <= self.injector.len()
                    &&& busy_count(after.workers) == busy_count(self.workers)
                    &&& forall|v: int|
                        0 <= v < self.workers.len() ==> {
                            &&& (#[trigger] after.workers[v]).state == self.workers[v].state
                            &&& after.workers[v].running == self.workers[v].running
                            &&& after.workers[v].flavor == self.workers[v].flavor
                            &&& after.workers[v].backoff == self.workers[v].backoff
                            &&& v != w ==> after.workers[v].queue.len()
                                <= self.workers[v].queue.len()
                        }
                    &&& after.mode == self.mode
                    &&& after.accepted == self.accepted
                    &&& after.started == self.started
                    &&& after.finished == self.finished
                    &&& after.discarded == self.discarded
                    &&& after.faulted == self.faulted
                    &&& after.closed_at == self.closed_at
                    &&& after.spawned == self.spawned
                },
                None => self.workers[w].queue.len() == 0 && self.injector.len() == 0,
            },
    {
        broadcast use vstd::multiset::group_multiset_axioms;

        let me = self.workers[w];
        if me.queue.len() > 0 {
            let task = pop_choice(me.flavor, me.queue);
            let popped = WorkerView { queue: after_pop(me.flavor, me.queue), ..me };
            let after = self.with_worker(w, popped);
            lemma_held_update(self.workers, w, popped);
            lemma_busy_update(self.workers, w, popped);
            match me.flavor {
                Flavor::Fifo => lemma_bag_first(me.queue),
                Flavor::Lifo => lemma_bag_last(me.queue),
            }
            lemma_bag_concat(me.queue, maybe(me.running));
            lemma_bag_concat(popped.queue, maybe(me.running));
            let before_all = bag(self.injector).add(held_by_all(self.workers));
            let after_all = bag(after.injector).add(held_by_all(after.workers)).insert(task);
            assert forall|t: TaskId| after_all.count(t) == before_all.count(t) by {
                assert(held_by_all(after.workers).add(bag(me.held())).count(t) == held_by_all(
                    self.workers,
                ).add(bag(popped.held())).count(t));
            }
            assert(after_all =~= before_all);
        } else if self.injector.len() > 0 {
            let take = batch_len(self.injector.len()) as int;
            let run = self.injector.subrange(1, take);
            let task = self.injector.first();
            let fed = WorkerView { queue: me.queue + laid_out(me.flavor, run), ..me };
            let after = PoolView {
                injector: self.injector.skip(take),
                workers: self.workers.update(w, fed),
                ..self
            };
            lemma_held_update(self.workers, w, fed);
            lemma_busy_update(self.workers, w, fed);
            lemma_laid_out_keeps_tasks(me.flavor, run);
            lemma_bag_concat(me.queue, laid_out(me.flavor, run));
            lemma_bag_concat(me.queue, maybe(me.running));
            lemma_bag_concat(fed.queue, maybe(me.running));
            lemma_bag_split(self.injector, take);
            lemma_bag_first(self.injector.subrange(0, take));
            assert(self.injector.subrange(0, take).skip(1) =~= run);
            assert(self.injector.subrange(0, take).first() == task);
            let before_all = bag(self.injector).add(held_by_all(self.workers));
            let after_all = bag(after.injector).add(held_by_all(after.workers)).insert(task);
            assert forall|t: TaskId| after_all.count(t) == before_all.count(t) by {
                assert(held_by_all(after.workers).add(bag(me.held())).count(t) == held_by_all(
                    self.workers,
                ).add(bag(fed.held())).count(t));
            }
            assert(after_all =~= before_all);
        } else {
            self.lemma_first_busy_peer(w, 0);
            match self.first_busy_peer(w, 0) {
                Some(turn) => {
                    let p = self.peer_at(w, turn);
                    let victim = self.workers[p];
                    let task = victim.queue.first();
                    let robbed = WorkerView { queue: victim.queue.skip(1), ..victim };
                    let after = self.with_worker(p, robbed);
                    lemma_held_update(self.workers, p, robbed);
                    lemma_busy_update(self.workers, p, robbed);
                    lemma_bag_first(victim.queue);
                    lemma_bag_concat(victim.queue, maybe(victim.running));
                    lemma_bag_concat(robbed.queue, maybe(victim.running));
                    let before_all = bag(self.injector).add(held_by_all(self.workers));
                    let after_all = bag(after.injector).add(held_by_all(after.workers)).insert(
                        task,
                    );
                    assert forall|t: TaskId| after_all.count(t) == before_all.count(t) by {
                        assert(held_by_all(after.workers).add(bag(victim.held())).count(t)
                            == held_by_all(self.workers).add(bag(robbed.held())).count(t));
                    }
                    assert(after_all =~= before_all);
                },
                None => {},
            }
        }
    }

    /// A worker's asking what to do next keeps the pool in order.
    pub proof fn lemma_next_task_inv(self, w: int)
        requires
            self.inv(),
            0 <= w < self.workers.len(),
        ensures
            self.next_task(w).inv(),
    {
        broadcast use vstd::multiset::group_multiset_axioms;

        let me = self.workers[w];
        let q = self.next_task(w);
        if me.state == WorkerState::Stopped {
        } else if me.running is Some {
            self.lemma_abort_inv(w);
        } else if self.mode == Some(ShutdownMode::Immediate) {
            let halted = WorkerView { state: WorkerState::Stopped, queue: Seq::empty(), ..me };
            lemma_held_update(self.workers, w, halted);
            lemma_busy_update(self.workers, w, halted);
            lemma_bag_empty();
            lemma_bag_concat(self.discarded, me.queue);
            assert(halted.held() =~= Seq::<TaskId>::empty());
            assert(me.held() =~= me.queue);
            assert(q.conserved()) by {
                let now = bag(q.injector).add(held_by_all(q.workers)).add(bag(q.finished)).add(
                    bag(q.discarded),
                );
                assert forall|t: TaskId| bag(q.accepted).count(t) == now.count(t) by {
                    assert(held_by_all(q.workers).add(bag(me.held())).count(t) == held_by_all(
                        self.workers,
                    ).add(bag(halted.held())).count(t));
                }
                assert(bag(q.accepted) =~= now);
            }
        } else {
            self.lemma_search(w);
            match self.search(w) {
                Some((task, after)) => {
                    let mine = after.workers[w];
                    let busy = WorkerView {
                        state: if self.mode is Some {
                            WorkerState::ShuttingDown
                        } else {
                            WorkerState::Running
                        },
                        running: Some(task),
                        backoff: crate::scheduler::worker::Backoff::fresh(),
                        ..mine
                    };
                    lemma_held_update(after.workers, w, busy);
                    lemma_busy_update(after.workers, w, busy);
                    assert(mine.held() =~= mine.queue);
                    assert(busy.held() =~= mine.queue.push(task));
                    lemma_bag_push(mine.queue, task);
                    assert(q.conserved()) by {
                        let now = bag(q.injector).add(held_by_all(q.workers)).add(
                            bag(q.finished),
                        ).add(bag(q.discarded));
                        let mid = bag(after.injector).add(held_by_all(after.workers)).insert(task);
                        let was = bag(self.injector).add(held_by_all(self.workers));
                        assert forall|t: TaskId| bag(q.accepted).count(t) == now.count(t) by {
                            assert(held_by_all(q.workers).add(bag(mine.held())).count(t)
                                == held_by_all(after.workers).add(bag(busy.held())).count(t));
                            assert(mid.count(t) == was.count(t));
                        }
                        assert(bag(q.accepted) =~= now);
                    }
                    assert(q.stopped_hold_nothing()) by {
                        assert forall|v: int|
                            0 <= v < q.workers.len() && (#[trigger] q.workers[v]).state
                                == WorkerState::Stopped implies q.workers[v].queue.len() == 0
                            && q.workers[v].running is None by {
                            assert(v != w);
                            assert(after.workers[v].state == WorkerState::Stopped);
                            assert(self.workers[v].state == WorkerState::Stopped);
                        }
                    }
                    assert(q.stops_are_clean()) by {
                        if !q.faulted {
                            assert forall|v: int|
                                0 <= v < q.workers.len() && (#[trigger] q.workers[v]).state
                                    == WorkerState::Stopped implies q.mode is Some
                                && q.injector.len() == 0 by {
                                assert(v != w);
                                assert(after.workers[v].state == WorkerState::Stopped);
                                assert(self.workers[v].state == WorkerState::Stopped);
                            }
                        }
                    }
                    assert(q.single_worker_keeps_order()) by {
                        if q.workers.len() == 1 && q.spawned == 0 && !q.faulted {
                            self.lemma_single_worker_search(task, after);
                        }
                    }
                },
                None => {
                    if self.mode is Some {
                        let halted = WorkerView { state: WorkerState::Stopped, ..me };
                        lemma_held_update(self.workers, w, halted);
                        lemma_busy_update(self.workers, w, halted);
                        assert(q.conserved()) by {
                            let now = bag(q.injector).add(held_by_all(q.workers)).add(
                                bag(q.finished),
                            ).add(bag(q.discarded));
                            assert forall|t: TaskId| bag(q.accepted).count(t) == now.count(t) by {
                                assert(held_by_all(q.workers).add(bag(me.held())).count(t)
                                    == held_by_all(self.workers).add(bag(halted.held())).count(t));
                            }
                            assert(bag(q.accepted) =~= now);
                        }
                    } else {
                        let waiting = WorkerView {
                            state: WorkerState::IdleBackoff,
                            backoff: me.backoff.stepped(),
                            ..me
                        };
                        lemma_held_update(self.workers, w, waiting);
                        lemma_busy_update(self.workers, w, waiting);
                        assert(q.conserved()) by {
                            let now = bag(q.injector).add(held_by_all(q.workers)).add(
                                bag(q.finished),
                            ).add(bag(q.discarded));
                            assert forall|t: TaskId| bag(q.accepted).count(t) == now.count(t) by {
                                assert(held_by_all(q.workers).add(bag(me.held())).count(t)
                                    == held_by_all(self.workers).add(bag(waiting.held())).count(
                                    t,
                                ));
                            }
                            assert(bag(q.accepted) =~= now);
                        }
                    }
                },
            }
        }
    }

    /// In a pool of one worker a search takes the task that is next in the
    /// order of acceptance.
    proof fn lemma_single_worker_search(self, task: TaskId, after: PoolView)
        requires
            self.workers.len() == 1,
            self.search(0) == Some((task, after)),
            self.started + laid_out(self.workers[0].flavor, self.workers[0].queue) + self.injector
                == self.accepted,
        ensures
            self.started.push(task) + laid_out(after.workers[0].flavor, after.workers[0].queue)
                + after.injector == self.accepted,
    {
        let me = self.workers[0];
        if me.queue.len() > 0 {
            let rest = after_pop(me.flavor, me.queue);
            assert(after.workers[0].queue == rest);
            assert(laid_out(me.flavor, me.queue) =~= seq![task] + laid_out(me.flavor, rest));
            assert(self.started.push(task) + laid_out(me.flavor, rest) + after.injector =~= self.started
                + laid_out(me.flavor, me.queue) + self.injector);
        } else if self.injector.len() > 0 {
            let take = batch_len(self.injector.len()) as int;
            let run = self.injector.subrange(1, take);
            lemma_laid_out_keeps_tasks(me.flavor, run);
            assert(after.workers[0].queue =~= laid_out(me.flavor, run));
            assert(laid_out(me.flavor, me.queue) =~= Seq::<TaskId>::empty());
            assert(self.started.push(task) + run + self.injector.skip(take) =~= self.started
                + laid_out(me.flavor, me.queue) + self.injector);
        } else {
            self.lemma_first_busy_peer(0, 0);
        }
    }

    /// Every accepted task is run exactly once: after a graceful shutdown,
    /// once every worker has stopped, the runs that have ended are the
    /// accepted tasks, each as often as it was accepted. Where no task was
    /// accepted twice, none was run twice.
    pub proof fn lemma_graceful_shutdown_runs_every_task_once(self)
        requires
            self.inv(),
            self.all_stopped(),
            self.mode == Some(ShutdownMode::Graceful),
            !self.faulted,
        ensures
            bag(self.finished) == bag(self.accepted),
            self.finished.len() == self.accepted.len(),
            self.discarded.len() == 0,
            self.accepted.no_duplicates() ==> self.finished.no_duplicates(),
    {
        broadcast use vstd::multiset::group_multiset_axioms;
        broadcast use vstd::seq_lib::group_to_multiset_ensures;

        self.lemma_all_stopped_accounts();
        lemma_bag_empty();
        assert(self.discarded =~= Seq::<TaskId>::empty());
        assert(bag(self.finished) =~= bag(self.accepted));
        assert(self.finished.len() == bag(self.finished).len());
        assert(self.accepted.len() == bag(self.accepted).len());
        if self.accepted.no_duplicates() {
            self.accepted.lemma_multiset_has_no_duplicates();
            self.finished.lemma_multiset_has_no_duplicates_conv();
        }
    }

    /// Once every worker has stopped, and none for a corrupt state, nothing
    /// is queued any more: every accepted task was either run to its end or
    /// thrown away, and none both.
    pub proof fn lemma_all_stopped_accounts(self)
        requires
            self.inv(),
            self.all_stopped(),
            !self.faulted,
        ensures
            self.injector.len() == 0,
            held_by_all(self.workers) == Multiset::<TaskId>::empty(),
            bag(self.accepted) == bag(self.finished).add(bag(self.discarded)),
    {
        broadcast use vstd::multiset::group_multiset_axioms;

        assert(self.workers[0].state == WorkerState::Stopped);
        assert forall|w: int| 0 <= w < self.workers.len() implies (#[trigger] self.workers[w]).queue.len()
            == 0 && self.workers[w].running is None by {
            assert(self.workers[w].state == WorkerState::Stopped);
        }
        lemma_nothing_held(self.workers);
        lemma_bag_empty();
        assert(self.injector =~= Seq::<TaskId>::empty());
        assert(bag(self.accepted) =~= bag(self.finished).add(bag(self.discarded)));
    }

    /// A pool tells a worker what the worker's own deciding part would tell
    /// it, had it looked for a task itself and found what the pool finds for
    /// it; and the worker stands afterwards where its deciding part would
    /// stand.
    pub proof fn lemma_pool_decides_as_a_worker_would(self, w: int)
        requires
            0 <= w < self.workers.len(),
            self.workers[w].running is None,
        ensures
            ({
                let me = self.workers[w];
                let core = WorkerCore { state: me.state, backoff: me.backoff };
                let found = self.search(w) is Some;
                let now = self.next_task(w).workers[w];
                match core.directive(self.mode) {
                    Directive::Exit => self.decision(w) == Ok::<Decision, PoolError>(
                        Decision::Stop,
                    ) && now == me,
                    Directive::Discard => self.decision(w) == Ok::<Decision, PoolError>(
                        Decision::Stop,
                    ) && now.state == WorkerState::Stopped && now.queue.len() == 0,
                    Directive::Search => {
                        &&& self.decision(w) == Ok::<Decision, PoolError>(
                            match core.step(self.mode, found, false) {
                                Step::Run => Decision::Run(self.search(w).unwrap().0),
                                Step::Pause(pause) => Decision::Pause(pause),
                                Step::Stop => Decision::Stop,
                            },
                        )
                        &&& now.state == core.after_step(self.mode, found, false).state
                        &&& now.backoff == core.after_step(self.mode, found, false).backoff
                    },
                }
            }),
    {
        self.lemma_search(w);
    }

    /// The pool once worker `w` has brought the task to its end that it is in
    /// the middle of, if any.
    pub open spec fn settle(self, w: int) -> PoolView {
        if self.workers[w].running is Some {
            self.finish_task(w)
        } else {
            self
        }
    }

    /// The pool once worker `w` has been run until it is told something
    /// other than to run a task: the task that it is in the middle of comes
    /// to its end, and so does, one after the other, every task that it is
    /// told to run.
    pub open spec fn run_out(self, w: int) -> PoolView
        decreases self.accepted.len() - self.finished.len(),
        when self.inv() && 0 <= w < self.workers.len()
        via Self::run_out_ends
    {
        let ready = self.settle(w);
        match ready.decision(w) {
            Ok(Decision::Run(task)) => ready.next_task(w).finish_task(w).run_out(w),
            _ => ready.next_task(w),
        }
    }

    #[via_fn]
    proof fn run_out_ends(self, w: int) {
        let ready = self.settle(w);
        if self.workers[w].running is Some {
            self.lemma_finish_task_inv(w);
        }
        if ready.decision(w) is Ok && ready.decision(w)->Ok_0 is Run {
            ready.lemma_search(w);
            ready.lemma_next_task_inv(w);
            let busy = ready.next_task(w);
            busy.lemma_finish_task_inv(w);
            busy.finish_task(w).lemma_finished_within_accepted();
        }
    }

    /// The pool once the first `upto` workers have been run out, one after
    /// the other.
    pub open spec fn joined(self, upto: int) -> PoolView
        decreases upto,
    {
        if upto <= 0 {
            self
        } else {
            self.joined(upto - 1).run_out(upto - 1)
        }
    }

    /// Running a worker out stops it, leaves the workers stopped that were
    /// stopped, keeps the pool in order, and takes no task in and throws
    /// none away lightly.
    pub proof fn lemma_run_out(self, w: int)
        requires
            self.inv(),
            self.mode is Some,
            0 <= w < self.workers.len(),
        ensures
            self.run_out(w).inv(),
            self.run_out(w).workers.len() == self.workers.len(),
            self.run_out(w).workers[w].state == WorkerState::Stopped,
            forall|v: int|
                0 <= v < self.workers.len() && v != w && (#[trigger] self.workers[v]).state
                    == WorkerState::Stopped ==> self.run_out(w).workers[v].state
                    == WorkerState::Stopped,
            self.run_out(w).mode == self.mode,
            self.run_out(w).accepted == self.accepted,
            self.run_out(w).faulted == self.faulted,
            self.run_out(w).closed_at == self.closed_at,
            self.run_out(w).spawned == self.spawned,
        decreases self.accepted.len() - self.finished.len(),
    {
        let ready = self.settle(w);
        if self.workers[w].running is Some {
            self.lemma_finish_task_inv(w);
        }
        ready.lemma_search(w);
        ready.lemma_next_task_inv(w);
        if ready.decision(w) is Ok && ready.decision(w)->Ok_0 is Run {
            let busy = ready.next_task(w);
            busy.lemma_finish_task_inv(w);
            let next = busy.finish_task(w);
            next.lemma_finished_within_accepted();
            next.lemma_run_out(w);
            assert forall|v: int|
                0 <= v < self.workers.len() && v != w && (#[trigger] self.workers[v]).state
                    == WorkerState::Stopped implies self.run_out(w).workers[v].state
                == WorkerState::Stopped by {
                assert(ready.workers[v].state == WorkerState::Stopped);
                assert(ready.searched(w).workers[v].state == WorkerState::Stopped);
                assert(busy.workers[v].state == WorkerState::Stopped);
                assert(next.workers[v].state == WorkerState::Stopped);
            }
        }
    }

    /// Running the first `upto` workers out stops them, keeps the pool in
    /// order, and takes no task in.
    pub proof fn lemma_joined(self, upto: int)
        requires
            self.inv(),
            self.mode is Some,
            0 <= upto <= self.workers.len(),
        ensures
            self.joined(upto).inv(),
            self.joined(upto).workers.len() == self.workers.len(),
            forall|v: int|
                0 <= v < upto ==> (#[trigger] self.joined(upto).workers[v]).state
                    == WorkerState::Stopped,
            self.joined(upto).mode == self.mode,
            self.joined(upto).accepted == self.accepted,
            self.joined(upto).faulted == self.faulted,
            self.joined(upto).closed_at == self.closed_at,
            self.joined(upto).spawned == self.spawned,
        decreases upto,
    {
        if upto > 0 {
            self.lemma_joined(upto - 1);
            let before = self.joined(upto - 1);
            before.lemma_run_out(upto - 1);
            assert forall|v: int| 0 <= v < upto implies (#[trigger] self.joined(
                upto,
            ).workers[v]).state == WorkerState::Stopped by {
                if v < upto - 1 {
                    assert(before.workers[v].state == WorkerState::Stopped);
                }
            }
        }
    }

    /// However the steps of the workers and of the outside are interleaved,
    /// the pool stays in order.
    pub proof fn lemma_replay_inv(self, ops: Seq<Op>)
        requires
            self.inv(),
        ensures
            self.replay(ops).inv(),
        decreases ops.len(),
    {
        if ops.len() > 0 {
            self.lemma_replay_inv(ops.drop_last());
            let before = self.replay(ops.drop_last());
            match ops.last() {
                Op::Submit(task) => before.lemma_submit_inv(task),
                Op::Spawn(w, task) => before.lemma_spawn_inv(w as int, task),
                Op::Shutdown(mode) => before.lemma_shutdown_inv(mode),
                Op::NextTask(w) => {
                    if w < before.workers.len() {
                        before.lemma_next_task_inv(w as int);
                    }
                },
                Op::FinishTask(w) => {
                    if w < before.workers.len() {
                        before.lemma_finish_task_inv(w as int);
                    }
                },
            }
        }
    }

    /// Every task is run exactly once. Take a new pool and any run of steps,
    /// interleaved in any way, that leaves it open with no worker stopped
    /// for a corrupt state. Once shutdown is asked for, gracefully, and
    /// every worker is run out, the runs that have ended over the whole
    /// life of the pool are the tasks that were accepted, each as often as
    /// it was accepted: none was lost, and none was run twice.
    pub proof fn lemma_every_task_runs_exactly_once(flavors: Seq<Flavor>, ops: Seq<Op>)
        requires
            flavors.len() >= 1,
            PoolView::fresh_with(flavors).replay(ops).mode is None,
            !PoolView::fresh_with(flavors).replay(ops).faulted,
        ensures
            ({
                let open = PoolView::fresh_with(flavors).replay(ops);
                let end = open.shutdown(ShutdownMode::Graceful).joined(flavors.len() as int);
                &&& end.all_stopped()
                &&& bag(end.finished) == bag(open.accepted)
                &&& end.finished.len() == open.accepted.len()
                &&& open.accepted.no_duplicates() ==> end.finished.no_duplicates()
            }),
    {
        let fresh = PoolView::fresh_with(flavors);
        PoolView::lemma_fresh_inv(flavors);
        fresh.lemma_replay_inv(ops);
        let open = fresh.replay(ops);
        fresh.lemma_replay_keeps_workers(ops);
        open.lemma_graceful_shutdown_drains();
    }

    /// No step adds or removes a worker.
    pub proof fn lemma_replay_keeps_workers(self, ops: Seq<Op>)
        ensures
            self.replay(ops).workers.len() == self.workers.len(),
        decreases ops.len(),
    {
        if ops.len() > 0 {
            self.lemma_replay_keeps_workers(ops.drop_last());
            let before = self.replay(ops.drop_last());
            match ops.last() {
                Op::NextTask(w) => {
                    if w < before.workers.len() {
                        before.lemma_search(w as int);
                    }
                },
                _ => {},
            }
        }
    }

    /// A graceful shutdown drains the pool: whatever has happened in an open
    /// pool in which no worker was stopped for a corrupt state, once
    /// shutdown is asked for and every worker is run out, every task that
    /// was accepted has been run to its end, each exactly as often as it was
    /// accepted, and none was thrown away.
    pub proof fn lemma_graceful_shutdown_drains(self)
        requires
            self.inv(),
            self.mode is None,
            !self.faulted,
        ensures
            ({
                let end = self.shutdown(ShutdownMode::Graceful).joined(self.workers.len() as int);
                &&& end.all_stopped()
                &&& bag(end.finished) == bag(self.accepted)
                &&& end.finished.len() == self.accepted.len()
                &&& end.discarded.len() == 0
                &&& self.accepted.no_duplicates() ==> end.finished.no_duplicates()
            }),
    {
        let closed = self.shutdown(ShutdownMode::Graceful);
        self.lemma_shutdown_inv(ShutdownMode::Graceful);
        closed.lemma_joined(self.workers.len() as int);
        closed.joined(self.workers.len() as int).lemma_graceful_shutdown_runs_every_task_once();
    }

    /// An immediate shutdown is bounded: whatever has happened in an open
    /// pool, once shutdown is asked for and every worker is run out, no more
    /// runs have ended than had ended when shutdown was asked for, and one
    /// for each worker; and every task that was accepted was either run to
    /// its end or thrown away.
    pub proof fn lemma_immediate_shutdown_ends_soon(self)
        requires
            self.inv(),
            self.mode is None,
            !self.faulted,
        ensures
            ({
                let end = self.shutdown(ShutdownMode::Immediate).joined(
                    self.workers.len() as int,
                );
                &&& end.all_stopped()
                &&& end.finished.len() <= self.finished.len() + self.workers.len()
                &&& bag(self.accepted) == bag(end.finished).add(bag(end.discarded))
            }),
    {
        let closed = self.shutdown(ShutdownMode::Immediate);
        self.lemma_shutdown_inv(ShutdownMode::Immediate);
        closed.lemma_joined(self.workers.len() as int);
        let end = closed.joined(self.workers.len() as int);
        end.lemma_immediate_shutdown_is_bounded();
        end.lemma_all_stopped_accounts();
    }

    /// No more runs have ended than tasks were accepted.
    pub proof fn lemma_finished_within_accepted(self)
        requires
            self.inv(),
        ensures
            self.finished.len() <= self.accepted.len(),
    {
        broadcast use vstd::multiset::group_multiset_axioms;
        broadcast use vstd::seq_lib::group_to_multiset_ensures;

        assert(self.finished.len() == bag(self.finished).len());
        assert(self.accepted.len() == bag(self.accepted).len());
    }

    /// After an immediate shutdown no more runs end than had ended when
    /// shutdown was asked for, and one for each worker.
    pub proof fn lemma_immediate_shutdown_is_bounded(self)
        requires
            self.inv(),
            self.mode == Some(ShutdownMode::Immediate),
        ensures
            self.finished.len() <= self.closed_at + self.workers.len(),
    {
    }

    /// In a pool of one worker, where no task handed in further tasks, the
    /// tasks are started in the order in which they were accepted; and after
    /// a graceful shutdown, once the worker has stopped, all of them were.
    pub proof fn lemma_single_worker_starts_in_order(self)
        requires
            self.inv(),
            self.workers.len() == 1,
            self.spawned == 0,
            !self.faulted,
            self.mode != Some(ShutdownMode::Immediate),
        ensures
            self.started.len() <= self.accepted.len(),
            forall|i: int| 0 <= i < self.started.len() ==> self.started[i] == self.accepted[i],
            self.all_stopped() ==> self.started == self.accepted,
    {
        let mine = laid_out(self.workers[0].flavor, self.workers[0].queue);
        assert(self.accepted.len() == self.started.len() + mine.len() + self.injector.len());
        assert forall|i: int| 0 <= i < self.started.len() implies self.started[i]
            == self.accepted[i] by {
            assert((self.started + mine + self.injector)[i] == self.started[i]);
        }
        if self.all_stopped() {
            assert(self.workers[0].state == WorkerState::Stopped);
            assert(self.started =~= self.started + mine + self.injector);
        }
    }
}

} // verus!
