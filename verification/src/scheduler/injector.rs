use crate::scheduler::local_queue::{next_tag, Flavor, LocalQueue};
use crate::scheduler::steal::{Steal, TaskId};
use std::collections::VecDeque;
use vstd::prelude::*;

verus! {

/// The most tasks that leave the injector in one batch.
pub const BATCH_LIMIT: usize = 32;

/// How many tasks a batch takes from an injector that holds `queued` of them:
/// half, rounded up, but never more than the limit.
pub open spec fn batch_len(queued: nat) -> nat {
    if (queued + 1) / 2 <= BATCH_LIMIT {
        (queued + 1) / 2
    } else {
        BATCH_LIMIT as nat
    }
}

/// A run of tasks laid out at the back of a queue of the given flavor so that
/// its owner takes them out in the order of the run.
pub open spec fn laid_out(flavor: Flavor, run: Seq<TaskId>) -> Seq<TaskId> {
    Seq::new(
        run.len(),
        |i: int|
            match flavor {
                Flavor::Fifo => run[i],
                Flavor::Lifo => run[run.len() - 1 - i],
            },
    )
}

/// The queue that all workers share: tasks come in at the tail and leave at
/// the head, in the order in which they came in.
///
/// The view is the sequence of queued tasks, oldest first. Beside it the
/// injector keeps a record, for proofs only, of every task that came in and
/// of every task that left, each in the order in which it happened.
pub struct GlobalInjector {
    tasks: VecDeque<TaskId>,
    head: u64,
    pushed: Ghost<Seq<TaskId>>,
    left: Ghost<Seq<TaskId>>,
}

impl View for GlobalInjector {
    type V = Seq<TaskId>;

    closed spec fn view(&self) -> Seq<TaskId> {
        self.tasks@
    }
}

impl GlobalInjector {
    /// The head cursor: it moves each time tasks leave at the head.
    pub closed spec fn head_cursor(&self) -> u64 {
        self.head
    }

    /// Every task that ever came in, in the order in which they came.
    pub closed spec fn pushed(&self) -> Seq<TaskId> {
        self.pushed@
    }

    /// Every task that ever left at the head, in the order in which they left.
    pub closed spec fn left(&self) -> Seq<TaskId> {
        self.left@
    }

    /// First in, first out: the tasks that left, followed by the tasks still
    /// queued, are the tasks that came in, in the order in which they came.
    pub closed spec fn wf(&self) -> bool {
        self.left@ + self.tasks@ == self.pushed@
    }

    /// Tasks leave in the order in which they came in: the tasks that have
    /// left are the first that came, and the queued ones follow in order.
    pub proof fn lemma_first_in_first_out(&self)
        requires
            self.wf(),
        ensures
            self.left() + self@ == self.pushed(),
            self.left().len() <= self.pushed().len(),
            forall|i: int| 0 <= i < self.left().len() ==> self.left()[i] == self.pushed()[i],
            forall|i: int|
                0 <= i < self@.len() ==> self@[i] == self.pushed()[self.left().len() + i],
    {
        assert(self.pushed@.len() == self.left@.len() + self.tasks@.len());
        assert forall|i: int| 0 <= i < self.left().len() implies self.left()[i]
            == self.pushed()[i] by {
            assert((self.left@ + self.tasks@)[i] == self.left@[i]);
        }
        assert forall|i: int| 0 <= i < self@.len() implies self@[i] == self.pushed()[self.left().len()
            + i] by {
            assert((self.left@ + self.tasks@)[self.left@.len() + i] == self.tasks@[i]);
        }
    }

    /// An empty injector.
    pub fn new() -> (q: GlobalInjector)
        ensures
            q.wf(),
            q@ == Seq::<TaskId>::empty(),
            q.head_cursor() == 0,
            q.pushed() == Seq::<TaskId>::empty(),
            q.left() == Seq::<TaskId>::empty(),
    {
        let q = GlobalInjector {
            tasks: VecDeque::new(),
            head: 0,
            pushed: Ghost(Seq::empty()),
            left: Ghost(Seq::empty()),
        };
        assert(q.left@ + q.tasks@ =~= q.pushed@);
        q
    }

    /// The number of queued tasks.
    pub fn len(&self) -> (r: usize)
        ensures
            r == self@.len(),
    {
        self.tasks.len()
    }

    /// Whether no task is queued.
    pub fn is_empty(&self) -> (r: bool)
        ensures
            r <==> self@.len() == 0,
    {
        self.tasks.len() == 0
    }

    /// Queues a task at the tail. This always succeeds.
    pub fn push(&mut self, task: TaskId)
        requires
            old(self).wf(),
        ensures
            final(self).wf(),
            final(self)@ == old(self)@.push(task),
            final(self).pushed() == old(self).pushed().push(task),
            final(self).left() == old(self).left(),
            final(self).head_cursor() == old(self).head_cursor(),
    {
        self.tasks.push_back(task);
        self.pushed = Ghost(self.pushed@.push(task));
        assert(self.left@ + self.tasks@ =~= self.pushed@);
    }

    /// Takes the task at the head in one step. Nobody can get in the way of a
    /// single step, so the outcome is never `Retry`.
    pub fn steal(&mut self) -> (r: Steal<TaskId>)
        requires
            old(self).wf(),
        ensures
            final(self).wf(),
            final(self).pushed() == old(self).pushed(),
            old(self)@.len() == 0 ==> {
                &&& r is Empty
                &&& final(self)@ == old(self)@
                &&& final(self).left() == old(self).left()
                &&& final(self).head_cursor() == old(self).head_cursor()
            },
            old(self)@.len() > 0 ==> {
                &&& r == Steal::Success(old(self)@.first())
                &&& final(self)@ == old(self)@.skip(1)
                &&& final(self).left() == old(self).left().push(old(self)@.first())
                &&& final(self).head_cursor() == next_tag(old(self).head_cursor())
            },
    {
        match self.tasks.pop_front() {
            None => Steal::Empty,
            Some(task) => {
                self.head = if self.head == u64::MAX {
                    0
                } else {
                    self.head + 1
                };
                self.left = Ghost(self.left@.push(task));
                assert(self@ =~= old(self)@.skip(1));
                assert(self.left@ + self.tasks@ =~= self.pushed@);
                Steal::Success(task)
            },
        }
    }

    /// Reads the head cursor, for a later `steal_at`.
    pub fn cursor(&self) -> (r: u64)
        ensures
            r == self.head_cursor(),
    {
        self.head
    }

    /// Takes the task at the head if the head cursor is still where the
    /// caller read it. Where it has moved, another consumer was there in
    /// between: the outcome is `Retry` and the injector stays as it is.
    pub fn steal_at(&mut self, seen: u64) -> (r: Steal<TaskId>)
        requires
            old(self).wf(),
        ensures
            final(self).wf(),
            final(self).pushed() == old(self).pushed(),
            seen != old(self).head_cursor() ==> r is Retry && *final(self) == *old(self),
            seen == old(self).head_cursor() && old(self)@.len() == 0 ==> {
                &&& r is Empty
                &&& final(self)@ == old(self)@
                &&& final(self).left() == old(self).left()
                &&& final(self).head_cursor() == old(self).head_cursor()
            },
            seen == old(self).head_cursor() && old(self)@.len() > 0 ==> {
                &&& r == Steal::Success(old(self)@.first())
                &&& final(self)@ == old(self)@.skip(1)
                &&& final(self).left() == old(self).left().push(old(self)@.first())
                &&& final(self).head_cursor() == next_tag(old(self).head_cursor())
            },
    {
        if seen != self.head {
            return Steal::Retry;
        }
        self.steal()
    }

    /// Moves a batch of tasks from the head into a worker's own queue and
    /// hands the first of them out. The batch is half of what is queued,
    /// rounded up, and at most `BATCH_LIMIT`. The tasks behind the first are
    /// laid out in the worker's queue so that its owner takes them in the
    /// order in which they stood here.
    pub fn steal_batch_and_pop(&mut self, dest: &mut LocalQueue) -> (r: Steal<TaskId>)
        requires
            old(self).wf(),
            old(dest).wf(),
        ensures
            final(self).wf(),
            final(dest).wf(),
            final(self).pushed() == old(self).pushed(),
            final(dest).flavor_spec() == old(dest).flavor_spec(),
            final(dest).front_cursor() == old(dest).front_cursor(),
            final(dest).capacity_spec() >= old(dest).capacity_spec(),
            final(dest).taken() == old(dest).taken(),
            final(dest).dropped() == old(dest).dropped(),
            old(self)@.len() == 0 ==> {
                &&& r is Empty
                &&& *final(self) == *old(self)
                &&& *final(dest) == *old(dest)
            },
            old(self)@.len() > 0 ==> {
                &&& r == Steal::Success(old(self)@.first())
                &&& final(self)@ == old(self)@.skip(batch_len(old(self)@.len()) as int)
                &&& final(self).left() == old(self).left() + old(self)@.subrange(
                    0,
                    batch_len(old(self)@.len()) as int,
                )
                &&& final(self).head_cursor() == next_tag(old(self).head_cursor())
                &&& final(dest)@ == old(dest)@ + laid_out(
                    old(dest).flavor_spec(),
                    old(self)@.subrange(1, batch_len(old(self)@.len()) as int),
                )
                &&& final(dest).pushed() == old(dest).pushed() + laid_out(
                    old(dest).flavor_spec(),
                    old(self)@.subrange(1, batch_len(old(self)@.len()) as int),
                )
            },
    {
        let queued: usize = self.tasks.len();
        if queued == 0 {
            return Steal::Empty;
        }
        let half: usize = queued / 2 + queued % 2;
        let take: usize = if half <= BATCH_LIMIT {
            half
        } else {
            BATCH_LIMIT
        };
        assert(take == batch_len(queued as nat));
        let first: TaskId = self.tasks.pop_front().unwrap();
        let mut run: Vec<TaskId> = Vec::new();
        let mut moved: usize = 1;
        while moved < take
            invariant
                1 <= moved <= take <= queued,
                queued == old(self)@.len(),
                self.tasks@ == old(self)@.skip(moved as int),
                run@ == old(self)@.subrange(1, moved as int),
                self.head == old(self).head,
                self.pushed == old(self).pushed,
                self.left == old(self).left,
            decreases take - moved,
        {
            let task: TaskId = self.tasks.pop_front().unwrap();
            run.push(task);
            moved += 1;
            assert(self.tasks@ =~= old(self)@.skip(moved as int));
            assert(run@ =~= old(self)@.subrange(1, moved as int));
        }
        self.head = if self.head == u64::MAX {
            0
        } else {
            self.head + 1
        };
        self.left = Ghost(self.left@ + old(self)@.subrange(0, take as int));
        assert(self.left@ + self.tasks@ =~= self.pushed@) by {
            assert(old(self)@ =~= old(self)@.subrange(0, take as int) + old(self)@.skip(
                take as int,
            ));
        }
        let count: usize = run.len();
        let flavor: Flavor = dest.flavor();
        let mut placed: usize = 0;
        while placed < count
            invariant
                placed <= count,
                count == run@.len(),
                dest.wf(),
                flavor == old(dest).flavor_spec(),
                dest.flavor_spec() == flavor,
                dest.front_cursor() == old(dest).front_cursor(),
                dest.capacity_spec() >= old(dest).capacity_spec(),
                dest.taken() == old(dest).taken(),
                dest.dropped() == old(dest).dropped(),
                dest@ == old(dest)@ + laid_out(flavor, run@).subrange(0, placed as int),
                dest.pushed() == old(dest).pushed() + laid_out(flavor, run@).subrange(
                    0,
                    placed as int,
                ),
            decreases count - placed,
        {
            let from: usize = match flavor {
                Flavor::Fifo => placed,
                Flavor::Lifo => count - 1 - placed,
            };
            dest.push(run[from]);
            placed += 1;
            assert(dest@ =~= old(dest)@ + laid_out(flavor, run@).subrange(0, placed as int));
            assert(dest.pushed() =~= old(dest).pushed() + laid_out(flavor, run@).subrange(
                0,
                placed as int,
            ));
        }
        assert(laid_out(flavor, run@).subrange(0, count as int) =~= laid_out(flavor, run@));
        Steal::Success(first)
    }

    /// Throws away every queued task and says how many there were.
    pub fn clear(&mut self) -> (r: usize)
        requires
            old(self).wf(),
        ensures
            final(self).wf(),
            r == old(self)@.len(),
            final(self)@ == Seq::<TaskId>::empty(),
            final(self).pushed() == old(self).pushed(),
            final(self).left() == old(self).left() + old(self)@,
            final(self).head_cursor() == if old(self)@.len() == 0 {
                old(self).head_cursor()
            } else {
                next_tag(old(self).head_cursor())
            },
    {
        let dropped: usize = self.tasks.len();
        if dropped > 0 {
            self.head = if self.head == u64::MAX {
                0
            } else {
                self.head + 1
            };
        }
        self.tasks.clear();
        self.left = Ghost(self.left@ + old(self)@);
        assert(self.left@ + self.tasks@ =~= self.pushed@);
        dropped
    }
}

} // verus!
