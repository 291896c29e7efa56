use crate::scheduler::ledger::{
    bag, lemma_bag_empty, lemma_bag_concat, lemma_bag_first, lemma_bag_last, lemma_bag_push,
};
use crate::scheduler::steal::{Steal, TaskId};
use vstd::prelude::*;

verus! {

/// The capacity every queue starts with.
pub const MIN_CAPACITY: usize = 64;

/// The order in which the owner of a queue takes its own tasks back out.
#[derive(Debug, Clone, Copy, PartialEq, Eq, Structural)]
pub enum Flavor {
    /// The owner takes the oldest task first.
    Fifo,
    /// The owner takes the newest task first.
    Lifo,
}

/// What a thief has read of a queue before it tries to claim the front task:
/// the position of the front cursor and the generation of the buffer. The
/// claim goes through only if both are still the same.
#[derive(Debug, Clone, Copy, PartialEq, Eq, Structural)]
pub struct StealTicket {
    pub front: u64,
    pub generation: u64,
}

/// The slot that holds the task `offset` places behind the front, in a ring
/// of `capacity` slots whose front task sits in slot `head`.
pub open spec fn ring_slot(head: int, offset: int, capacity: int) -> int {
    if head + offset < capacity {
        head + offset
    } else {
        head + offset - capacity
    }
}

/// The value of a cursor or generation tag after one more step. Tags are only
/// ever compared for equality, so they may wrap.
pub open spec fn next_tag(tag: u64) -> u64 {
    if tag == u64::MAX {
        0
    } else {
        (tag + 1) as u64
    }
}

/// What is left of the owner's view once the owner has taken a task.
pub open spec fn after_pop(flavor: Flavor, tasks: Seq<TaskId>) -> Seq<TaskId> {
    match flavor {
        Flavor::Fifo => tasks.skip(1),
        Flavor::Lifo => tasks.drop_last(),
    }
}

/// The task the owner takes next from a queue that is not empty.
pub open spec fn pop_choice(flavor: Flavor, tasks: Seq<TaskId>) -> TaskId {
    match flavor {
        Flavor::Fifo => tasks.first(),
        Flavor::Lifo => tasks.last(),
    }
}

/// Whether the owner's next take leaves from the front slot, the one that
/// thieves race for.
pub open spec fn pop_takes_front(flavor: Flavor, tasks: Seq<TaskId>) -> bool {
    flavor == Flavor::Fifo || tasks.len() == 1
}

fn bump(tag: u64) -> (r: u64)
    ensures
        r == next_tag(tag),
{
    if tag == u64::MAX {
        0
    } else {
        tag + 1
    }
}

/// A worker's own queue: a ring buffer that grows when it is full. The owner
/// pushes at the back and pops at the end its flavor names; thieves take from
/// the front only.
///
/// The view is the sequence of queued tasks, oldest first. Beside it the
/// queue keeps a record, for proofs only, of every task that was pushed, of
/// every task that a consumer got, and of every task that was thrown away.
pub struct LocalQueue {
    slots: Vec<TaskId>,
    head: usize,
    len: usize,
    flavor: Flavor,
    front: u64,
    generation: u64,
    pushed: Ghost<Seq<TaskId>>,
    taken: Ghost<Seq<TaskId>>,
    dropped: Ghost<Seq<TaskId>>,
}

impl View for LocalQueue {
    type V = Seq<TaskId>;

    closed spec fn view(&self) -> Seq<TaskId> {
        Seq::new(
            self.len as nat,
            |i: int| self.slots@[ring_slot(self.head as int, i, self.slots@.len() as int)],
        )
    }
}

impl LocalQueue {
    /// The live tasks lie in one contiguous run of the ring, the ring is never
    /// smaller than it was at the start, and every task that was pushed is
    /// either still queued, or was handed to exactly one consumer, or was
    /// thrown away.
    pub closed spec fn wf(&self) -> bool {
        &&& self.slots@.len() >= MIN_CAPACITY
        &&& self.head < self.slots@.len()
        &&& self.len <= self.slots@.len()
        &&& bag(self.pushed@) == bag(self.taken@).add(bag(self.dropped@)).add(bag(self@))
    }

    /// Every task that was ever pushed, in the order of the pushes.
    pub closed spec fn pushed(&self) -> Seq<TaskId> {
        self.pushed@
    }

    /// Every task that the owner or a thief got, in the order in which they
    /// got them.
    pub closed spec fn taken(&self) -> Seq<TaskId> {
        self.taken@
    }

    /// Every task that was thrown away.
    pub closed spec fn dropped(&self) -> Seq<TaskId> {
        self.dropped@
    }

    /// No task is lost and none is handed out twice: the tasks pushed are the
    /// tasks taken, the tasks thrown away and the tasks still queued, each as
    /// often as it was pushed.
    pub proof fn lemma_every_task_accounted_for(&self)
        requires
            self.wf(),
        ensures
            bag(self.pushed()) == bag(self.taken()).add(bag(self.dropped())).add(bag(self@)),
    {
    }

    /// The owner's discipline.
    pub closed spec fn flavor_spec(&self) -> Flavor {
        self.flavor
    }

    /// How many tasks the buffer holds before it has to grow.
    pub closed spec fn capacity_spec(&self) -> nat {
        self.slots@.len()
    }

    /// The front cursor: it moves each time the task in the front slot leaves.
    pub closed spec fn front_cursor(&self) -> u64 {
        self.front
    }

    /// The generation of the buffer: it moves each time the buffer is replaced.
    pub closed spec fn generation_spec(&self) -> u64 {
        self.generation
    }

    /// Once the queue has run empty with nothing thrown away, the consumers
    /// have between them got exactly the tasks that were pushed: as many, and
    /// each as often as it was pushed. Where no task was pushed twice, no two
    /// consumers got the same task.
    pub proof fn lemma_drained_queue_gave_each_task_once(&self)
        requires
            self.wf(),
            self@.len() == 0,
            self.dropped().len() == 0,
        ensures
            bag(self.taken()) == bag(self.pushed()),
            self.taken().len() == self.pushed().len(),
            self.pushed().no_duplicates() ==> self.taken().no_duplicates(),
    {
        broadcast use vstd::seq_lib::group_to_multiset_ensures;
        broadcast use vstd::multiset::group_multiset_axioms;

        lemma_bag_empty();
        assert(self@ =~= Seq::<TaskId>::empty());
        assert(self.dropped@ =~= Seq::<TaskId>::empty());
        assert(bag(self.taken@) =~= bag(self.pushed@));
        assert(self.taken@.len() == bag(self.taken@).len());
        assert(self.pushed@.len() == bag(self.pushed@).len());
        if self.pushed@.no_duplicates() {
            self.pushed@.lemma_multiset_has_no_duplicates();
            self.taken@.lemma_multiset_has_no_duplicates_conv();
        }
    }

    /// A ticket that was drawn before the buffer was replaced is of no use
    /// after it: the claim will be refused.
    pub proof fn lemma_growth_outdates_tickets(&self, later: &LocalQueue, ticket: StealTicket)
        requires
            self.ticket_is_current(ticket),
            later.generation_spec() == next_tag(self.generation_spec()),
        ensures
            !later.ticket_is_current(ticket),
    {
    }

    /// An empty queue of the given flavor.
    pub fn new(flavor: Flavor) -> (q: LocalQueue)
        ensures
            q.wf(),
            q@ == Seq::<TaskId>::empty(),
            q.flavor_spec() == flavor,
            q.capacity_spec() == MIN_CAPACITY,
            q.front_cursor() == 0,
            q.generation_spec() == 0,
            q.pushed() == Seq::<TaskId>::empty(),
            q.taken() == Seq::<TaskId>::empty(),
            q.dropped() == Seq::<TaskId>::empty(),
    {
        let mut slots: Vec<TaskId> = Vec::new();
        while slots.len() < MIN_CAPACITY
            invariant
                slots@.len() <= MIN_CAPACITY,
            decreases MIN_CAPACITY - slots@.len(),
        {
            slots.push(0);
        }
        let q = LocalQueue {
            slots,
            head: 0,
            len: 0,
            flavor,
            front: 0,
            generation: 0,
            pushed: Ghost(Seq::empty()),
            taken: Ghost(Seq::empty()),
            dropped: Ghost(Seq::empty()),
        };
        proof {
            lemma_bag_empty();
            assert(q@ =~= Seq::<TaskId>::empty());
            assert(bag(q.pushed@) =~= bag(q.taken@).add(bag(q.dropped@)).add(bag(q@)));
        }
        q
    }

    /// An empty queue whose owner takes the oldest task first.
    pub fn new_fifo() -> (q: LocalQueue)
        ensures
            q.wf(),
            q@ == Seq::<TaskId>::empty(),
            q.flavor_spec() == Flavor::Fifo,
            q.capacity_spec() == MIN_CAPACITY,
            q.front_cursor() == 0,
            q.generation_spec() == 0,
            q.pushed() == Seq::<TaskId>::empty(),
            q.taken() == Seq::<TaskId>::empty(),
            q.dropped() == Seq::<TaskId>::empty(),
    {
        LocalQueue::new(Flavor::Fifo)
    }

    /// An empty queue whose owner takes the newest task first.
    pub fn new_lifo() -> (q: LocalQueue)
        ensures
            q.wf(),
            q@ == Seq::<TaskId>::empty(),
            q.flavor_spec() == Flavor::Lifo,
            q.capacity_spec() == MIN_CAPACITY,
            q.front_cursor() == 0,
            q.generation_spec() == 0,
            q.pushed() == Seq::<TaskId>::empty(),
            q.taken() == Seq::<TaskId>::empty(),
            q.dropped() == Seq::<TaskId>::empty(),
    {
        LocalQueue::new(Flavor::Lifo)
    }

    /// The owner's discipline.
    pub fn flavor(&self) -> (r: Flavor)
        ensures
            r == self.flavor_spec(),
    {
        self.flavor
    }

    /// The number of queued tasks.
    pub fn len(&self) -> (r: usize)
        requires
            self.wf(),
        ensures
            r == self@.len(),
    {
        self.len
    }

    /// Whether no task is queued.
    pub fn is_empty(&self) -> (r: bool)
        requires
            self.wf(),
        ensures
            r <==> self@.len() == 0,
    {
        self.len == 0
    }

    /// How many tasks the buffer holds before it has to grow.
    pub fn capacity(&self) -> (r: usize)
        requires
            self.wf(),
        ensures
            r == self.capacity_spec(),
    {
        self.slots.len()
    }

    /// The generation of the buffer.
    pub fn generation(&self) -> (r: u64)
        ensures
            r == self.generation_spec(),
    {
        self.generation
    }

    fn slot(&self, offset: usize) -> (r: usize)
        requires
            self.wf(),
            offset < self.slots@.len(),
        ensures
            r == ring_slot(self.head as int, offset as int, self.slots@.len() as int),
            r < self.slots@.len() <= usize::MAX,
    {
        let room: usize = self.slots.len() - self.head;
        if offset < room {
            self.head + offset
        } else {
            offset - room
        }
    }

    /// Replaces the buffer by one of twice the size. The queued tasks and the
    /// front cursor stay; the generation moves, so that a thief who read the
    /// old buffer finds out.
    fn grow(&mut self)
        requires
            old(self).wf(),
        ensures
            final(self).wf(),
            final(self)@ == old(self)@,
            final(self).flavor_spec() == old(self).flavor_spec(),
            final(self).front_cursor() == old(self).front_cursor(),
            final(self).generation_spec() == next_tag(old(self).generation_spec()),
            final(self).capacity_spec() == 2 * old(self).capacity_spec(),
            final(self).len == old(self).len,
            final(self).pushed() == old(self).pushed(),
            final(self).taken() == old(self).taken(),
            final(self).dropped() == old(self).dropped(),
    {
        let capacity: usize = self.slots.len();
        let mut wider: Vec<TaskId> = Vec::new();
        let mut i: usize = 0;
        while i < self.len
            invariant
                self.wf(),
                capacity == self.slots@.len(),
                i <= self.len,
                wider@.len() == i,
                forall|k: int|
                    0 <= k < i ==> wider@[k] == self.slots@[ring_slot(
                        self.head as int,
                        k,
                        capacity as int,
                    )],
            decreases self.len - i,
        {
            let at: usize = self.slot(i);
            wider.push(self.slots[at]);
            i += 1;
        }
        let ghost live = wider@;
        let mut filled: usize = self.len;
        while filled < capacity
            invariant
                filled <= capacity,
                self.len <= filled,
                live.len() == self.len,
                wider@.len() == filled,
                wider@.subrange(0, self.len as int) == live,
            decreases capacity - filled,
        {
            wider.push(0);
            filled += 1;
        }
        let mut extra: usize = 0;
        while extra < capacity
            invariant
                extra <= capacity,
                live.len() == self.len,
                self.len <= capacity,
                wider@.len() == capacity + extra,
                wider@.subrange(0, self.len as int) == live,
            decreases capacity - extra,
        {
            wider.push(0);
            extra += 1;
        }
        proof {
            assert forall|k: int| 0 <= k < self.len implies wider@[k] == old(self)@[k] by {
                assert(wider@[k] == wider@.subrange(0, self.len as int)[k]);
            }
        }
        self.slots = wider;
        self.head = 0;
        self.generation = bump(self.generation);
        assert(self@ =~= old(self)@);
    }

    /// Queues a task at the back. A full buffer is replaced by one of twice
    /// the size first, which moves the generation.
    pub fn push(&mut self, task: TaskId)
        requires
            old(self).wf(),
        ensures
            final(self).wf(),
            final(self)@ == old(self)@.push(task),
            final(self).pushed() == old(self).pushed().push(task),
            final(self).taken() == old(self).taken(),
            final(self).dropped() == old(self).dropped(),
            final(self).flavor_spec() == old(self).flavor_spec(),
            final(self).front_cursor() == old(self).front_cursor(),
            final(self).capacity_spec() >= old(self).capacity_spec(),
            old(self)@.len() < old(self).capacity_spec() ==> {
                &&& final(self).capacity_spec() == old(self).capacity_spec()
                &&& final(self).generation_spec() == old(self).generation_spec()
            },
            old(self)@.len() == old(self).capacity_spec() ==> {
                &&& final(self).capacity_spec() == 2 * old(self).capacity_spec()
                &&& final(self).generation_spec() == next_tag(old(self).generation_spec())
            },
    {
        if self.len == self.slots.len() {
            self.grow();
        }
        let ghost before = self@;
        let at: usize = self.slot(self.len);
        self.slots.set(at, task);
        self.len = self.len + 1;
        self.pushed = Ghost(self.pushed@.push(task));
        proof {
            assert(self@ =~= before.push(task));
            lemma_bag_push(before, task);
            lemma_bag_push(old(self).pushed@, task);
            assert(bag(self.pushed@) =~= bag(self.taken@).add(bag(self.dropped@)).add(bag(self@)));
        }
    }

    /// The owner takes a task: the oldest in a FIFO queue, the newest in a
    /// LIFO queue, none from an empty queue. The front cursor moves when the
    /// task left from the front slot.
    pub fn pop(&mut self) -> (r: Option<TaskId>)
        requires
            old(self).wf(),
        ensures
            final(self).wf(),
            final(self).flavor_spec() == old(self).flavor_spec(),
            final(self).capacity_spec() == old(self).capacity_spec(),
            final(self).generation_spec() == old(self).generation_spec(),
            old(self)@.len() == 0 ==> r is None && *final(self) == *old(self),
            final(self).pushed() == old(self).pushed(),
            final(self).dropped() == old(self).dropped(),
            old(self)@.len() > 0 ==> {
                &&& r == Some(pop_choice(old(self).flavor_spec(), old(self)@))
                &&& final(self)@ == after_pop(old(self).flavor_spec(), old(self)@)
                &&& final(self).taken() == old(self).taken().push(
                    pop_choice(old(self).flavor_spec(), old(self)@),
                )
                &&& final(self).front_cursor() == if pop_takes_front(
                    old(self).flavor_spec(),
                    old(self)@,
                ) {
                    next_tag(old(self).front_cursor())
                } else {
                    old(self).front_cursor()
                }
            },
    {
        if self.len == 0 {
            return None;
        }
        let ghost before = self@;
        match self.flavor {
            Flavor::Fifo => {
                let task: TaskId = self.slots[self.head];
                let next: usize = self.slot(1);
                self.head = next;
                self.len = self.len - 1;
                self.front = bump(self.front);
                self.taken = Ghost(self.taken@.push(task));
                proof {
                    assert(self@ =~= before.skip(1));
                    lemma_bag_first(before);
                    lemma_bag_push(old(self).taken@, task);
                    assert(bag(self.pushed@) =~= bag(self.taken@).add(bag(self.dropped@)).add(
                        bag(self@),
                    ));
                }
                Some(task)
            },
            Flavor::Lifo => {
                let at: usize = self.slot(self.len - 1);
                let task: TaskId = self.slots[at];
                if self.len == 1 {
                    let next: usize = self.slot(1);
                    self.head = next;
                    self.front = bump(self.front);
                }
                self.len = self.len - 1;
                self.taken = Ghost(self.taken@.push(task));
                proof {
                    assert(self@ =~= before.drop_last());
                    lemma_bag_last(before);
                    lemma_bag_push(old(self).taken@, task);
                    assert(bag(self.pushed@) =~= bag(self.taken@).add(bag(self.dropped@)).add(
                        bag(self@),
                    ));
                }
                Some(task)
            },
        }
    }

    /// A thief takes the front task in one step. Nobody can get in the way of
    /// a single step, so the outcome is never `Retry`.
    pub fn steal(&mut self) -> (r: Steal<TaskId>)
        requires
            old(self).wf(),
        ensures
            final(self).wf(),
            final(self).flavor_spec() == old(self).flavor_spec(),
            final(self).capacity_spec() == old(self).capacity_spec(),
            final(self).generation_spec() == old(self).generation_spec(),
            old(self)@.len() == 0 ==> r is Empty && *final(self) == *old(self),
            final(self).pushed() == old(self).pushed(),
            final(self).dropped() == old(self).dropped(),
            old(self)@.len() > 0 ==> {
                &&& r == Steal::Success(old(self)@.first())
                &&& final(self)@ == old(self)@.skip(1)
                &&& final(self).taken() == old(self).taken().push(old(self)@.first())
                &&& final(self).front_cursor() == next_tag(old(self).front_cursor())
            },
    {
        if self.len == 0 {
            return Steal::Empty;
        }
        let ghost before = self@;
        let task: TaskId = self.slots[self.head];
        let next: usize = self.slot(1);
        self.head = next;
        self.len = self.len - 1;
        self.front = bump(self.front);
        self.taken = Ghost(self.taken@.push(task));
        proof {
            assert(self@ =~= before.skip(1));
            lemma_bag_first(before);
            lemma_bag_push(old(self).taken@, task);
            assert(bag(self.pushed@) =~= bag(self.taken@).add(bag(self.dropped@)).add(bag(self@)));
        }
        Steal::Success(task)
    }

    /// The first half of a steal that others may get in the way of: the thief
    /// reads the front cursor and the generation. An empty queue gives no
    /// ticket.
    pub fn begin_steal(&self) -> (r: Option<StealTicket>)
        requires
            self.wf(),
        ensures
            self@.len() == 0 <==> r is None,
            r matches Some(ticket) ==> ticket.front == self.front_cursor() && ticket.generation
                == self.generation_spec(),
    {
        if self.len == 0 {
            None
        } else {
            Some(StealTicket { front: self.front, generation: self.generation })
        }
    }

    /// Whether a claim with this ticket would find the queue as the thief
    /// read it.
    pub open spec fn ticket_is_current(&self, ticket: StealTicket) -> bool {
        ticket.front == self.front_cursor() && ticket.generation == self.generation_spec()
    }

    /// The second half: the thief claims the front task. Where the front
    /// cursor or the generation has moved since the ticket was drawn, the
    /// claim fails with `Retry` and the queue stays as it is; otherwise the
    /// front task leaves, as in `steal`.
    pub fn commit_steal(&mut self, ticket: StealTicket) -> (r: Steal<TaskId>)
        requires
            old(self).wf(),
        ensures
            final(self).wf(),
            final(self).flavor_spec() == old(self).flavor_spec(),
            final(self).capacity_spec() == old(self).capacity_spec(),
            final(self).generation_spec() == old(self).generation_spec(),
            !old(self).ticket_is_current(ticket) ==> r is Retry && *final(self) == *old(self),
            old(self).ticket_is_current(ticket) && old(self)@.len() == 0 ==> {
                &&& r is Empty
                &&& *final(self) == *old(self)
            },
            final(self).pushed() == old(self).pushed(),
            final(self).dropped() == old(self).dropped(),
            old(self).ticket_is_current(ticket) && old(self)@.len() > 0 ==> {
                &&& r == Steal::Success(old(self)@.first())
                &&& final(self)@ == old(self)@.skip(1)
                &&& final(self).taken() == old(self).taken().push(old(self)@.first())
                &&& final(self).front_cursor() == next_tag(old(self).front_cursor())
            },
    {
        if ticket.front != self.front || ticket.generation != self.generation {
            return Steal::Retry;
        }
        self.steal()
    }

    /// Throws away every queued task and says how many there were.
    pub fn clear(&mut self) -> (r: usize)
        requires
            old(self).wf(),
        ensures
            final(self).wf(),
            r == old(self)@.len(),
            final(self)@ == Seq::<TaskId>::empty(),
            final(self).pushed() == old(self).pushed(),
            final(self).taken() == old(self).taken(),
            final(self).dropped() == old(self).dropped() + old(self)@,
            final(self).flavor_spec() == old(self).flavor_spec(),
            final(self).capacity_spec() == old(self).capacity_spec(),
            final(self).generation_spec() == old(self).generation_spec(),
            final(self).front_cursor() == if old(self)@.len() == 0 {
                old(self).front_cursor()
            } else {
                next_tag(old(self).front_cursor())
            },
    {
        let dropped: usize = self.len;
        if dropped > 0 {
            self.front = bump(self.front);
        }
        let ghost before = self@;
        self.len = 0;
        self.dropped = Ghost(self.dropped@ + before);
        proof {
            assert(self@ =~= Seq::<TaskId>::empty());
            lemma_bag_empty();
            lemma_bag_concat(old(self).dropped@, before);
            assert(bag(self.pushed@) =~= bag(self.taken@).add(bag(self.dropped@)).add(bag(self@)));
        }
        dropped
    }
}

} // verus!
