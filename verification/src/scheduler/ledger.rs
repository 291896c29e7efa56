use crate::scheduler::steal::TaskId;
use vstd::multiset::Multiset;
use vstd::prelude::*;
use vstd::seq_lib::{lemma_multiset_commutative, group_to_multiset_ensures};

verus! {

/// The tasks of a sequence, each counted as often as it occurs, whatever the
/// order.
pub open spec fn bag(tasks: Seq<TaskId>) -> Multiset<TaskId> {
    tasks.to_multiset()
}

/// Nothing is in the bag of an empty sequence.
pub proof fn lemma_bag_empty()
    ensures
        bag(Seq::<TaskId>::empty()) == Multiset::<TaskId>::empty(),
{
    broadcast use group_to_multiset_ensures;
    broadcast use vstd::multiset::group_multiset_axioms;

    let none = Seq::<TaskId>::empty();
    assert(bag(none).len() == 0);
    assert(bag(none) =~= Multiset::<TaskId>::empty());
}

/// A task put behind a sequence is one more task in its bag.
pub proof fn lemma_bag_push(tasks: Seq<TaskId>, task: TaskId)
    ensures
        bag(tasks.push(task)) == bag(tasks).insert(task),
{
    broadcast use group_to_multiset_ensures;

}

/// The bag of two sequences joined is the sum of their bags.
pub proof fn lemma_bag_concat(left: Seq<TaskId>, right: Seq<TaskId>)
    ensures
        bag(left + right) == bag(left).add(bag(right)),
{
    lemma_multiset_commutative(left, right);
}

/// A sequence cut in two keeps its bag.
pub proof fn lemma_bag_split(tasks: Seq<TaskId>, at: int)
    requires
        0 <= at <= tasks.len(),
    ensures
        bag(tasks) == bag(tasks.subrange(0, at)).add(bag(tasks.skip(at))),
{
    assert(tasks =~= tasks.subrange(0, at) + tasks.skip(at));
    lemma_bag_concat(tasks.subrange(0, at), tasks.skip(at));
}

/// The bag of a sequence is its first task and the bag of the rest.
pub proof fn lemma_bag_first(tasks: Seq<TaskId>)
    requires
        tasks.len() > 0,
    ensures
        bag(tasks) == bag(tasks.skip(1)).insert(tasks.first()),
{
    broadcast use vstd::multiset::group_multiset_axioms;

    lemma_bag_split(tasks, 1);
    let head = tasks.subrange(0, 1);
    assert(head =~= Seq::<TaskId>::empty().push(tasks.first()));
    lemma_bag_push(Seq::<TaskId>::empty(), tasks.first());
    lemma_bag_empty();
    assert(bag(tasks) =~= bag(tasks.skip(1)).insert(tasks.first()));
}

/// The bag of a sequence is its last task and the bag of what stands before.
pub proof fn lemma_bag_last(tasks: Seq<TaskId>)
    requires
        tasks.len() > 0,
    ensures
        bag(tasks) == bag(tasks.drop_last()).insert(tasks.last()),
{
    assert(tasks =~= tasks.drop_last().push(tasks.last()));
    lemma_bag_push(tasks.drop_last(), tasks.last());
}

} // verus!
