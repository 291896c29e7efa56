use task_rustler::scheduler::injector::{GlobalInjector, BATCH_LIMIT};
use task_rustler::scheduler::local_queue::{Flavor, LocalQueue, StealTicket, MIN_CAPACITY};
use task_rustler::scheduler::steal::Steal;

#[test]
fn steal_outcomes_tell_themselves_apart() {
    let empty: Steal<u64> = Steal::Empty;
    let retry: Steal<u64> = Steal::Retry;
    let success: Steal<u64> = Steal::Success(7);
    assert!(empty.is_empty() && !empty.is_success() && !empty.is_retry());
    assert!(!retry.is_empty() && !retry.is_success() && retry.is_retry());
    assert!(!success.is_empty() && success.is_success() && !success.is_retry());
    assert_eq!(empty.success(), None);
    assert_eq!(retry.success(), None);
    assert_eq!(success.success(), Some(7));
}

#[test]
fn fifo_owner_takes_oldest_first() {
    let mut q = LocalQueue::new_fifo();
    assert_eq!(q.flavor(), Flavor::Fifo);
    assert!(q.is_empty());
    q.push(1);
    q.push(2);
    q.push(3);
    assert_eq!(q.len(), 3);
    assert_eq!(q.pop(), Some(1));
    assert_eq!(q.pop(), Some(2));
    assert_eq!(q.pop(), Some(3));
    assert_eq!(q.pop(), None);
}

#[test]
fn lifo_owner_takes_newest_first() {
    let mut q = LocalQueue::new_lifo();
    assert_eq!(q.flavor(), Flavor::Lifo);
    q.push(1);
    q.push(2);
    q.push(3);
    assert_eq!(q.pop(), Some(3));
    assert_eq!(q.pop(), Some(2));
    assert_eq!(q.pop(), Some(1));
    assert_eq!(q.pop(), None);
}

#[test]
fn thieves_take_from_the_front_in_both_flavors() {
    for flavor in [Flavor::Fifo, Flavor::Lifo] {
        let mut q = LocalQueue::new(flavor);
        q.push(1);
        q.push(2);
        q.push(3);
        assert_eq!(q.steal(), Steal::Success(1));
        assert_eq!(q.steal(), Steal::Success(2));
        assert_eq!(q.steal(), Steal::Success(3));
        assert_eq!(q.steal(), Steal::Empty);
    }
}

#[test]
fn empty_queue_gives_no_ticket() {
    let q = LocalQueue::new_lifo();
    assert_eq!(q.begin_steal(), None);
}

#[test]
fn claim_with_a_fresh_ticket_takes_the_front_task() {
    let mut q = LocalQueue::new_lifo();
    q.push(10);
    q.push(11);
    let ticket = q.begin_steal().unwrap();
    assert_eq!(q.commit_steal(ticket), Steal::Success(10));
    assert_eq!(q.len(), 1);
}

#[test]
fn owner_and_thief_race_for_the_last_task_and_one_wins() {
    // The thief reads, the owner pops the only task, the thief claims.
    let mut q = LocalQueue::new_lifo();
    q.push(42);
    let ticket = q.begin_steal().unwrap();
    assert_eq!(q.pop(), Some(42));
    assert_eq!(q.commit_steal(ticket), Steal::Retry);
    assert_eq!(q.len(), 0);

    // The thief reads and claims, then the owner pops.
    let mut q = LocalQueue::new_lifo();
    q.push(42);
    let ticket = q.begin_steal().unwrap();
    assert_eq!(q.commit_steal(ticket), Steal::Success(42));
    assert_eq!(q.pop(), None);
}

#[test]
fn two_thieves_with_the_same_ticket_cannot_both_win() {
    let mut q = LocalQueue::new_fifo();
    q.push(1);
    q.push(2);
    let first = q.begin_steal().unwrap();
    let second = q.begin_steal().unwrap();
    assert_eq!(first, second);
    assert_eq!(q.commit_steal(first), Steal::Success(1));
    assert_eq!(q.commit_steal(second), Steal::Retry);
    assert_eq!(q.pop(), Some(2));
}

#[test]
fn lifo_pop_of_a_task_behind_the_front_leaves_tickets_good() {
    let mut q = LocalQueue::new_lifo();
    q.push(1);
    q.push(2);
    let ticket = q.begin_steal().unwrap();
    assert_eq!(q.pop(), Some(2));
    assert_eq!(q.commit_steal(ticket), Steal::Success(1));
}

#[test]
fn a_made_up_ticket_is_refused() {
    let mut q = LocalQueue::new_fifo();
    q.push(5);
    let forged = StealTicket { front: 99, generation: 0 };
    assert_eq!(q.commit_steal(forged), Steal::Retry);
    let stale = StealTicket { front: 0, generation: 7 };
    assert_eq!(q.commit_steal(stale), Steal::Retry);
    assert_eq!(q.len(), 1);
}

#[test]
fn queue_grows_by_doubling_and_keeps_its_tasks() {
    let mut q = LocalQueue::new_fifo();
    assert_eq!(q.capacity(), MIN_CAPACITY);
    assert_eq!(q.generation(), 0);
    for task in 0..MIN_CAPACITY as u64 {
        q.push(task);
    }
    assert_eq!(q.capacity(), 64);
    assert_eq!(q.generation(), 0);
    q.push(64);
    assert_eq!(q.capacity(), 128);
    assert_eq!(q.generation(), 1);
    for task in 65..129u64 {
        q.push(task);
    }
    assert_eq!(q.capacity(), 256);
    assert_eq!(q.generation(), 2);
    for expected in 0..129u64 {
        assert_eq!(q.pop(), Some(expected));
    }
    assert_eq!(q.pop(), None);
}

#[test]
fn growth_after_the_ring_has_wrapped_keeps_the_order() {
    let mut q = LocalQueue::new_fifo();
    for task in 0..40u64 {
        q.push(task);
    }
    for expected in 0..40u64 {
        assert_eq!(q.pop(), Some(expected));
    }
    // The live run now starts in the middle of the ring and wraps round.
    for task in 100..170u64 {
        q.push(task);
    }
    assert_eq!(q.capacity(), 128);
    for expected in 100..170u64 {
        assert_eq!(q.steal(), Steal::Success(expected));
    }
}

#[test]
fn a_ticket_drawn_before_growth_is_refused_after_it() {
    let mut q = LocalQueue::new_lifo();
    for task in 0..64u64 {
        q.push(task);
    }
    let ticket = q.begin_steal().unwrap();
    q.push(64);
    assert_eq!(q.generation(), 1);
    assert_eq!(q.commit_steal(ticket), Steal::Retry);
    assert_eq!(q.len(), 65);
    let fresh = q.begin_steal().unwrap();
    assert_eq!(q.commit_steal(fresh), Steal::Success(0));
}

#[test]
fn three_growths_with_a_thief_at_work_lose_and_double_nothing() {
    let total: u64 = 600;
    let mut q = LocalQueue::new_lifo();
    let mut seen = vec![0u32; total as usize];
    let mut pending: Option<StealTicket> = None;
    let mut retries = 0;
    for task in 0..total {
        q.push(task);
        // A thief that reads before one push and claims after the next.
        if let Some(ticket) = pending.take() {
            match q.commit_steal(ticket) {
                Steal::Success(t) => seen[t as usize] += 1,
                Steal::Retry => retries += 1,
                Steal::Empty => {}
            }
        }
        if task % 3 == 0 {
            pending = q.begin_steal();
        }
        if task % 7 == 0 {
            if let Some(t) = q.pop() {
                seen[t as usize] += 1;
            }
        }
    }
    assert!(q.generation() >= 3);
    assert!(q.capacity() >= 512);
    assert!(retries > 0);
    while let Some(t) = q.pop() {
        seen[t as usize] += 1;
    }
    assert!(seen.iter().all(|&count| count == 1));
}

#[test]
fn owner_and_thieves_together_get_each_task_once() {
    let mut q = LocalQueue::new_fifo();
    let mut got: Vec<u64> = Vec::new();
    let mut next: u64 = 0;
    for round in 0..500u64 {
        q.push(next);
        next += 1;
        if round % 2 == 0 {
            q.push(next);
            next += 1;
        }
        if let Steal::Success(t) = q.steal() {
            got.push(t);
        }
        if round % 3 == 0 {
            if let Some(t) = q.pop() {
                got.push(t);
            }
        }
    }
    while let Some(t) = q.pop() {
        got.push(t);
    }
    assert_eq!(got.len() as u64, next);
    got.sort();
    got.dedup();
    assert_eq!(got.len() as u64, next);
}

#[test]
fn clear_throws_everything_away() {
    let mut q = LocalQueue::new_fifo();
    assert_eq!(q.clear(), 0);
    q.push(1);
    q.push(2);
    let ticket = q.begin_steal().unwrap();
    assert_eq!(q.clear(), 2);
    assert!(q.is_empty());
    assert_eq!(q.commit_steal(ticket), Steal::Retry);
    assert_eq!(q.pop(), None);
}

#[test]
fn injector_is_first_in_first_out() {
    let mut q = GlobalInjector::new();
    assert!(q.is_empty());
    for task in 0..200u64 {
        q.push(task);
    }
    assert_eq!(q.len(), 200);
    for expected in 0..200u64 {
        assert_eq!(q.steal(), Steal::Success(expected));
    }
    assert_eq!(q.steal(), Steal::Empty);
}

#[test]
fn injector_keeps_order_when_pushes_and_steals_alternate() {
    let mut q = GlobalInjector::new();
    let mut out = Vec::new();
    for task in 0..50u64 {
        q.push(task);
        if task % 3 == 2 {
            if let Steal::Success(t) = q.steal() {
                out.push(t);
            }
        }
    }
    while let Steal::Success(t) = q.steal() {
        out.push(t);
    }
    assert_eq!(out, (0..50u64).collect::<Vec<u64>>());
}

#[test]
fn injector_refuses_a_claim_with_an_old_cursor() {
    let mut q = GlobalInjector::new();
    q.push(1);
    q.push(2);
    let seen = q.cursor();
    assert_eq!(q.steal(), Steal::Success(1));
    assert_eq!(q.steal_at(seen), Steal::Retry);
    assert_eq!(q.len(), 1);
    let fresh = q.cursor();
    assert_eq!(q.steal_at(fresh), Steal::Success(2));
    let empty_now = q.cursor();
    assert_eq!(q.steal_at(empty_now), Steal::Empty);
}

#[test]
fn batch_takes_half_rounded_up() {
    let mut q = GlobalInjector::new();
    for task in 1..=4u64 {
        q.push(task);
    }
    let mut local = LocalQueue::new_fifo();
    assert_eq!(q.steal_batch_and_pop(&mut local), Steal::Success(1));
    assert_eq!(local.len(), 1);
    assert_eq!(q.len(), 2);
    assert_eq!(local.pop(), Some(2));
    assert_eq!(q.steal(), Steal::Success(3));

    let mut q = GlobalInjector::new();
    for task in 1..=5u64 {
        q.push(task);
    }
    let mut local = LocalQueue::new_fifo();
    assert_eq!(q.steal_batch_and_pop(&mut local), Steal::Success(1));
    assert_eq!(local.len(), 2);
    assert_eq!(q.len(), 2);
}

#[test]
fn batch_of_one_moves_nothing_over() {
    let mut q = GlobalInjector::new();
    q.push(9);
    let mut local = LocalQueue::new_lifo();
    assert_eq!(q.steal_batch_and_pop(&mut local), Steal::Success(9));
    assert!(local.is_empty());
    assert!(q.is_empty());
    assert_eq!(q.steal_batch_and_pop(&mut local), Steal::Empty);
}

#[test]
fn batch_is_capped() {
    let mut q = GlobalInjector::new();
    for task in 0..100u64 {
        q.push(task);
    }
    let mut local = LocalQueue::new_fifo();
    assert_eq!(BATCH_LIMIT, 32);
    assert_eq!(q.steal_batch_and_pop(&mut local), Steal::Success(0));
    assert_eq!(local.len(), 31);
    assert_eq!(q.len(), 68);
    assert_eq!(q.steal(), Steal::Success(32));
}

#[test]
fn batch_comes_out_in_injector_order_whatever_the_flavor() {
    for flavor in [Flavor::Fifo, Flavor::Lifo] {
        let mut q = GlobalInjector::new();
        for task in 1..=10u64 {
            q.push(task);
        }
        let mut local = LocalQueue::new(flavor);
        assert_eq!(q.steal_batch_and_pop(&mut local), Steal::Success(1));
        assert_eq!(local.pop(), Some(2));
        assert_eq!(local.pop(), Some(3));
        assert_eq!(local.pop(), Some(4));
        assert_eq!(local.pop(), Some(5));
        assert_eq!(local.pop(), None);
        assert_eq!(q.steal(), Steal::Success(6));
    }
}

#[test]
fn batch_into_a_queue_that_has_to_grow() {
    let mut q = GlobalInjector::new();
    for task in 1000..1064u64 {
        q.push(task);
    }
    let mut local = LocalQueue::new_fifo();
    for task in 0..60u64 {
        local.push(task);
    }
    assert_eq!(q.steal_batch_and_pop(&mut local), Steal::Success(1000));
    assert_eq!(local.len(), 60 + 31);
    assert_eq!(local.capacity(), 128);
    for expected in 0..60u64 {
        assert_eq!(local.pop(), Some(expected));
    }
    for expected in 1001..1032u64 {
        assert_eq!(local.pop(), Some(expected));
    }
}

#[test]
fn injector_clear_says_how_many_went() {
    let mut q = GlobalInjector::new();
    assert_eq!(q.clear(), 0);
    q.push(1);
    q.push(2);
    q.push(3);
    assert_eq!(q.clear(), 3);
    assert!(q.is_empty());
}
