//! A work-stealing scheduler.
//!
//! Tasks come in through a shared queue, the injector. Every worker has a
//! queue of its own, takes a batch from the injector when its own queue has
//! run dry, and steals from its peers when the injector is empty too.
//!
//! The scheduler comes in two forms that share their decisions. `pool` is a
//! scheduler in which each call is one indivisible step: it is the form of
//! which the guarantees are proved, for every way in which the steps of the
//! workers can follow on each other. `runtime` wires lock-free queues for
//! worker threads and searches them in the same order.
//!
//! - `steal`: what an attempt to take a task comes to
//! - `local_queue`: a worker's own queue, a ring buffer that grows
//! - `injector`: the shared first-in-first-out queue
//! - `search`: the order in which a worker looks for a task
//! - `worker`: the life of a worker, its decisions and its pauses
//! - `model`: a pool as its contracts speak of it, and its steps
//! - `laws`: what holds of every pool at all times, and what follows
//! - `pool`: the scheduler itself
//! - `runtime`: the queues for worker threads
//! - `ledger`: counting tasks without regard to their order

pub mod injector;
pub mod laws;
pub mod ledger;
pub mod local_queue;
pub mod model;
pub mod pool;
pub mod runtime;
pub mod search;
pub mod steal;
pub mod worker;
