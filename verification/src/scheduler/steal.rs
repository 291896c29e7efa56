use vstd::prelude::*;

verus! {

/// A unit of work as the scheduler sees it: an opaque handle. What the work
/// does is the caller's business; the scheduler only moves handles between
/// queues and hands each one out for execution.
pub type TaskId = u64;

/// What an attempt to take a task from a shared queue end came to.
#[derive(Debug, Clone, Copy, PartialEq, Eq)]
pub enum Steal<T> {
    /// The queue was seen empty.
    Empty,
    /// A task was taken.
    Success(T),
    /// Another consumer got in the way; nothing was taken and nothing is
    /// known about the queue. The attempt has to be made again.
    Retry,
}

impl<T> Steal<T> {
    /// Whether the queue was seen empty.
    pub fn is_empty(&self) -> (r: bool)
        ensures
            r <==> self is Empty,
    {
        match self {
            Steal::Empty => true,
            _ => false,
        }
    }

    /// Whether a task was taken.
    pub fn is_success(&self) -> (r: bool)
        ensures
            r <==> self is Success,
    {
        match self {
            Steal::Success(_) => true,
            _ => false,
        }
    }

    /// Whether the attempt has to be made again.
    pub fn is_retry(&self) -> (r: bool)
        ensures
            r <==> self is Retry,
    {
        match self {
            Steal::Retry => true,
            _ => false,
        }
    }

    /// The task that was taken, if one was.
    pub fn success(self) -> (r: Option<T>)
        ensures
            r == (match self {
                Steal::Success(t) => Some(t),
                _ => None,
            }),
    {
        match self {
            Steal::Success(t) => Some(t),
            _ => None,
        }
    }
}

} // verus!
