use crate::date::TaskDate;
use vstd::prelude::*;

verus! {

/// How urgent a task is. The numeric rank runs against the urgency: the most
/// urgent level has the smallest rank, so that sorting by rank puts it first.
#[derive(Debug, Clone, Copy, PartialEq, Eq, Structural, PartialOrd, Ord)]
pub enum Priority {
    High,
    Medium,
    Low,
}

impl Priority {
    /// The numeric rank stored for this level: 3 for low, 2 for medium, 1 for high.
    pub open spec fn rank(self) -> int {
        match self {
            Priority::Low => 3,
            Priority::Medium => 2,
            Priority::High => 1,
        }
    }

    /// The level that follows this one when the user cycles through them:
    /// low, medium, high, and round to low again.
    pub fn next(&self) -> (r: Priority)
        ensures
            r.rank() == (if self.rank() == 1 { 3 } else { self.rank() - 1 }),
    {
        match self {
            Priority::Low => Priority::Medium,
            Priority::Medium => Priority::High,
            Priority::High => Priority::Low,
        }
    }

    /// The level with the given rank, if there is one.
    pub fn from_u8(value: u8) -> (r: Option<Priority>)
        ensures
            1 <= value <= 3 <==> r is Some,
            r matches Some(p) ==> p.rank() == value,
    {
        match value {
            3 => Some(Priority::Low),
            2 => Some(Priority::Medium),
            1 => Some(Priority::High),
            _ => None,
        }
    }

    /// The rank of this level as a byte.
    pub fn to_u8(&self) -> (r: u8)
        ensures
            r == self.rank(),
    {
        match self {
            Priority::Low => 3,
            Priority::Medium => 2,
            Priority::High => 1,
        }
    }

    /// The sign that stands for this level in a list: an arrow down for
    /// low, an equals sign for medium, an arrow up for high.
    pub fn to_string(&self) -> (r: String)
        ensures
            r@ == (match self {
                Priority::Low => "\u{2193}"@,
                Priority::Medium => "="@,
                Priority::High => "\u{2191}"@,
            }),
    {
        match self {
            Priority::Low => "\u{2193}".to_owned(),
            Priority::Medium => "=".to_owned(),
            Priority::High => "\u{2191}".to_owned(),
        }
    }
}

/// One entry of the task list.
#[derive(Debug, Clone, PartialEq, Eq)]
pub struct Task {
    pub id: i32,
    pub title: String,
    pub description: String,
    pub completed: bool,
    pub priority: Priority,
    pub date: TaskDate,
}

impl Task {
    /// A task with nothing filled in: no title, no description, not done,
    /// of low priority, without a date.
    pub fn new() -> (t: Task)
        ensures
            t.id == 0,
            t.title@ == Seq::<char>::empty(),
            t.description@ == Seq::<char>::empty(),
            !t.completed,
            t.priority == Priority::Low,
            t.date == TaskDate(None),
    {
        Task {
            id: 0,
            title: String::new(),
            description: String::new(),
            completed: false,
            priority: Priority::Low,
            date: TaskDate(None),
        }
    }
}

impl Default for Task {
    /// A task to try things out with.
    fn default() -> (t: Task)
        ensures
            t.id == 0,
            t.title@ == "Test task title"@,
            t.description@ == "Test task description"@,
            !t.completed,
            t.priority == Priority::Low,
            t.date == TaskDate(None),
    {
        let mut t = Task::new();
        t.title = "Test task title".to_owned();
        t.description = "Test task description".to_owned();
        t
    }
}

} // verus!
