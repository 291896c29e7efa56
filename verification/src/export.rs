use crate::date::Date;
use crate::task::Task;
use vstd::prelude::*;

verus! {

/// Whether a to-do entry of a calendar is still to be done.
#[derive(Debug, Clone, Copy, PartialEq, Eq, Structural)]
pub enum TodoStatus {
    NeedsAction,
    Completed,
}

/// A to-do entry of a calendar.
#[derive(Debug, Clone, PartialEq, Eq)]
pub struct Todo {
    pub summary: String,
    pub description: String,
    pub status: TodoStatus,
    pub priority: u32,
    /// The day by which the entry is due; it takes the whole day.
    pub due: Option<Date>,
}

/// A calendar of to-do entries, ready to be written out.
#[derive(Debug, Clone, PartialEq, Eq)]
pub struct Calendar {
    pub name: String,
    pub components: Vec<Todo>,
}

/// Whether a to-do entry says what a task says: the title as summary, the
/// description, done or not, the rank of the priority, and the due date.
pub open spec fn describes(todo: Todo, task: Task) -> bool {
    &&& todo.summary@ == task.title@
    &&& todo.description@ == task.description@
    &&& todo.status == if task.completed {
        TodoStatus::Completed
    } else {
        TodoStatus::NeedsAction
    }
    &&& todo.priority == task.priority.rank()
    &&& todo.due == task.date.0
}

/// The to-do entry for a task.
pub fn build_icalendar_todo_task(task: &Task) -> (todo: Todo)
    ensures
        describes(todo, *task),
{
    Todo {
        summary: task.title.clone(),
        description: task.description.clone(),
        status: if task.completed {
            TodoStatus::Completed
        } else {
            TodoStatus::NeedsAction
        },
        priority: task.priority.to_u8() as u32,
        due: task.date.0,
    }
}

/// A calendar of the given name with one to-do entry for each task, in the
/// order of the tasks.
pub fn export_tasks_to_icalendar(calendar_name: &str, tasks: &[Task]) -> (calendar: Calendar)
    ensures
        calendar.name@ == calendar_name@,
        calendar.components@.len() == tasks@.len(),
        forall|i: int|
            0 <= i < tasks@.len() ==> describes(#[trigger] calendar.components@[i], tasks@[i]),
{
    let mut components: Vec<Todo> = Vec::new();
    let mut i: usize = 0;
    while i < tasks.len()
        invariant
            i <= tasks@.len(),
            components@.len() == i,
            forall|k: int| 0 <= k < i ==> describes(#[trigger] components@[k], tasks@[k]),
        decreases tasks@.len() - i,
    {
        components.push(build_icalendar_todo_task(&tasks[i]));
        i += 1;
    }
    Calendar { name: calendar_name.to_owned(), components }
}

} // verus!
