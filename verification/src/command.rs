use crate::app::{AppContext, InputFieldType, InputMode};
use crate::date::{formatted_date, parsed_date, TaskDate};
use crate::export::{describes, export_tasks_to_icalendar, Calendar};
use crate::task::{Priority, Task};
use crate::text::take_text;
use vstd::prelude::*;

verus! {

/// What is left to do outside once a command has run: the command has
/// changed the state on the screen, and the store or the file system has to
/// follow.
#[derive(Debug, Clone, PartialEq, Eq)]
pub enum Effect {
    /// Nothing.
    Nothing,
    /// Store the new task given, then read the list again.
    AddTask(Task),
    /// Store the title, the description and the date of the task given.
    UpdateTask(Task),
    /// Mark the task with this id as done or not done.
    SetCompleted { id: i32, completed: bool },
    /// Give the task with this id this priority.
    SetPriority { id: i32, priority: Priority },
    /// Delete the task with this id.
    DeleteTask { id: i32 },
    /// Find out where the calendar file would go by default and put that
    /// into the path field.
    ResolveExportPath,
    /// Write this calendar to the file at this path.
    WriteCalendar { path: String, calendar: Calendar },
}

/// Why a command did not go through.
#[derive(Debug, Clone, Copy, PartialEq, Eq, Structural)]
pub enum CommandError {
    /// No title was typed in.
    EmptyTitle,
    /// What was typed in as the date is no date.
    InvalidDate,
    /// The directory in which the program runs cannot be found out.
    NoCurrentDir,
}

impl CommandError {
    /// The line shown to the user.
    pub fn to_string(&self) -> (r: String)
        ensures
            r@ == (match self {
                CommandError::EmptyTitle => "You must insert at least a title for the task"@,
                CommandError::InvalidDate => "Invalid date format, use dd-mm-yyyy"@,
                CommandError::NoCurrentDir => "Could not access to the current directory"@,
            }),
    {
        match self {
            CommandError::EmptyTitle => "You must insert at least a title for the task".to_owned(),
            CommandError::InvalidDate => "Invalid date format, use dd-mm-yyyy".to_owned(),
            CommandError::NoCurrentDir => "Could not access to the current directory".to_owned(),
        }
    }
}

/// Something that the user can have done to the state on the screen.
pub trait Command {
    /// What the command does: how the state after it relates to the state
    /// before it, and what it hands back.
    spec fn meant(
        &self,
        before: AppContext,
        after: AppContext,
        outcome: Result<Effect, CommandError>,
    ) -> bool;

    /// Carries the command out.
    fn execute(&self, app: &mut AppContext) -> (r: Result<Effect, CommandError>)
        ensures
            self.meant(*old(app), *final(app), r),
    ;
}

/// A copy of a task.
fn copy_task(task: &Task) -> (r: Task)
    ensures
        r == *task,
{
    Task {
        id: task.id,
        title: task.title.clone(),
        description: task.description.clone(),
        completed: task.completed,
        priority: task.priority,
        date: task.date,
    }
}

/// Whether two states show the same list with the same item picked out.
pub open spec fn same_list(after: AppContext, before: AppContext) -> bool {
    after.task_list == before.task_list
}

/// Whether two states hold the same in every field that is typed into.
pub open spec fn same_typed(after: AppContext, before: AppContext) -> bool {
    &&& after.input_title == before.input_title
    &&& after.input_description == before.input_description
    &&& after.input_date == before.input_date
    &&& after.input_export_path == before.input_export_path
}

/// Begins the adding of a task: the keys go to the title field.
pub struct EnterAddModeCommand;

impl Command for EnterAddModeCommand {
    open spec fn meant(
        &self,
        before: AppContext,
        after: AppContext,
        outcome: Result<Effect, CommandError>,
    ) -> bool {
        &&& outcome matches Ok(Effect::Nothing)
        &&& after.input_mode == InputMode::Adding
        &&& after.input_field == InputFieldType::Title
        &&& same_list(after, before)
        &&& same_typed(after, before)
        &&& after.error == before.error
        &&& after.same_settings(&before)
    }

    fn execute(&self, app: &mut AppContext) -> (r: Result<Effect, CommandError>) {
        app.input_mode = InputMode::Adding;
        app.input_field = InputFieldType::Title;
        Ok(Effect::Nothing)
    }
}

/// Makes a task of what was typed in. There has to be a title, and what
/// was typed in as the date, if anything, has to be a date.
pub struct AddTaskCommand;

impl Command for AddTaskCommand {
    open spec fn meant(
        &self,
        before: AppContext,
        after: AppContext,
        outcome: Result<Effect, CommandError>,
    ) -> bool {
        &&& same_list(after, before)
        &&& after.input_export_path == before.input_export_path
        &&& after.input_mode == before.input_mode
        &&& after.input_field == before.input_field
        &&& after.error == before.error
        &&& after.same_settings(&before)
        &&& if before.input_title@.len() == 0 {
            &&& outcome matches Err(CommandError::EmptyTitle)
            &&& same_typed(after, before)
        } else if before.input_date@.len() > 0 && parsed_date(before.input_date@) is None {
            &&& outcome matches Err(CommandError::InvalidDate)
            &&& after.input_title == before.input_title
            &&& after.input_description == before.input_description
            &&& after.input_date@.len() == 0
        } else {
            &&& outcome matches Ok(Effect::AddTask(task))
            &&& task.id == 0
            &&& task.title@ == before.input_title@
            &&& task.description@ == before.input_description@
            &&& !task.completed
            &&& task.priority == Priority::Low
            &&& task.date == if before.input_date@.len() == 0 {
                TaskDate(None)
            } else {
                TaskDate(parsed_date(before.input_date@))
            }
            &&& after.input_title@.len() == 0
            &&& after.input_description@.len() == 0
            &&& after.input_date@.len() == 0
        }
    }

    fn execute(&self, app: &mut AppContext) -> (r: Result<Effect, CommandError>) {
        let mut task = Task::new();
        if app.input_title.as_str().is_empty() {
            return Err(CommandError::EmptyTitle);
        }
        if !app.input_date.as_str().is_empty() {
            let typed = take_text(&mut app.input_date);
            match TaskDate::try_from(typed) {
                Ok(date) => {
                    task.date = date;
                },
                Err(_) => {
                    return Err(CommandError::InvalidDate);
                },
            }
        }
        task.title = take_text(&mut app.input_title);
        task.description = take_text(&mut app.input_description);
        Ok(Effect::AddTask(task))
    }
}

/// The text that the date field shows for a due date: the date in the form
/// day-month-year, and nothing where there is no date.
pub open spec fn date_text(date: TaskDate) -> Seq<char> {
    match date.0 {
        None => Seq::empty(),
        Some(day) => match formatted_date(day.year as int, day.month as int, day.day as int) {
            Some(text) => text,
            None => Seq::empty(),
        },
    }
}

/// Begins the editing of the task that is picked out: its title, its
/// description and its date go into the fields, and the keys go to the
/// title field. With no task picked out nothing happens.
pub struct StartEditingExistingTaskCommand;

impl Command for StartEditingExistingTaskCommand {
    open spec fn meant(
        &self,
        before: AppContext,
        after: AppContext,
        outcome: Result<Effect, CommandError>,
    ) -> bool {
        &&& outcome matches Ok(Effect::Nothing)
        &&& same_list(after, before)
        &&& after.input_export_path == before.input_export_path
        &&& after.error == before.error
        &&& after.same_settings(&before)
        &&& match before.task_list.current() {
            None => {
                &&& same_typed(after, before)
                &&& after.input_mode == before.input_mode
                &&& after.input_field == before.input_field
            },
            Some(i) => {
                &&& after.input_title@ == before.task_list.items@[i].title@
                &&& after.input_description@ == before.task_list.items@[i].description@
                &&& after.input_date@ == date_text(before.task_list.items@[i].date)
                &&& after.input_mode == InputMode::EditingExisting
                &&& after.input_field == InputFieldType::Title
            },
        }
    }

    fn execute(&self, app: &mut AppContext) -> (r: Result<Effect, CommandError>) {
        match app.task_list.state.selected() {
            Some(index) => {
                if index < app.task_list.items.len() {
                    app.input_title = app.task_list.items[index].title.clone();
                    app.input_description = app.task_list.items[index].description.clone();
                    app.input_date = match app.task_list.items[index].date.0 {
                        Some(day) => match day.format() {
                            Some(text) => text,
                            None => String::new(),
                        },
                        None => String::new(),
                    };
                    app.input_mode = InputMode::EditingExisting;
                    app.input_field = InputFieldType::Title;
                }
            },
            None => {},
        }
        Ok(Effect::Nothing)
    }
}

/// Ends the editing of the task that is picked out: what stands in the
/// fields becomes its title, its description and its date. There has to be
/// a title, and what was typed in as the date, if anything, has to be a
/// date. With no task picked out nothing happens.
pub struct FinishEditingExistingTaskCommand;

impl Command for FinishEditingExistingTaskCommand {
    open spec fn meant(
        &self,
        before: AppContext,
        after: AppContext,
        outcome: Result<Effect, CommandError>,
    ) -> bool {
        &&& after.task_list.state == before.task_list.state
        &&& after.task_list.items@.len() == before.task_list.items@.len()
        &&& after.input_export_path == before.input_export_path
        &&& after.input_mode == before.input_mode
        &&& after.input_field == before.input_field
        &&& after.error == before.error
        &&& after.same_settings(&before)
        &&& match before.task_list.current() {
            None => {
                &&& outcome matches Ok(Effect::Nothing)
                &&& same_list(after, before)
                &&& same_typed(after, before)
            },
            Some(i) => if before.input_title@.len() == 0 {
                &&& outcome matches Err(CommandError::EmptyTitle)
                &&& same_list(after, before)
                &&& same_typed(after, before)
            } else if before.input_date@.len() > 0 && parsed_date(before.input_date@) is None {
                &&& outcome matches Err(CommandError::InvalidDate)
                &&& same_list(after, before)
                &&& after.input_title == before.input_title
                &&& after.input_description == before.input_description
                &&& after.input_date@.len() == 0
            } else {
                let edited = after.task_list.items@[i];
                &&& outcome matches Ok(Effect::UpdateTask(task))
                &&& task == edited
                &&& edited.id == before.task_list.items@[i].id
                &&& edited.completed == before.task_list.items@[i].completed
                &&& edited.priority == before.task_list.items@[i].priority
                &&& edited.title@ == before.input_title@
                &&& edited.description@ == before.input_description@
                &&& edited.date == if before.input_date@.len() == 0 {
                    TaskDate(None)
                } else {
                    TaskDate(parsed_date(before.input_date@))
                }
                &&& forall|k: int|
                    0 <= k < before.task_list.items@.len() && k != i
                        ==> #[trigger] after.task_list.items@[k] == before.task_list.items@[k]
                &&& after.input_title@.len() == 0
                &&& after.input_description@.len() == 0
                &&& after.input_date@.len() == 0
            },
        }
    }

    fn execute(&self, app: &mut AppContext) -> (r: Result<Effect, CommandError>) {
        match app.task_list.state.selected() {
            Some(index) => {
                if index < app.task_list.items.len() {
                    if app.input_title.as_str().is_empty() {
                        return Err(CommandError::EmptyTitle);
                    }
                    if !app.input_date.as_str().is_empty() {
                        let typed = take_text(&mut app.input_date);
                        match TaskDate::try_from(typed) {
                            Ok(date) => {
                                app.task_list.items[index].date = date;
                            },
                            Err(_) => {
                                return Err(CommandError::InvalidDate);
                            },
                        }
                    } else {
                        app.task_list.items[index].date = TaskDate(None);
                    }
                    let title = take_text(&mut app.input_title);
                    let description = take_text(&mut app.input_description);
                    app.task_list.items[index].title = title;
                    app.task_list.items[index].description = description;
                    let task = copy_task(&app.task_list.items[index]);
                    return Ok(Effect::UpdateTask(task));
                }
            },
            None => {},
        }
        Ok(Effect::Nothing)
    }
}

/// Whether two states differ in nothing but the items of the list.
pub open spec fn same_but_items(after: AppContext, before: AppContext) -> bool {
    &&& after.task_list.state == before.task_list.state
    &&& same_typed(after, before)
    &&& after.input_mode == before.input_mode
    &&& after.input_field == before.input_field
    &&& after.error == before.error
    &&& after.same_settings(&before)
}

/// Turns the task that is picked out from done to not done or back. With
/// no task picked out nothing happens.
pub struct ToggleTaskStatusCommand;

impl Command for ToggleTaskStatusCommand {
    open spec fn meant(
        &self,
        before: AppContext,
        after: AppContext,
        outcome: Result<Effect, CommandError>,
    ) -> bool {
        &&& same_but_items(after, before)
        &&& match before.task_list.current() {
            None => outcome matches Ok(Effect::Nothing) && same_list(after, before),
            Some(i) => {
                let was = before.task_list.items@[i];
                &&& outcome matches Ok(Effect::SetCompleted { id, completed })
                &&& id == was.id
                &&& completed == !was.completed
                &&& after.task_list.items@ == before.task_list.items@.update(
                    i,
                    Task { completed: !was.completed, ..was },
                )
            },
        }
    }

    fn execute(&self, app: &mut AppContext) -> (r: Result<Effect, CommandError>) {
        match app.task_list.state.selected() {
            Some(index) => {
                if index < app.task_list.items.len() {
                    let completed: bool = !app.task_list.items[index].completed;
                    app.task_list.items[index].completed = completed;
                    let id: i32 = app.task_list.items[index].id;
                    assert(app.task_list.items@ =~= old(app).task_list.items@.update(
                        index as int,
                        Task { completed, ..old(app).task_list.items@[index as int] },
                    ));
                    return Ok(Effect::SetCompleted { id, completed });
                }
            },
            None => {},
        }
        Ok(Effect::Nothing)
    }
}

/// Moves the task that is picked out on to the next priority. With no task
/// picked out nothing happens.
pub struct ToggleItemPriorityCommand;

impl Command for ToggleItemPriorityCommand {
    open spec fn meant(
        &self,
        before: AppContext,
        after: AppContext,
        outcome: Result<Effect, CommandError>,
    ) -> bool {
        &&& same_but_items(after, before)
        &&& match before.task_list.current() {
            None => outcome matches Ok(Effect::Nothing) && same_list(after, before),
            Some(i) => {
                let was = before.task_list.items@[i];
                &&& outcome matches Ok(Effect::SetPriority { id, priority })
                &&& id == was.id
                &&& priority.rank() == (if was.priority.rank() == 1 {
                    3
                } else {
                    was.priority.rank() - 1
                })
                &&& after.task_list.items@ == before.task_list.items@.update(
                    i,
                    Task { priority, ..was },
                )
            },
        }
    }

    fn execute(&self, app: &mut AppContext) -> (r: Result<Effect, CommandError>) {
        match app.task_list.state.selected() {
            Some(index) => {
                if index < app.task_list.items.len() {
                    let priority: Priority = app.task_list.items[index].priority.next();
                    app.task_list.items[index].priority = priority;
                    let id: i32 = app.task_list.items[index].id;
                    assert(app.task_list.items@ =~= old(app).task_list.items@.update(
                        index as int,
                        Task { priority, ..old(app).task_list.items@[index as int] },
                    ));
                    return Ok(Effect::SetPriority { id, priority });
                }
            },
            None => {},
        }
        Ok(Effect::Nothing)
    }
}

/// Takes the task that is picked out off the list. With no task picked out
/// nothing happens.
pub struct DeleteTaskCommand;

impl Command for DeleteTaskCommand {
    open spec fn meant(
        &self,
        before: AppContext,
        after: AppContext,
        outcome: Result<Effect, CommandError>,
    ) -> bool {
        &&& same_but_items(after, before)
        &&& match before.task_list.current() {
            None => outcome matches Ok(Effect::Nothing) && same_list(after, before),
            Some(i) => {
                &&& outcome matches Ok(Effect::DeleteTask { id })
                &&& id == before.task_list.items@[i].id
                &&& after.task_list.items@ == before.task_list.items@.remove(i)
            },
        }
    }

    fn execute(&self, app: &mut AppContext) -> (r: Result<Effect, CommandError>) {
        match app.task_list.state.selected() {
            Some(index) => {
                if index < app.task_list.items.len() {
                    let id: i32 = app.task_list.items[index].id;
                    app.task_list.items.remove(index);
                    return Ok(Effect::DeleteTask { id });
                }
            },
            None => {},
        }
        Ok(Effect::Nothing)
    }
}

/// Gives up the adding or the editing: the fields are emptied, the error
/// is gone, and the keys work on the list again.
pub struct StopEditingCommand;

impl Command for StopEditingCommand {
    open spec fn meant(
        &self,
        before: AppContext,
        after: AppContext,
        outcome: Result<Effect, CommandError>,
    ) -> bool {
        &&& outcome matches Ok(Effect::Nothing)
        &&& after.input_mode == InputMode::View
        &&& after.input_title@.len() == 0
        &&& after.input_description@.len() == 0
        &&& after.input_date@.len() == 0
        &&& after.error is None
        &&& same_list(after, before)
        &&& after.input_export_path == before.input_export_path
        &&& after.input_field == before.input_field
        &&& after.same_settings(&before)
    }

    fn execute(&self, app: &mut AppContext) -> (r: Result<Effect, CommandError>) {
        app.input_mode = InputMode::View;
        app.input_title.clear();
        app.input_description.clear();
        app.input_date.clear();
        app.error = None;
        Ok(Effect::Nothing)
    }
}

/// Begins the export: the keys go to the path field, and the path at which
/// the calendar file would go by default is asked for.
pub struct EnterExportModeCommand;

impl Command for EnterExportModeCommand {
    open spec fn meant(
        &self,
        before: AppContext,
        after: AppContext,
        outcome: Result<Effect, CommandError>,
    ) -> bool {
        &&& outcome matches Ok(Effect::ResolveExportPath)
        &&& after.input_mode == InputMode::Export
        &&& after.error is None
        &&& same_list(after, before)
        &&& same_typed(after, before)
        &&& after.input_field == before.input_field
        &&& after.same_settings(&before)
    }

    fn execute(&self, app: &mut AppContext) -> (r: Result<Effect, CommandError>) {
        app.input_mode = InputMode::Export;
        app.error = None;
        Ok(Effect::ResolveExportPath)
    }
}

impl EnterExportModeCommand {
    /// Takes the answer to the question where the calendar file would go by
    /// default: the path goes into the path field. Where the directory in
    /// which the program runs could not be found out, there is no path, and
    /// the command fails after all.
    pub fn resolve(&self, app: &mut AppContext, path: Option<String>) -> (r: Result<
        (),
        CommandError,
    >)
        ensures
            path is None ==> {
                &&& r == Err::<(), CommandError>(CommandError::NoCurrentDir)
                &&& *final(app) == *old(app)
            },
            path matches Some(found) ==> {
                &&& r == Ok::<(), CommandError>(())
                &&& final(app).input_export_path == found
                &&& same_list(*final(app), *old(app))
                &&& final(app).input_title == old(app).input_title
                &&& final(app).input_description == old(app).input_description
                &&& final(app).input_date == old(app).input_date
                &&& final(app).input_mode == old(app).input_mode
                &&& final(app).input_field == old(app).input_field
                &&& final(app).error == old(app).error
                &&& final(app).same_settings(old(app))
            },
    {
        match path {
            None => Err(CommandError::NoCurrentDir),
            Some(found) => {
                app.input_export_path = found;
                Ok(())
            },
        }
    }
}

/// The name that exported calendars bear.
pub const CALENDAR_NAME: &'static str = "task rustler";

/// Ends the export: the tasks on the list are to be written, as a calendar,
/// to the file whose path stands in the path field.
pub struct FinishingExportCommand;

impl Command for FinishingExportCommand {
    open spec fn meant(
        &self,
        before: AppContext,
        after: AppContext,
        outcome: Result<Effect, CommandError>,
    ) -> bool {
        &&& after == before
        &&& outcome matches Ok(Effect::WriteCalendar { path, calendar })
        &&& path@ == before.input_export_path@
        &&& calendar.name@ == CALENDAR_NAME@
        &&& calendar.components@.len() == before.task_list.items@.len()
        &&& forall|i: int|
            0 <= i < before.task_list.items@.len() ==> describes(
                #[trigger] calendar.components@[i],
                before.task_list.items@[i],
            )
    }

    fn execute(&self, app: &mut AppContext) -> (r: Result<Effect, CommandError>) {
        let calendar = export_tasks_to_icalendar(CALENDAR_NAME, app.task_list.items.as_slice());
        Ok(Effect::WriteCalendar { path: app.input_export_path.clone(), calendar })
    }
}

/// Gives up the export: the path field is emptied, the error is gone, and
/// the keys work on the list again.
pub struct ExitExportModeCommand;

impl Command for ExitExportModeCommand {
    open spec fn meant(
        &self,
        before: AppContext,
        after: AppContext,
        outcome: Result<Effect, CommandError>,
    ) -> bool {
        &&& outcome matches Ok(Effect::Nothing)
        &&& after.input_mode == InputMode::View
        &&& after.input_export_path@.len() == 0
        &&& after.error is None
        &&& same_list(after, before)
        &&& after.input_title == before.input_title
        &&& after.input_description == before.input_description
        &&& after.input_date == before.input_date
        &&& after.input_field == before.input_field
        &&& after.same_settings(&before)
    }

    fn execute(&self, app: &mut AppContext) -> (r: Result<Effect, CommandError>) {
        app.input_mode = InputMode::View;
        app.input_export_path.clear();
        app.error = None;
        Ok(Effect::Nothing)
    }
}

} // verus!
