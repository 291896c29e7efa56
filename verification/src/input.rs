use crate::app::{AppContext, InputMode};
use crate::command::{
    AddTaskCommand, Command, CommandError, DeleteTaskCommand, Effect, EnterAddModeCommand,
    EnterExportModeCommand, ExitExportModeCommand, FinishEditingExistingTaskCommand,
    FinishingExportCommand, StartEditingExistingTaskCommand, StopEditingCommand,
    ToggleItemPriorityCommand, ToggleTaskStatusCommand,
};
use vstd::prelude::*;

verus! {

/// The key that was pressed.
#[derive(Debug, Clone, Copy, PartialEq, Eq, Structural)]
pub enum KeyCode {
    Char(char),
    Enter,
    Tab,
    Backspace,
    Esc,
    Up,
    Down,
    /// Any key that the program has no use for.
    Other,
}

/// The keys that were held down with it.
#[derive(Debug, Clone, Copy, PartialEq, Eq, Structural)]
pub enum KeyModifiers {
    /// No key was held down.
    Unmodified,
    /// The control key alone was held down.
    Control,
    /// Other keys were held down.
    Other,
}

/// One event of the keyboard.
#[derive(Debug, Clone, Copy, PartialEq, Eq, Structural)]
pub struct KeyEvent {
    pub code: KeyCode,
    pub modifiers: KeyModifiers,
    /// Whether the key was let go rather than pressed.
    pub released: bool,
}

/// What the main loop does after a key.
#[derive(Debug, Clone, PartialEq, Eq)]
pub enum Turn {
    /// Leave the program.
    Quit,
    /// Do what is left to do outside, then show the screen again.
    Continue(Effect),
}

/// The line that is shown for an error.
pub open spec fn message(error: CommandError) -> Seq<char> {
    match error {
        CommandError::EmptyTitle => "You must insert at least a title for the task"@,
        CommandError::InvalidDate => "Invalid date format, use dd-mm-yyyy"@,
        CommandError::NoCurrentDir => "Could not access to the current directory"@,
    }
}

/// Whether `after` is `mid` with this error shown.
pub open spec fn with_error(after: AppContext, mid: AppContext, error: Option<Seq<char>>) -> bool {
    &&& after.task_list == mid.task_list
    &&& after.input_title == mid.input_title
    &&& after.input_description == mid.input_description
    &&& after.input_date == mid.input_date
    &&& after.input_export_path == mid.input_export_path
    &&& after.input_mode == mid.input_mode
    &&& after.input_field == mid.input_field
    &&& after.same_settings(&mid)
    &&& match error {
        None => after.error is None,
        Some(line) => after.error matches Some(shown) && shown@ == line,
    }
}

/// Whether `after` is `mid` with the keys working on the list.
pub open spec fn back_to_view(after: AppContext, mid: AppContext) -> bool {
    &&& after.task_list == mid.task_list
    &&& after.input_title == mid.input_title
    &&& after.input_description == mid.input_description
    &&& after.input_date == mid.input_date
    &&& after.input_export_path == mid.input_export_path
    &&& after.input_field == mid.input_field
    &&& after.error == mid.error
    &&& after.same_settings(&mid)
    &&& after.input_mode == InputMode::View
}

/// Whether the command was carried out and its error, if it had one, put
/// on show: a command that went through leaves no error on show and hands
/// on what is left to do; one that did not shows its error and leaves
/// nothing to do.
pub open spec fn settled<C: Command>(
    command: C,
    before: AppContext,
    after: AppContext,
    effect: Effect,
) -> bool {
    exists|mid: AppContext, outcome: Result<Effect, CommandError>|
        {
            &&& #[trigger] command.meant(before, mid, outcome)
            &&& match outcome {
                Ok(left) => effect == left && with_error(after, mid, None),
                Err(error) => effect is Nothing && with_error(after, mid, Some(message(error))),
            }
        }
}

/// Whether the command was carried out and its error, if it had one,
/// passed over.
pub open spec fn ran<C: Command>(
    command: C,
    before: AppContext,
    after: AppContext,
    effect: Effect,
) -> bool {
    exists|outcome: Result<Effect, CommandError>|
        {
            &&& #[trigger] command.meant(before, after, outcome)
            &&& match outcome {
                Ok(left) => effect == left,
                Err(_) => effect is Nothing,
            }
        }
}

/// Carries a command out and puts its error on show, if it has one.
pub fn handle_errors<T: Command>(command: T, app: &mut AppContext) -> (effect: Effect)
    ensures
        settled(command, *old(app), *final(app), effect),
{
    let outcome = command.execute(app);
    let ghost mid = *app;
    let ghost seen = outcome;
    match outcome {
        Err(error) => {
            app.error = Some(error.to_string());
            assert(command.meant(*old(app), mid, seen));
            Effect::Nothing
        },
        Ok(left) => {
            app.error = None;
            assert(command.meant(*old(app), mid, seen));
            left
        },
    }
}

/// Carries a command out and passes over its error, if it has one.
fn run<T: Command>(command: T, app: &mut AppContext) -> (effect: Effect)
    ensures
        ran(command, *old(app), *final(app), effect),
{
    let outcome = command.execute(app);
    let ghost seen = outcome;
    match outcome {
        Err(_) => {
            assert(command.meant(*old(app), *app, seen));
            Effect::Nothing
        },
        Ok(left) => {
            assert(command.meant(*old(app), *app, seen));
            left
        },
    }
}

/// Whether the state after is the state before with the keys working on
/// the list, where no error is on show, and the state before itself where
/// one is.
pub open spec fn leaves_on_success(after: AppContext, before: AppContext) -> bool {
    if before.error is None {
        back_to_view(after, before)
    } else {
        after == before
    }
}

fn leave_on_success(app: &mut AppContext)
    ensures
        leaves_on_success(*final(app), *old(app)),
{
    if app.error.is_none() {
        app.input_mode = InputMode::View;
    }
}

/// What a key does while the keys work on the list.
pub open spec fn view_mode_does(key: KeyEvent, before: AppContext, after: AppContext, effect: Effect) -> bool {
    match (key.code, key.modifiers) {
        (KeyCode::Char('a'), KeyModifiers::Unmodified) => ran(
            EnterAddModeCommand,
            before,
            after,
            effect,
        ),
        (KeyCode::Down, KeyModifiers::Unmodified) => {
            &&& effect is Nothing
            &&& after.same_but_selection(&before)
            &&& after.task_list.state.offset == before.task_list.state.offset
            &&& after.task_list.state.selected == Some(
                match before.task_list.state.selected {
                    None => 0usize,
                    Some(i) => if i == usize::MAX {
                        i
                    } else {
                        (i + 1) as usize
                    },
                },
            )
        },
        (KeyCode::Up, KeyModifiers::Unmodified) => {
            &&& effect is Nothing
            &&& after.same_but_selection(&before)
            &&& after.task_list.state.offset == before.task_list.state.offset
            &&& after.task_list.state.selected == Some(
                match before.task_list.state.selected {
                    None => usize::MAX,
                    Some(i) => if i == 0 {
                        0usize
                    } else {
                        (i - 1) as usize
                    },
                },
            )
        },
        (KeyCode::Char(' '), KeyModifiers::Unmodified) => ran(
            ToggleTaskStatusCommand,
            before,
            after,
            effect,
        ),
        (KeyCode::Char('m'), KeyModifiers::Unmodified) => ran(
            StartEditingExistingTaskCommand,
            before,
            after,
            effect,
        ),
        (KeyCode::Char('p'), KeyModifiers::Unmodified) => ran(
            ToggleItemPriorityCommand,
            before,
            after,
            effect,
        ),
        (KeyCode::Char('s'), KeyModifiers::Unmodified) => {
            &&& effect is Nothing
            &&& after.sort_order == before.sort_order.flipped()
            &&& crate::app::sorted_from(
                before.task_list.items@,
                after.task_list.items@,
                crate::app::SortField::Priority,
                before.sort_order.flipped(),
            )
            &&& after.task_list.state == before.task_list.state
            &&& after.same_inputs(&before)
        },
        (KeyCode::Char('t'), KeyModifiers::Unmodified) => {
            &&& effect is Nothing
            &&& after.sort_order == before.sort_order.flipped()
            &&& crate::app::sorted_from(
                before.task_list.items@,
                after.task_list.items@,
                crate::app::SortField::Date,
                before.sort_order.flipped(),
            )
            &&& after.task_list.state == before.task_list.state
            &&& after.same_inputs(&before)
        },
        (KeyCode::Char('d'), KeyModifiers::Control) => ran(
            DeleteTaskCommand,
            before,
            after,
            effect,
        ),
        (KeyCode::Char('e'), KeyModifiers::Control) => settled(
            EnterExportModeCommand,
            before,
            after,
            effect,
        ),
        _ => effect is Nothing && after == before,
    }
}

/// Handles a key while the keys work on the list: `a` begins the adding of
/// a task, the arrows move the selection, the space bar turns the task that
/// is picked out from done to not done or back, `m` begins its editing, `p`
/// moves it on to the next priority, `s` and `t` sort the list by priority
/// and by date, control with `d` deletes the task, control with `e` begins
/// the export. Any other key does nothing.
pub fn handle_key_event_view_mode(key: KeyEvent, app: &mut AppContext) -> (effect: Effect)
    ensures
        view_mode_does(key, *old(app), *final(app), effect),
{
    match (key.code, key.modifiers) {
        (KeyCode::Char('a'), KeyModifiers::Unmodified) => run(EnterAddModeCommand, app),
        (KeyCode::Down, KeyModifiers::Unmodified) => {
            app.select_next();
            Effect::Nothing
        },
        (KeyCode::Up, KeyModifiers::Unmodified) => {
            app.select_previous();
            Effect::Nothing
        },
        (KeyCode::Char(' '), KeyModifiers::Unmodified) => run(ToggleTaskStatusCommand, app),
        (KeyCode::Char('m'), KeyModifiers::Unmodified) => run(StartEditingExistingTaskCommand, app),
        (KeyCode::Char('p'), KeyModifiers::Unmodified) => run(ToggleItemPriorityCommand, app),
        (KeyCode::Char('s'), KeyModifiers::Unmodified) => {
            app.sort_by_priority();
            Effect::Nothing
        },
        (KeyCode::Char('t'), KeyModifiers::Unmodified) => {
            app.sort_by_date();
            Effect::Nothing
        },
        (KeyCode::Char('d'), KeyModifiers::Control) => run(DeleteTaskCommand, app),
        (KeyCode::Char('e'), KeyModifiers::Control) => handle_errors(EnterExportModeCommand, app),
        _ => Effect::Nothing,
    }
}

/// What a key does while a task is typed in, with `command` as the command
/// that the enter key carries out.
pub open spec fn typing_mode_does<C: Command>(
    command: C,
    key: KeyCode,
    before: AppContext,
    after: AppContext,
    effect: Effect,
) -> bool {
    match key {
        KeyCode::Enter => exists|mid: AppContext|
            #[trigger] settled(command, before, mid, effect) && leaves_on_success(after, mid),
        KeyCode::Tab => {
            &&& effect is Nothing
            &&& after.input_field == before.input_field.following()
            &&& after.same_but_field(&before)
        },
        KeyCode::Char(c) => {
            &&& effect is Nothing
            &&& after.typed(before.input_field) == before.typed(before.input_field).push(c)
            &&& after.same_but_typed(&before)
        },
        KeyCode::Backspace => {
            &&& effect is Nothing
            &&& after.typed(before.input_field) == if before.typed(before.input_field).len()
                == 0 {
                before.typed(before.input_field)
            } else {
                before.typed(before.input_field).drop_last()
            }
            &&& after.same_but_typed(&before)
        },
        KeyCode::Esc => ran(StopEditingCommand, before, after, effect),
        _ => effect is Nothing && after == before,
    }
}

/// Handles a key while a new task is typed in: the enter key makes the
/// task and, if that goes through, gives the keys back to the list; the
/// tabulator moves on to the next field; a character goes into the field;
/// the backspace key takes one off; escape gives up.
pub fn handle_key_event_adding_mode(key: KeyCode, app: &mut AppContext) -> (effect: Effect)
    ensures
        typing_mode_does(AddTaskCommand, key, *old(app), *final(app), effect),
{
    match key {
        KeyCode::Enter => {
            let effect = handle_errors(AddTaskCommand, app);
            let ghost mid = *app;
            leave_on_success(app);
            assert(settled(AddTaskCommand, *old(app), mid, effect));
            effect
        },
        KeyCode::Tab => {
            app.next_input_field();
            Effect::Nothing
        },
        KeyCode::Char(c) => {
            app.handle_char_input(c);
            Effect::Nothing
        },
        KeyCode::Backspace => {
            app.handle_backspace();
            Effect::Nothing
        },
        KeyCode::Esc => run(StopEditingCommand, app),
        _ => Effect::Nothing,
    }
}

/// Handles a key while a task is edited: as while a new task is typed in,
/// but the enter key ends the editing.
pub fn handle_key_event_editing_existing_mode(key: KeyCode, app: &mut AppContext) -> (effect:
    Effect)
    ensures
        typing_mode_does(FinishEditingExistingTaskCommand, key, *old(app), *final(app), effect),
{
    match key {
        KeyCode::Tab => {
            app.next_input_field();
            Effect::Nothing
        },
        KeyCode::Enter => {
            let effect = handle_errors(FinishEditingExistingTaskCommand, app);
            let ghost mid = *app;
            leave_on_success(app);
            assert(settled(FinishEditingExistingTaskCommand, *old(app), mid, effect));
            effect
        },
        KeyCode::Char(c) => {
            app.handle_char_input(c);
            Effect::Nothing
        },
        KeyCode::Backspace => {
            app.handle_backspace();
            Effect::Nothing
        },
        KeyCode::Esc => run(StopEditingCommand, app),
        _ => Effect::Nothing,
    }
}

/// Whether two states differ in nothing but the path field.
pub open spec fn same_but_path(after: AppContext, before: AppContext) -> bool {
    &&& after.task_list == before.task_list
    &&& after.input_title == before.input_title
    &&& after.input_description == before.input_description
    &&& after.input_date == before.input_date
    &&& after.input_mode == before.input_mode
    &&& after.input_field == before.input_field
    &&& after.error == before.error
    &&& after.same_settings(&before)
}

/// What a key does while the path of the calendar file is typed in.
pub open spec fn export_mode_does(
    key: KeyCode,
    before: AppContext,
    after: AppContext,
    effect: Effect,
) -> bool {
    match key {
        KeyCode::Esc => ran(ExitExportModeCommand, before, after, effect),
        KeyCode::Enter => settled(FinishingExportCommand, before, after, effect),
        KeyCode::Char(c) => {
            &&& effect is Nothing
            &&& after.input_export_path@ == before.input_export_path@.push(c)
            &&& same_but_path(after, before)
        },
        KeyCode::Backspace => {
            &&& effect is Nothing
            &&& after.input_export_path@ == if before.input_export_path@.len() == 0 {
                before.input_export_path@
            } else {
                before.input_export_path@.drop_last()
            }
            &&& same_but_path(after, before)
        },
        _ => effect is Nothing && after == before,
    }
}

/// Handles a key while the path of the calendar file is typed in: escape
/// gives up; the enter key has the calendar written; a character goes into
/// the path; the backspace key takes one off. The keys go back to the list
/// only once the file has been written: see `export_finished`.
pub fn handle_key_event_export_mode(key: KeyCode, app: &mut AppContext) -> (effect: Effect)
    ensures
        export_mode_does(key, *old(app), *final(app), effect),
{
    match key {
        KeyCode::Esc => run(ExitExportModeCommand, app),
        KeyCode::Enter => handle_errors(FinishingExportCommand, app),
        KeyCode::Char(c) => {
            app.input_export_path.push(c);
            Effect::Nothing
        },
        KeyCode::Backspace => {
            app.input_export_path.pop();
            Effect::Nothing
        },
        _ => Effect::Nothing,
    }
}

/// Takes note of how the writing of the calendar file went: where it went
/// well, no error is on show and the keys work on the list again; where it
/// did not, the error is on show and the path can be typed in anew.
pub fn export_finished(app: &mut AppContext, failure: Option<String>)
    ensures
        failure is None ==> exists|mid: AppContext|
            #[trigger] with_error(mid, *old(app), None) && back_to_view(*final(app), mid),
        failure matches Some(line) ==> with_error(*final(app), *old(app), Some(line@)),
{
    match failure {
        None => {
            app.error = None;
            let ghost mid = *app;
            app.input_mode = InputMode::View;
            assert(with_error(mid, *old(app), None));
        },
        Some(line) => {
            app.error = Some(line);
        },
    }
}

/// Whether two states differ in nothing but whether help is shown.
pub open spec fn same_but_help(after: AppContext, before: AppContext) -> bool {
    &&& after.task_list == before.task_list
    &&& after.input_title == before.input_title
    &&& after.input_description == before.input_description
    &&& after.input_date == before.input_date
    &&& after.input_export_path == before.input_export_path
    &&& after.input_mode == before.input_mode
    &&& after.input_field == before.input_field
    &&& after.error == before.error
    &&& after.db_path == before.db_path
    &&& after.sort_order == before.sort_order
}

/// What the main loop makes of one event of the keyboard.
pub open spec fn key_does(key: KeyEvent, before: AppContext, after: AppContext, turn: Turn) -> bool {
    if key.released {
        turn matches Turn::Continue(Effect::Nothing) && after == before
    } else {
        match before.input_mode {
            InputMode::View => match (key.code, key.modifiers) {
                (KeyCode::Char('q'), KeyModifiers::Control) => turn is Quit && after == before,
                (KeyCode::Char('h'), KeyModifiers::Unmodified) => {
                    &&& turn matches Turn::Continue(Effect::Nothing)
                    &&& after.show_help == !before.show_help
                    &&& same_but_help(after, before)
                },
                (KeyCode::Esc, KeyModifiers::Unmodified) => {
                    &&& turn matches Turn::Continue(Effect::Nothing)
                    &&& !after.show_help
                    &&& same_but_help(after, before)
                },
                _ => turn matches Turn::Continue(effect) && view_mode_does(
                    key,
                    before,
                    after,
                    effect,
                ),
            },
            InputMode::Adding => turn matches Turn::Continue(effect) && typing_mode_does(
                AddTaskCommand,
                key.code,
                before,
                after,
                effect,
            ),
            InputMode::EditingExisting => turn matches Turn::Continue(effect) && typing_mode_does(
                FinishEditingExistingTaskCommand,
                key.code,
                before,
                after,
                effect,
            ),
            InputMode::Export => turn matches Turn::Continue(effect) && export_mode_does(
                key.code,
                before,
                after,
                effect,
            ),
        }
    }
}

/// One turn of the main loop: takes an event of the keyboard and says
/// whether the program goes on and what is left to do outside. A key that
/// was let go does nothing. While the keys work on the list, control with
/// `q` leaves the program, `h` shows or hides the help, and escape hides
/// it; every other key goes to the handler of the mode the program is in.
pub fn handle_key(key: KeyEvent, app: &mut AppContext) -> (turn: Turn)
    ensures
        key_does(key, *old(app), *final(app), turn),
{
    if key.released {
        return Turn::Continue(Effect::Nothing);
    }
    match app.input_mode {
        InputMode::View => match (key.code, key.modifiers) {
            (KeyCode::Char('q'), KeyModifiers::Control) => Turn::Quit,
            (KeyCode::Char('h'), KeyModifiers::Unmodified) => {
                app.show_help = !app.show_help;
                Turn::Continue(Effect::Nothing)
            },
            (KeyCode::Esc, KeyModifiers::Unmodified) => {
                if app.show_help {
                    app.show_help = false;
                }
                Turn::Continue(Effect::Nothing)
            },
            _ => Turn::Continue(handle_key_event_view_mode(key, app)),
        },
        InputMode::Adding => Turn::Continue(handle_key_event_adding_mode(key.code, app)),
        InputMode::EditingExisting => Turn::Continue(
            handle_key_event_editing_existing_mode(key.code, app),
        ),
        InputMode::Export => Turn::Continue(handle_key_event_export_mode(key.code, app)),
    }
}

} // verus!
