use task_rustler::app::{AppContext, InputFieldType, InputMode};
use task_rustler::command::{
    AddTaskCommand, Command, CommandError, DeleteTaskCommand, Effect, EnterAddModeCommand,
    EnterExportModeCommand, ExitExportModeCommand, FinishEditingExistingTaskCommand,
    FinishingExportCommand, StartEditingExistingTaskCommand, StopEditingCommand,
    ToggleItemPriorityCommand, ToggleTaskStatusCommand, CALENDAR_NAME,
};
use task_rustler::date::{Date, TaskDate};
use task_rustler::export::TodoStatus;
use task_rustler::task::{Priority, Task};

fn task(id: i32, title: &str, priority: Priority, date: TaskDate) -> Task {
    Task {
        id,
        title: title.to_string(),
        description: format!("about {}", title),
        completed: false,
        priority,
        date,
    }
}

fn app_with_three() -> AppContext {
    let mut app = AppContext::new(String::new());
    app.task_list.items = vec![
        task(1, "one", Priority::Low, TaskDate(Some(Date { year: 2024, month: 10, day: 15 }))),
        task(2, "two", Priority::Medium, TaskDate(None)),
        task(3, "three", Priority::High, TaskDate(None)),
    ];
    app
}

#[test]
fn add_task_command_test_wrong_date_format() {
    let mut app = AppContext::new(String::new());
    app.input_title = String::from("test title");
    app.input_description = String::from("test description");
    app.input_date = String::from("invalid date");
    let res = AddTaskCommand.execute(&mut app);
    assert!(res.is_err());
    assert_eq!(res.err().unwrap().to_string(), "Invalid date format, use dd-mm-yyyy")
}

#[test]
fn add_task_command_test_empty_title() {
    let mut app = AppContext::new(String::new());
    app.input_title = String::from("");
    app.input_description = String::from("test description");
    app.input_date = String::from("10-12-2012");
    let res = AddTaskCommand.execute(&mut app);
    assert!(res.is_err());
    assert_eq!(res.err().unwrap().to_string(), "You must insert at least a title for the task");
}

#[test]
fn error_lines() {
    assert_eq!(
        CommandError::NoCurrentDir.to_string(),
        "Could not access to the current directory"
    );
    assert_eq!(CommandError::InvalidDate.to_string(), "Invalid date format, use dd-mm-yyyy");
    assert_eq!(
        CommandError::EmptyTitle.to_string(),
        "You must insert at least a title for the task"
    );
}

#[test]
fn add_task_with_empty_title_touches_nothing() {
    let mut app = AppContext::new(String::new());
    app.input_description = String::from("d");
    app.input_date = String::from("10-12-2012");
    assert_eq!(AddTaskCommand.execute(&mut app), Err(CommandError::EmptyTitle));
    assert_eq!(app.input_description, "d");
    assert_eq!(app.input_date, "10-12-2012");
}

#[test]
fn add_task_with_a_bad_date_empties_the_date_field_only() {
    let mut app = AppContext::new(String::new());
    app.input_title = String::from("t");
    app.input_description = String::from("d");
    app.input_date = String::from("31-02-2024");
    assert_eq!(AddTaskCommand.execute(&mut app), Err(CommandError::InvalidDate));
    assert_eq!(app.input_title, "t");
    assert_eq!(app.input_description, "d");
    assert_eq!(app.input_date, "");
}

#[test]
fn add_task_makes_the_task_and_empties_the_fields() {
    let mut app = AppContext::new(String::new());
    app.input_title = String::from("test title");
    app.input_description = String::from("test description");
    app.input_date = String::from("10-12-2012");
    let expected = Task {
        id: 0,
        title: "test title".to_string(),
        description: "test description".to_string(),
        completed: false,
        priority: Priority::Low,
        date: TaskDate(Some(Date { year: 2012, month: 12, day: 10 })),
    };
    assert_eq!(AddTaskCommand.execute(&mut app), Ok(Effect::AddTask(expected)));
    assert_eq!(app.input_title, "");
    assert_eq!(app.input_description, "");
    assert_eq!(app.input_date, "");
    assert!(app.task_list.items.is_empty());
}

#[test]
fn add_task_without_a_date() {
    let mut app = AppContext::new(String::new());
    app.input_title = String::from("t");
    match AddTaskCommand.execute(&mut app) {
        Ok(Effect::AddTask(task)) => {
            assert_eq!(task.date, TaskDate(None));
            assert_eq!(task.title, "t");
            assert_eq!(task.description, "");
        }
        other => panic!("unexpected {:?}", other),
    }
}

#[test]
fn enter_add_mode() {
    let mut app = app_with_three();
    app.input_field = InputFieldType::Date;
    assert_eq!(EnterAddModeCommand.execute(&mut app), Ok(Effect::Nothing));
    assert_eq!(app.input_mode, InputMode::Adding);
    assert_eq!(app.input_field, InputFieldType::Title);
    assert_eq!(app.task_list.items.len(), 3);
}

#[test]
fn start_editing_fills_the_fields_from_the_selected_task() {
    let mut app = app_with_three();
    app.task_list.state.select(Some(0));
    assert_eq!(StartEditingExistingTaskCommand.execute(&mut app), Ok(Effect::Nothing));
    assert_eq!(app.input_title, "one");
    assert_eq!(app.input_description, "about one");
    assert_eq!(app.input_date, "15-10-2024");
    assert_eq!(app.input_mode, InputMode::EditingExisting);
    assert_eq!(app.input_field, InputFieldType::Title);

    app.task_list.state.select(Some(1));
    StartEditingExistingTaskCommand.execute(&mut app).unwrap();
    assert_eq!(app.input_title, "two");
    assert_eq!(app.input_date, "");
}

#[test]
fn commands_on_the_selection_do_nothing_without_one() {
    let mut app = app_with_three();
    let before = app.task_list.items.clone();
    for selection in [None, Some(3), Some(usize::MAX)] {
        app.task_list.state.select(selection);
        app.input_title = String::from("x");
        assert_eq!(StartEditingExistingTaskCommand.execute(&mut app), Ok(Effect::Nothing));
        assert_eq!(app.input_mode, InputMode::View);
        assert_eq!(FinishEditingExistingTaskCommand.execute(&mut app), Ok(Effect::Nothing));
        assert_eq!(ToggleTaskStatusCommand.execute(&mut app), Ok(Effect::Nothing));
        assert_eq!(ToggleItemPriorityCommand.execute(&mut app), Ok(Effect::Nothing));
        assert_eq!(DeleteTaskCommand.execute(&mut app), Ok(Effect::Nothing));
        assert_eq!(app.task_list.items, before);
        assert_eq!(app.input_title, "x");
    }
}

#[test]
fn finish_editing_writes_the_fields_into_the_selected_task() {
    let mut app = app_with_three();
    app.task_list.state.select(Some(1));
    app.input_title = String::from("new title");
    app.input_description = String::from("new description");
    app.input_date = String::from("01-02-2030");
    let expected = Task {
        id: 2,
        title: "new title".to_string(),
        description: "new description".to_string(),
        completed: false,
        priority: Priority::Medium,
        date: TaskDate(Some(Date { year: 2030, month: 2, day: 1 })),
    };
    assert_eq!(
        FinishEditingExistingTaskCommand.execute(&mut app),
        Ok(Effect::UpdateTask(expected.clone()))
    );
    assert_eq!(app.task_list.items[1], expected);
    assert_eq!(app.task_list.items[0].title, "one");
    assert_eq!(app.task_list.items[2].title, "three");
    assert_eq!(app.input_title, "");
    assert_eq!(app.input_description, "");
    assert_eq!(app.input_date, "");
}

#[test]
fn finish_editing_with_an_empty_date_field_takes_the_date_away() {
    let mut app = app_with_three();
    app.task_list.state.select(Some(0));
    app.input_title = String::from("one again");
    FinishEditingExistingTaskCommand.execute(&mut app).unwrap();
    assert_eq!(app.task_list.items[0].date, TaskDate(None));
    assert_eq!(app.task_list.items[0].title, "one again");
    assert_eq!(app.task_list.items[0].description, "");
}

#[test]
fn finish_editing_fails_as_adding_does() {
    let mut app = app_with_three();
    app.task_list.state.select(Some(0));
    let before = app.task_list.items.clone();
    app.input_date = String::from("15-10-2024");
    assert_eq!(
        FinishEditingExistingTaskCommand.execute(&mut app),
        Err(CommandError::EmptyTitle)
    );
    assert_eq!(app.input_date, "15-10-2024");
    app.input_title = String::from("t");
    app.input_date = String::from("no date");
    assert_eq!(
        FinishEditingExistingTaskCommand.execute(&mut app),
        Err(CommandError::InvalidDate)
    );
    assert_eq!(app.input_date, "");
    assert_eq!(app.input_title, "t");
    assert_eq!(app.task_list.items, before);
}

#[test]
fn toggle_status() {
    let mut app = app_with_three();
    app.task_list.state.select(Some(2));
    assert_eq!(
        ToggleTaskStatusCommand.execute(&mut app),
        Ok(Effect::SetCompleted { id: 3, completed: true })
    );
    assert!(app.task_list.items[2].completed);
    assert!(!app.task_list.items[0].completed);
    assert_eq!(
        ToggleTaskStatusCommand.execute(&mut app),
        Ok(Effect::SetCompleted { id: 3, completed: false })
    );
    assert!(!app.task_list.items[2].completed);
}

#[test]
fn toggle_priority_goes_round() {
    let mut app = app_with_three();
    app.task_list.state.select(Some(0));
    assert_eq!(
        ToggleItemPriorityCommand.execute(&mut app),
        Ok(Effect::SetPriority { id: 1, priority: Priority::Medium })
    );
    assert_eq!(
        ToggleItemPriorityCommand.execute(&mut app),
        Ok(Effect::SetPriority { id: 1, priority: Priority::High })
    );
    assert_eq!(
        ToggleItemPriorityCommand.execute(&mut app),
        Ok(Effect::SetPriority { id: 1, priority: Priority::Low })
    );
    assert_eq!(app.task_list.items[0].priority, Priority::Low);
    assert_eq!(app.task_list.items[1].priority, Priority::Medium);
}

#[test]
fn delete_takes_the_selected_task_off_the_list() {
    let mut app = app_with_three();
    app.task_list.state.select(Some(1));
    assert_eq!(DeleteTaskCommand.execute(&mut app), Ok(Effect::DeleteTask { id: 2 }));
    assert_eq!(app.task_list.items.len(), 2);
    assert_eq!(app.task_list.items[0].id, 1);
    assert_eq!(app.task_list.items[1].id, 3);
    assert_eq!(app.task_list.state.selected(), Some(1));
}

#[test]
fn stop_editing_empties_the_fields() {
    let mut app = app_with_three();
    app.input_mode = InputMode::Adding;
    app.input_title = String::from("a");
    app.input_description = String::from("b");
    app.input_date = String::from("c");
    app.input_export_path = String::from("d");
    app.error = Some(String::from("oops"));
    assert_eq!(StopEditingCommand.execute(&mut app), Ok(Effect::Nothing));
    assert_eq!(app.input_mode, InputMode::View);
    assert_eq!(app.input_title, "");
    assert_eq!(app.input_description, "");
    assert_eq!(app.input_date, "");
    assert_eq!(app.input_export_path, "d");
    assert_eq!(app.error, None);
}

#[test]
fn export_mode_is_entered_and_the_path_asked_for() {
    let mut app = app_with_three();
    app.error = Some(String::from("oops"));
    assert_eq!(EnterExportModeCommand.execute(&mut app), Ok(Effect::ResolveExportPath));
    assert_eq!(app.input_mode, InputMode::Export);
    assert_eq!(app.error, None);
    assert_eq!(
        EnterExportModeCommand.resolve(&mut app, Some(String::from("/home/task_rustler.ics"))),
        Ok(())
    );
    assert_eq!(app.input_export_path, "/home/task_rustler.ics");
    assert_eq!(
        EnterExportModeCommand.resolve(&mut app, None),
        Err(CommandError::NoCurrentDir)
    );
    assert_eq!(app.input_export_path, "/home/task_rustler.ics");
}

#[test]
fn finishing_export_hands_the_calendar_over() {
    let mut app = app_with_three();
    app.task_list.items[2].completed = true;
    app.input_export_path = String::from("/tmp/out.ics");
    match FinishingExportCommand.execute(&mut app) {
        Ok(Effect::WriteCalendar { path, calendar }) => {
            assert_eq!(path, "/tmp/out.ics");
            assert_eq!(calendar.name, CALENDAR_NAME);
            assert_eq!(calendar.name, "task rustler");
            assert_eq!(calendar.components.len(), 3);
            assert_eq!(calendar.components[0].summary, "one");
            assert_eq!(calendar.components[0].priority, 3);
            assert_eq!(calendar.components[2].status, TodoStatus::Completed);
        }
        other => panic!("unexpected {:?}", other),
    }
    assert_eq!(app.input_export_path, "/tmp/out.ics");
}

#[test]
fn exit_export_mode() {
    let mut app = app_with_three();
    app.input_mode = InputMode::Export;
    app.input_export_path = String::from("/tmp/out.ics");
    app.input_title = String::from("kept");
    app.error = Some(String::from("oops"));
    assert_eq!(ExitExportModeCommand.execute(&mut app), Ok(Effect::Nothing));
    assert_eq!(app.input_mode, InputMode::View);
    assert_eq!(app.input_export_path, "");
    assert_eq!(app.input_title, "kept");
    assert_eq!(app.error, None);
}
