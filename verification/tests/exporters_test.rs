use task_rustler::date::{Date, TaskDate};
use task_rustler::export::{
    build_icalendar_todo_task, export_tasks_to_icalendar, Todo, TodoStatus,
};
use task_rustler::task::{Priority, Task};

#[test]
fn tasks_to_icalendar() {
    let task1 = Task {
        id: 0,
        title: "First task".to_string(),
        description: "Task n 1".to_string(),
        completed: false,
        priority: Priority::Low,
        date: TaskDate::try_from("15-10-2024".to_string()).unwrap(),
    };

    let task2 = Task {
        id: 1,
        title: "Second task".to_string(),
        description: "Task n 2".to_string(),
        completed: true,
        priority: Priority::High,
        date: TaskDate(None),
    };

    let tasks = vec![task1, task2];
    let calendar = export_tasks_to_icalendar("Task Rustler", &tasks);
    assert_eq!(calendar.name, "Task Rustler");

    let todo1 = &calendar.components[0];
    assert_eq!(todo1.summary, "First task");
    assert_eq!(todo1.description, "Task n 1");
    assert_eq!(todo1.priority, 3);
    assert_eq!(
        todo1.due.unwrap(),
        TaskDate::try_from("15-10-2024".to_string()).unwrap().0.unwrap()
    );
    assert_eq!(todo1.status, TodoStatus::NeedsAction);

    let todo2 = &calendar.components[1];
    assert_eq!(todo2.summary, "Second task");
    assert_eq!(todo2.description, "Task n 2");
    assert_eq!(todo2.priority, 1);
    assert_eq!(todo2.due, None);
    assert_eq!(todo2.status, TodoStatus::Completed);
}

#[test]
fn empty_list_gives_an_empty_calendar() {
    let calendar = export_tasks_to_icalendar("nothing", &[]);
    assert_eq!(calendar.name, "nothing");
    assert!(calendar.components.is_empty());
}

#[test]
fn one_todo_for_one_task() {
    let task = Task {
        id: 9,
        title: "t".to_string(),
        description: "d".to_string(),
        completed: false,
        priority: Priority::Medium,
        date: TaskDate(Some(Date { year: 1999, month: 12, day: 31 })),
    };
    assert_eq!(
        build_icalendar_todo_task(&task),
        Todo {
            summary: "t".to_string(),
            description: "d".to_string(),
            status: TodoStatus::NeedsAction,
            priority: 2,
            due: Some(Date { year: 1999, month: 12, day: 31 }),
        }
    );
}
