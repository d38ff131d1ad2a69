use task_tracker::app::{App, InputMode};
use task_tracker::events::{Event, Flow, Key};
use task_tracker::model::QueryError;
use task_tracker::store::Store;

fn started() -> App {
    App::new(Store::new()).expect("an empty store takes the three topics")
}

fn names(app: &App) -> Vec<String> {
    app.topics.iter().map(|t| t.name.clone()).collect()
}

fn select_topic(app: &mut App, name: &str) {
    while app.selected_topic > 0 {
        app.handle_event(Event::TopicLeft);
    }
    while app.topics[app.selected_topic].name != name {
        let before = app.selected_topic;
        app.handle_event(Event::TopicRight);
        assert_ne!(before, app.selected_topic, "topic {} not found", name);
    }
}

fn type_text(app: &mut App, text: &str) {
    for c in text.chars() {
        app.handle_event(Event::Type(c));
    }
}

fn ends_with_entry(line: &str, level: &str, message: &str) -> bool {
    line.ends_with(&format!(" [{}] {}", level, message))
}

#[test]
fn startup_on_empty_store_creates_three_topics() {
    let app = started();
    assert_eq!(names(&app), vec!["Favourites", "Default", "Completed"]);
    assert_eq!(app.topics[0].id, 1);
    assert_eq!(app.topics[1].id, 2);
    assert_eq!(app.topics[2].id, 3);
    assert_eq!(app.topics[app.selected_topic].name, "Favourites");
    assert!(app.tasks.is_empty());
    assert_eq!(app.selected, 0);
    assert_eq!(app.input_mode, InputMode::Normal);
    assert!(!app.show_help);
    assert!(app.expanded.is_empty());
}

#[test]
fn startup_logs_each_phase() {
    let app = started();
    assert_eq!(app.logs.len(), 3);
    assert!(ends_with_entry(&app.logs[0], "INFO", "Topics loaded"));
    assert!(ends_with_entry(&app.logs[1], "INFO", "Tasks loaded"));
    assert!(ends_with_entry(&app.logs[2], "INFO", "Application started"));
    assert_eq!(app.log_offset, 0);
}

#[test]
fn startup_keeps_topics_that_exist() {
    let mut store = Store::new();
    store.insert_topic("Work", "", "2024-01-01 00:00:00").unwrap();
    store.insert_topic("Default", "", "2024-01-01 00:00:00").unwrap();
    let app = App::new(store).unwrap();
    assert_eq!(names(&app), vec!["Work", "Default", "Favourites", "Completed"]);
    assert_eq!(app.selected_topic, 2);
}

#[test]
fn startup_fails_when_the_topic_table_is_full() {
    let store = Store::from_rows(Vec::new(), Vec::new(), i32::MAX - 3, 0).unwrap();
    let app = App::new(store).unwrap();
    assert_eq!(app.topics[2].id, i32::MAX);
    let store = Store::from_rows(Vec::new(), Vec::new(), i32::MAX - 2, 0).unwrap();
    assert_eq!(App::new(store).err(), Some(QueryError::StoreFull));
}

#[test]
fn add_task_with_details_under_default() {
    let mut app = started();
    select_topic(&mut app, "Default");
    app.add_task_with_details("Buy milk", "2% milk, 1 gal").unwrap();
    assert_eq!(app.tasks.len(), 1);
    let task = &app.tasks[0];
    assert_eq!(task.name, "Buy milk");
    assert_eq!(task.description, "2% milk, 1 gal");
    assert!(!task.completed);
    assert!(!task.favourite);
    assert_eq!(task.topic_id, app.topics[app.selected_topic].id);
    assert_eq!(task.created_at, task.updated_at);
    assert!(ends_with_entry(
        app.logs.last().unwrap(),
        "INFO",
        "Added task: Buy milk - 2% milk, 1 gal"
    ));
}

#[test]
fn add_task_under_favourites_is_ignored() {
    let mut app = started();
    assert_eq!(app.topics[app.selected_topic].name, "Favourites");
    let logs = app.logs.len();
    assert_eq!(app.add_task("x"), Ok(()));
    assert!(app.tasks.is_empty());
    assert!(app.db_ops.store.tasks.is_empty());
    assert_eq!(app.logs.len(), logs);
    assert_eq!(app.add_task_with_details("x", "y"), Ok(()));
    assert!(app.db_ops.store.tasks.is_empty());
}

#[test]
fn empty_name_does_not_advance() {
    let mut app = started();
    select_topic(&mut app, "Default");
    app.handle_event(Event::StartTask);
    assert_eq!(app.input_mode, InputMode::AddingTaskName);
    assert_eq!(app.handle_event(Event::Commit), Flow::Continue);
    assert_eq!(app.input_mode, InputMode::AddingTaskName);
    assert!(app.db_ops.store.tasks.is_empty());
}

#[test]
fn add_task_synthesises_a_name() {
    let mut app = started();
    select_topic(&mut app, "Default");
    app.add_task("short").unwrap();
    assert_eq!(app.tasks[0].name, "Task short");
    app.add_task("exactly twenty chars").unwrap();
    assert_eq!(app.tasks[1].name, "Task exactly twenty chars");
    app.add_task("a description of more than twenty characters").unwrap();
    assert_eq!(app.tasks[2].name, "Task a description of mor");
    assert_eq!(app.tasks[2].description, "a description of more than twenty characters");
    app.add_task("ääääääääääääääääääääää").unwrap();
    assert_eq!(app.tasks[3].name, "Task ääääääääääääääääääää");
}

#[test]
fn add_task_fails_when_the_task_table_is_full() {
    let store = Store::from_rows(Vec::new(), Vec::new(), 0, i32::MAX).unwrap();
    let mut app = App::new(store).unwrap();
    select_topic(&mut app, "Default");
    let logs = app.logs.len();
    assert_eq!(app.add_task("x"), Err(QueryError::StoreFull));
    assert_eq!(app.add_task_with_details("x", "y"), Err(QueryError::StoreFull));
    assert!(app.tasks.is_empty());
    assert_eq!(app.logs.len(), logs);
}

#[test]
fn two_step_flow_adds_a_task() {
    let mut app = started();
    select_topic(&mut app, "Completed");
    assert_eq!(app.handle_key(Key::Char('a')), Flow::Continue);
    assert_eq!(app.input_mode, InputMode::AddingTaskName);
    for c in "Read".chars() {
        app.handle_key(Key::Char(c));
    }
    app.handle_key(Key::Char('x'));
    app.handle_key(Key::Backspace);
    assert_eq!(app.task_name_input, "Read");
    app.handle_key(Key::Enter);
    assert_eq!(app.input_mode, InputMode::AddingTaskDescription);
    for c in "a book".chars() {
        app.handle_key(Key::Char(c));
    }
    app.handle_key(Key::Tab);
    assert_eq!(app.input_mode, InputMode::AddingTaskName);
    assert_eq!(app.task_description_input, "a book");
    app.handle_key(Key::Enter);
    assert_eq!(app.input_mode, InputMode::AddingTaskDescription);
    app.handle_key(Key::Enter);
    assert_eq!(app.input_mode, InputMode::Normal);
    assert_eq!(app.task_name_input, "");
    assert_eq!(app.task_description_input, "");
    assert_eq!(app.tasks.len(), 1);
    assert_eq!(app.tasks[0].name, "Read");
    assert_eq!(app.tasks[0].description, "a book");
    assert_eq!(app.tasks[0].topic_id, 3);
}

#[test]
fn cancel_discards_what_was_typed() {
    let mut app = started();
    select_topic(&mut app, "Default");
    app.handle_event(Event::StartTask);
    type_text(&mut app, "half");
    app.handle_event(Event::Commit);
    type_text(&mut app, "done");
    app.handle_event(Event::Cancel);
    assert_eq!(app.input_mode, InputMode::Normal);
    assert_eq!(app.task_name_input, "");
    assert_eq!(app.task_description_input, "");
    assert!(app.tasks.is_empty());
    app.handle_event(Event::StartTopic);
    type_text(&mut app, "Work");
    app.handle_event(Event::Cancel);
    assert_eq!(app.input, "");
    assert_eq!(app.topics.len(), 3);
}

#[test]
fn start_task_is_refused_under_favourites() {
    let mut app = started();
    app.handle_event(Event::StartTask);
    assert_eq!(app.input_mode, InputMode::Normal);
    app.handle_event(Event::StartQuickTask);
    assert_eq!(app.input_mode, InputMode::Normal);
    select_topic(&mut app, "Default");
    app.handle_event(Event::StartQuickTask);
    assert_eq!(app.input_mode, InputMode::AddingTask);
}

#[test]
fn quick_task_commit() {
    let mut app = started();
    select_topic(&mut app, "Default");
    app.handle_event(Event::StartQuickTask);
    app.handle_event(Event::Commit);
    assert_eq!(app.input_mode, InputMode::AddingTask);
    type_text(&mut app, "water the plants");
    app.handle_event(Event::Commit);
    assert_eq!(app.input_mode, InputMode::Normal);
    assert_eq!(app.input, "");
    assert_eq!(app.tasks.len(), 1);
    assert_eq!(app.tasks[0].name, "Task water the plants");
}

#[test]
fn commit_logs_a_failure() {
    let store = Store::from_rows(Vec::new(), Vec::new(), 0, i32::MAX).unwrap();
    let mut app = App::new(store).unwrap();
    select_topic(&mut app, "Default");
    app.handle_event(Event::StartQuickTask);
    type_text(&mut app, "x");
    let logs = app.logs.len();
    app.handle_event(Event::Commit);
    assert_eq!(app.input_mode, InputMode::Normal);
    assert_eq!(app.logs.len(), logs + 1);
    assert!(ends_with_entry(app.logs.last().unwrap(), "ERROR", "Failed to add task"));
    assert!(app.tasks.is_empty());
}

#[test]
fn adding_a_topic() {
    let mut app = started();
    app.handle_key(Key::Char('N'));
    assert_eq!(app.input_mode, InputMode::AddingTopic);
    type_text(&mut app, "Work");
    app.handle_key(Key::Enter);
    assert_eq!(app.input_mode, InputMode::Normal);
    assert_eq!(names(&app), vec!["Favourites", "Default", "Completed", "Work"]);
    assert_eq!(app.topics[3].description, "");
    assert!(ends_with_entry(app.logs.last().unwrap(), "INFO", "Added topic: Work"));
    assert_eq!(app.selected_topic, 0);
}

#[test]
fn adding_a_topic_twice_is_refused() {
    let mut app = started();
    assert_eq!(app.add_topic("Work"), Ok(()));
    assert_eq!(app.add_topic("Work"), Err(QueryError::UniqueViolation));
    assert_eq!(app.topics.len(), 4);
    app.handle_event(Event::StartTopic);
    type_text(&mut app, "Default");
    app.handle_event(Event::Commit);
    assert_eq!(app.topics.len(), 4);
    assert!(ends_with_entry(app.logs.last().unwrap(), "ERROR", "Failed to add topic"));
}

#[test]
fn help_mode_takes_no_other_input() {
    let mut app = started();
    app.handle_key(Key::Char('H'));
    assert_eq!(app.input_mode, InputMode::Help);
    assert!(app.show_help);
    assert_eq!(app.handle_key(Key::Char('q')), Flow::Continue);
    app.handle_key(Key::Char('a'));
    app.handle_key(Key::Enter);
    assert_eq!(app.input_mode, InputMode::Help);
    app.handle_key(Key::Esc);
    assert_eq!(app.input_mode, InputMode::Normal);
    assert!(!app.show_help);
    app.handle_key(Key::Char('H'));
    app.handle_key(Key::Char('H'));
    assert_eq!(app.input_mode, InputMode::Normal);
    assert!(!app.show_help);
}

#[test]
fn quit_only_while_browsing() {
    let mut app = started();
    assert_eq!(app.handle_key(Key::Char('q')), Flow::Quit);
    app.handle_key(Key::Char('N'));
    assert_eq!(app.handle_key(Key::Char('q')), Flow::Continue);
    assert_eq!(app.input, "q");
    assert_eq!(app.handle_event(Event::Quit), Flow::Continue);
}
