use task_tracker::app::{format_log_entry, App, InputMode};
use task_tracker::events::{key_event, Event, Flow, Key};
use task_tracker::homepage::AppTool;
use task_tracker::model::{Task, Topic};
use task_tracker::store::Store;
use task_tracker::text::{decimal_text, same_text, truncate_chars};

const T0: &str = "2024-03-01 08:00:00";

fn topic(id: i32, name: &str) -> Topic {
    Topic {
        id,
        name: name.to_string(),
        description: String::new(),
        created_at: T0.to_string(),
        updated_at: T0.to_string(),
    }
}

fn task(id: i32, topic_id: i32, name: &str, favourite: bool) -> Task {
    Task {
        id,
        topic_id,
        name: name.to_string(),
        description: format!("about {}", name),
        completed: false,
        favourite,
        created_at: T0.to_string(),
        updated_at: T0.to_string(),
    }
}

fn session() -> App {
    let topics = vec![topic(1, "Favourites"), topic(2, "Default"), topic(3, "Completed"), topic(4, "Work")];
    let tasks = vec![
        task(1, 4, "report", true),
        task(2, 2, "laundry", false),
        task(3, 4, "review", false),
        task(4, 3, "taxes", true),
    ];
    App::new(Store::from_rows(topics, tasks, 4, 4).unwrap()).unwrap()
}

fn ids(app: &App) -> Vec<i32> {
    app.tasks.iter().map(|t| t.id).collect()
}

fn last_log_is(app: &App, level: &str, message: &str) -> bool {
    app.logs.last().unwrap().ends_with(&format!(" [{}] {}", level, message))
}

#[test]
fn session_starts_on_favourites() {
    let app = session();
    assert_eq!(app.selected_topic, 0);
    assert_eq!(ids(&app), vec![1, 4]);
    assert!(app.current_topic_is_favourites());
    assert!(app.current_topic_is_special());
}

#[test]
fn special_and_favourites_predicates() {
    let mut app = session();
    app.handle_event(Event::TopicRight);
    assert!(!app.current_topic_is_favourites());
    assert!(app.current_topic_is_special());
    app.handle_event(Event::TopicRight);
    assert!(!app.current_topic_is_favourites());
    assert!(!app.current_topic_is_special());
}

#[test]
fn topic_switching_is_clamped_and_reloads() {
    let mut app = session();
    app.handle_event(Event::TopicLeft);
    assert_eq!(app.selected_topic, 0);
    app.handle_event(Event::SelectNext);
    assert_eq!(app.selected, 1);
    app.handle_event(Event::TopicRight);
    assert_eq!(app.selected_topic, 1);
    assert_eq!(app.selected, 0);
    assert_eq!(ids(&app), vec![1, 2, 3, 4]);
    app.handle_event(Event::TopicRight);
    assert_eq!(ids(&app), vec![4]);
    app.handle_event(Event::TopicRight);
    assert_eq!(ids(&app), vec![1, 3]);
    app.handle_event(Event::SelectNext);
    app.handle_event(Event::TopicRight);
    assert_eq!(app.selected_topic, 3);
    assert_eq!(app.selected, 1);
    app.handle_event(Event::TopicLeft);
    assert_eq!(app.selected_topic, 2);
    assert_eq!(app.selected, 0);
}

#[test]
fn selection_is_clamped_at_both_ends() {
    let mut app = session();
    app.handle_event(Event::SelectPrevious);
    assert_eq!(app.selected, 0);
    app.handle_event(Event::SelectNext);
    assert_eq!(app.selected, 1);
    app.handle_event(Event::SelectNext);
    assert_eq!(app.selected, 1);
    app.handle_event(Event::SelectPrevious);
    assert_eq!(app.selected, 0);
}

#[test]
fn toggle_task_flips_completion() {
    let mut app = session();
    app.toggle_task().unwrap();
    assert!(app.tasks[0].completed);
    assert!(app.db_ops.store.tasks[0].completed);
    assert!(last_log_is(&app, "INFO", "Toggled task id: 1"));
    app.toggle_task().unwrap();
    assert!(!app.tasks[0].completed);
    assert_eq!(app.tasks[0].name, "report");
    assert_eq!(app.tasks[0].created_at, T0);
}

#[test]
fn toggle_favourite_under_favourites_shrinks_the_list() {
    let mut app = session();
    app.handle_event(Event::SelectNext);
    app.toggle_favourite().unwrap();
    assert_eq!(ids(&app), vec![1]);
    assert_eq!(app.selected, 0);
    assert!(last_log_is(&app, "INFO", "Toggled favourite for task id: 4"));
    app.toggle_favourite().unwrap();
    assert!(app.tasks.is_empty());
    assert_eq!(app.selected, 0);
    let logs = app.logs.len();
    app.toggle_favourite().unwrap();
    app.toggle_task().unwrap();
    app.delete_task().unwrap();
    app.edit_task("nothing").unwrap();
    assert_eq!(app.logs.len(), logs);
    assert_eq!(app.db_ops.store.tasks.len(), 4);
}

#[test]
fn delete_last_task_moves_selection_up() {
    let mut app = session();
    app.handle_event(Event::TopicRight);
    for _ in 0..3 {
        app.handle_event(Event::SelectNext);
    }
    assert_eq!(app.selected, 3);
    app.delete_task().unwrap();
    assert_eq!(ids(&app), vec![1, 2, 3]);
    assert_eq!(app.selected, 2);
    assert!(last_log_is(&app, "INFO", "Deleted task id: 4"));
    app.delete_task().unwrap();
    assert_eq!(app.selected, 1);
    app.delete_task().unwrap();
    assert_eq!(app.selected, 0);
    app.delete_task().unwrap();
    assert_eq!(app.selected, 0);
    assert!(app.tasks.is_empty());
    assert!(app.db_ops.store.tasks.is_empty());
}

#[test]
fn delete_inner_task_keeps_selection() {
    let mut app = session();
    app.handle_event(Event::TopicRight);
    app.handle_event(Event::SelectNext);
    app.handle_key(Key::Char('d'));
    assert_eq!(ids(&app), vec![1, 3, 4]);
    assert_eq!(app.selected, 1);
}

#[test]
fn edit_task_replaces_the_description_only() {
    let mut app = session();
    app.toggle_task().unwrap();
    app.edit_task("a new description").unwrap();
    let edited = &app.tasks[0];
    assert_eq!(edited.description, "a new description");
    assert_eq!(edited.name, "report");
    assert!(edited.completed);
    assert!(edited.favourite);
    assert_eq!(edited.created_at, T0);
    assert!(last_log_is(&app, "INFO", "Successfully edited task, with id: 1"));
    assert_eq!(app.db_ops.store.tasks[0], app.tasks[0]);
}

#[test]
fn edit_flow() {
    let mut app = session();
    app.handle_key(Key::Char('e'));
    assert_eq!(app.input_mode, InputMode::EditingTask);
    app.handle_key(Key::Enter);
    assert_eq!(app.input_mode, InputMode::EditingTask);
    for c in "due friday".chars() {
        app.handle_key(Key::Char(c));
    }
    app.handle_key(Key::Enter);
    assert_eq!(app.input_mode, InputMode::Normal);
    assert_eq!(app.input, "");
    assert_eq!(app.tasks[0].description, "due friday");
}

#[test]
fn delete_topic_resets_the_current_topic() {
    let mut app = session();
    for _ in 0..3 {
        app.handle_event(Event::TopicRight);
    }
    app.handle_event(Event::SelectNext);
    app.handle_key(Key::Char('X'));
    assert_eq!(app.topics.iter().map(|t| t.id).collect::<Vec<_>>(), vec![1, 2, 3]);
    assert_eq!(app.selected_topic, 0);
    assert_eq!(ids(&app), vec![1, 4]);
    assert_eq!(app.selected, 1);
    assert_eq!(app.db_ops.store.tasks.len(), 4);
    assert!(last_log_is(&app, "INFO", "Deleted topic id: 4"));
}

#[test]
fn delete_topic_spares_special_topics() {
    let mut app = session();
    let before = app.db_ops.store.clone();
    let logs = app.logs.len();
    app.handle_event(Event::DeleteTopic);
    assert_eq!(app.db_ops.store, before);
    app.delete_topic().unwrap();
    assert_eq!(app.db_ops.store, before);
    assert_eq!(app.selected_topic, 0);
    for position in [1, 2] {
        app.handle_event(Event::TopicRight);
        assert_eq!(app.selected_topic, position);
        let tasks = ids(&app);
        app.handle_event(Event::DeleteTopic);
        assert_eq!(app.db_ops.store, before);
        assert_eq!(app.selected_topic, position);
        assert_eq!(app.delete_topic(), Ok(()));
        assert_eq!(app.db_ops.store, before);
        assert_eq!(app.topics.len(), 4);
        assert_eq!(app.selected_topic, position);
        assert_eq!(ids(&app), tasks);
        assert_eq!(app.selected, 0);
    }
    assert_eq!(app.logs.len(), logs);
}

#[test]
fn delete_topic_keeps_the_selected_task_of_a_protected_topic() {
    let mut app = session();
    app.handle_event(Event::TopicRight);
    app.handle_event(Event::SelectNext);
    app.handle_event(Event::SelectNext);
    assert_eq!(app.selected, 2);
    app.delete_topic().unwrap();
    assert_eq!(app.selected_topic, 1);
    assert_eq!(app.selected, 2);
    assert_eq!(ids(&app), vec![1, 2, 3, 4]);
}

#[test]
fn roll_back_puts_the_store_back() {
    let mut app = session();
    for _ in 0..3 {
        app.handle_event(Event::TopicRight);
    }
    app.handle_event(Event::SelectNext);
    let saved = app.db_ops.store.clone();
    let logs = app.logs.len();
    app.delete_task().unwrap();
    assert_eq!(ids(&app), vec![1]);
    app.roll_back(saved.clone());
    assert_eq!(app.db_ops.store, saved);
    assert_eq!(ids(&app), vec![1, 3]);
    assert_eq!(app.selected_topic, 3);
    assert_eq!(app.selected, 0);
    assert_eq!(app.logs.len(), logs + 1);
    assert!(app.is_in_order());

    app.add_topic("Home").unwrap();
    app.handle_event(Event::TopicRight);
    assert_eq!(app.selected_topic, 4);
    app.roll_back(saved.clone());
    assert_eq!(app.topics.len(), 4);
    assert_eq!(app.selected_topic, 3);
    assert!(app.is_in_order());

    app.roll_back(Store::new());
    assert!(app.topics.is_empty());
    assert!(app.tasks.is_empty());
    assert_eq!(app.selected_topic, 0);
    assert_eq!(app.selected, 0);
    assert!(app.is_in_order());
}

#[test]
fn sessions_stay_in_order() {
    let mut app = session();
    assert!(app.is_in_order());
    for key in [
        Key::Right,
        Key::Down,
        Key::Char('t'),
        Key::Char('f'),
        Key::Char('d'),
        Key::Char('N'),
        Key::Char('w'),
        Key::Enter,
        Key::Right,
        Key::Right,
        Key::Right,
        Key::Char('a'),
        Key::Char('n'),
        Key::Enter,
        Key::Enter,
        Key::Char('X'),
        Key::Char('H'),
    ] {
        app.handle_key(key);
        assert!(app.is_in_order());
    }
    app.selected = 7;
    assert!(!app.is_in_order());
    app.selected = 0;
    app.show_help = false;
    assert!(!app.is_in_order());
    app.show_help = true;
    app.tasks.clear();
    assert!(app.is_in_order() == app.db_ops.store.tasks.iter().all(|t| !t.favourite));
    assert!(app.db_ops.store.is_in_order());
}

#[test]
fn expanded_tasks_toggle() {
    let mut app = session();
    app.handle_key(Key::Enter);
    assert!(app.expanded.contains(&1));
    app.handle_event(Event::SelectNext);
    app.handle_key(Key::Enter);
    assert!(app.expanded.contains(&4));
    app.handle_key(Key::Enter);
    assert!(!app.expanded.contains(&4));
    assert!(app.expanded.contains(&1));
}

#[test]
fn log_scrolling() {
    let mut app = session();
    app.handle_key(Key::PageDown);
    assert_eq!(app.log_offset, 0);
    app.handle_key(Key::PageUp);
    app.handle_key(Key::PageUp);
    assert_eq!(app.log_offset, 2);
    app.handle_key(Key::PageDown);
    assert_eq!(app.log_offset, 1);
    app.add_log("INFO", "something");
    assert_eq!(app.log_offset, 0);
    assert_eq!(app.logs.len(), 4);
    app.log_offset = usize::MAX;
    app.scroll_back();
    assert_eq!(app.log_offset, usize::MAX);
}

#[test]
fn log_window() {
    let mut app = session();
    for i in 0..17 {
        app.add_log_at(T0, "INFO", &format!("line {}", i));
    }
    assert_eq!(app.logs.len(), 20);
    assert_eq!(app.log_window_start(15), 5);
    app.log_offset = 2;
    assert_eq!(app.log_window_start(15), 3);
    app.log_offset = 5;
    assert_eq!(app.log_window_start(15), 0);
    app.log_offset = 6;
    assert_eq!(app.log_window_start(15), 0);
    app.log_offset = usize::MAX;
    assert_eq!(app.log_window_start(usize::MAX), 0);
    app.log_offset = 0;
    assert_eq!(app.log_window_start(20), 0);
    assert_eq!(app.log_window_start(0), 20);
}

#[test]
fn log_entries_are_formatted() {
    assert_eq!(
        format_log_entry("2024-03-01 08:00:00", "ERROR", "Failed to add task"),
        "2024-03-01 08:00:00 [ERROR] Failed to add task"
    );
    let mut app = session();
    app.add_log_at(T0, "INFO", "hello");
    assert_eq!(app.logs.last().unwrap(), "2024-03-01 08:00:00 [INFO] hello");
    app.add_log("WARN", "now");
    let line = app.logs.last().unwrap();
    assert!(line.ends_with(" [WARN] now"));
    let stamp = &line[..line.len() - " [WARN] now".len()];
    assert_eq!(stamp.len(), 19);
    let bytes = stamp.as_bytes();
    assert_eq!(bytes[4], b'-');
    assert_eq!(bytes[7], b'-');
    assert_eq!(bytes[10], b' ');
    assert_eq!(bytes[13], b':');
    assert_eq!(bytes[16], b':');
}

#[test]
fn reset_task_inputs_clears_both() {
    let mut app = session();
    app.task_name_input.push_str("n");
    app.task_description_input.push_str("d");
    app.input.push_str("i");
    app.reset_task_inputs();
    assert_eq!(app.task_name_input, "");
    assert_eq!(app.task_description_input, "");
    assert_eq!(app.input, "i");
}

#[test]
fn keys_while_browsing() {
    let n = InputMode::Normal;
    assert_eq!(key_event(n, Key::Char('q')), Some(Event::Quit));
    assert_eq!(key_event(n, Key::Char('a')), Some(Event::StartTask));
    assert_eq!(key_event(n, Key::Char('d')), Some(Event::DeleteTask));
    assert_eq!(key_event(n, Key::Char('e')), Some(Event::StartEdit));
    assert_eq!(key_event(n, Key::Char('f')), Some(Event::ToggleFavourite));
    assert_eq!(key_event(n, Key::Char('H')), Some(Event::ToggleHelp));
    assert_eq!(key_event(n, Key::Char('t')), Some(Event::ToggleTask));
    assert_eq!(key_event(n, Key::Enter), Some(Event::ToggleExpanded));
    assert_eq!(key_event(n, Key::Down), Some(Event::SelectNext));
    assert_eq!(key_event(n, Key::Char('j')), Some(Event::SelectNext));
    assert_eq!(key_event(n, Key::Up), Some(Event::SelectPrevious));
    assert_eq!(key_event(n, Key::Char('k')), Some(Event::SelectPrevious));
    assert_eq!(key_event(n, Key::Left), Some(Event::TopicLeft));
    assert_eq!(key_event(n, Key::Char('h')), Some(Event::TopicLeft));
    assert_eq!(key_event(n, Key::Right), Some(Event::TopicRight));
    assert_eq!(key_event(n, Key::Char('l')), Some(Event::TopicRight));
    assert_eq!(key_event(n, Key::PageUp), Some(Event::ScrollBack));
    assert_eq!(key_event(n, Key::PageDown), Some(Event::ScrollForward));
    assert_eq!(key_event(n, Key::Char('N')), Some(Event::StartTopic));
    assert_eq!(key_event(n, Key::Char('X')), Some(Event::DeleteTopic));
    assert_eq!(key_event(n, Key::Char('z')), None);
    assert_eq!(key_event(n, Key::Esc), None);
    assert_eq!(key_event(n, Key::Tab), None);
    assert_eq!(key_event(n, Key::Backspace), None);
    assert_eq!(key_event(n, Key::Other), None);
}

#[test]
fn keys_while_typing() {
    for mode in [
        InputMode::AddingTask,
        InputMode::AddingTaskName,
        InputMode::EditingTask,
        InputMode::AddingTopic,
    ] {
        assert_eq!(key_event(mode, Key::Enter), Some(Event::Commit));
        assert_eq!(key_event(mode, Key::Esc), Some(Event::Cancel));
        assert_eq!(key_event(mode, Key::Char('q')), Some(Event::Type('q')));
        assert_eq!(key_event(mode, Key::Backspace), Some(Event::Erase));
        assert_eq!(key_event(mode, Key::Tab), None);
        assert_eq!(key_event(mode, Key::Up), None);
    }
    let d = InputMode::AddingTaskDescription;
    assert_eq!(key_event(d, Key::Tab), Some(Event::Back));
    assert_eq!(key_event(d, Key::Enter), Some(Event::Commit));
    assert_eq!(key_event(d, Key::Char('H')), Some(Event::Type('H')));
    let h = InputMode::Help;
    assert_eq!(key_event(h, Key::Esc), Some(Event::Cancel));
    assert_eq!(key_event(h, Key::Char('H')), Some(Event::ToggleHelp));
    assert_eq!(key_event(h, Key::Char('q')), None);
    assert_eq!(key_event(h, Key::Enter), None);
}

#[test]
fn erase_on_empty_buffer() {
    let mut app = session();
    app.handle_event(Event::StartTopic);
    app.handle_event(Event::Erase);
    assert_eq!(app.input, "");
    app.handle_event(Event::Type('a'));
    app.handle_event(Event::Type('b'));
    app.handle_event(Event::Erase);
    assert_eq!(app.input, "a");
    assert_eq!(app.handle_event(Event::Back), Flow::Continue);
    assert_eq!(app.input_mode, InputMode::AddingTopic);
}

#[test]
fn decimal_text_of_identities() {
    assert_eq!(decimal_text(0), "0");
    assert_eq!(decimal_text(7), "7");
    assert_eq!(decimal_text(10), "10");
    assert_eq!(decimal_text(1905), "1905");
    assert_eq!(decimal_text(-42), "-42");
    assert_eq!(decimal_text(i32::MAX), "2147483647");
    assert_eq!(decimal_text(i32::MIN), "-2147483648");
}

#[test]
fn truncate_counts_characters() {
    assert_eq!(truncate_chars("", 20), "");
    assert_eq!(truncate_chars("abc", 3), "abc");
    assert_eq!(truncate_chars("abcd", 3), "abc");
    assert_eq!(truncate_chars("héllo wörld", 7), "héllo w");
    assert_eq!(truncate_chars("abc", 0), "");
}

#[test]
fn same_text_compares_characters() {
    assert!(same_text("Default", "Default"));
    assert!(!same_text("Default", "default"));
    assert!(!same_text("Default", "Default "));
    assert!(same_text("", ""));
}

#[test]
fn tool_titles() {
    assert_eq!(AppTool::TaskManager.title(), "Task Manager");
    assert_eq!(AppTool::all(), vec![AppTool::TaskManager]);
}
