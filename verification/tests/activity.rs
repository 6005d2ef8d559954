use mdboard_tui::input::{Command, Key, activity_entry_command, handle_key};
use mdboard_tui::model::ActivityEntry;
use mdboard_tui::state::{App, ResourceType, View};

fn entry(kind: &str) -> ActivityEntry {
    ActivityEntry {
        entry_type: kind.to_string(),
        title: "t".to_string(),
        id: "42".to_string(),
        column: Some("todo".to_string()),
        filename: Some("a.md".to_string()),
        dir_name: Some("dir".to_string()),
        revision: None,
    }
}

#[test]
fn task_entries_ask_for_the_task_without_fallback() {
    let cmd = activity_entry_command(&entry("task")).expect("a task entry opens");
    match cmd {
        Command::OpenTask { column, filename, comments_id, fallback } => {
            assert_eq!(column, "todo");
            assert_eq!(filename, "a.md");
            assert_eq!(comments_id.as_deref(), Some("42"));
            assert!(fallback.is_none());
        }
        _ => panic!("expected a task fetch"),
    }
}

#[test]
fn task_entry_with_empty_id_skips_comments() {
    let mut e = entry("task");
    e.id = String::new();
    match activity_entry_command(&e).expect("a task entry opens") {
        Command::OpenTask { comments_id, .. } => assert!(comments_id.is_none()),
        _ => panic!("expected a task fetch"),
    }
}

#[test]
fn task_entry_without_location_is_ignored() {
    let mut e = entry("task");
    e.filename = None;
    assert!(activity_entry_command(&e).is_none());
}

#[test]
fn prompt_and_document_entries_name_their_resource() {
    match activity_entry_command(&entry("prompt")).expect("a prompt entry opens") {
        Command::OpenResource { kind, dir_name, fallback } => {
            assert_eq!(kind, ResourceType::Prompt);
            assert_eq!(dir_name, "dir");
            assert!(fallback.is_none());
        }
        _ => panic!("expected a resource fetch"),
    }
    match activity_entry_command(&entry("document")).expect("a document entry opens") {
        Command::OpenResource { kind, .. } => assert_eq!(kind, ResourceType::Document),
        _ => panic!("expected a resource fetch"),
    }
}

#[test]
fn unknown_entries_are_ignored() {
    assert!(activity_entry_command(&entry("meeting")).is_none());
}

#[test]
fn activity_view_navigation_and_select() {
    let mut app = App::new();
    app.view = View::Activity;
    app.activity = vec![entry("task"), entry("prompt")];
    handle_key(&mut app, Key::Char('G'));
    assert_eq!(app.activity_index, 1);
    match handle_key(&mut app, Key::Char(' ')) {
        Some(Command::OpenResource { kind, .. }) => assert_eq!(kind, ResourceType::Prompt),
        _ => panic!("expected a resource fetch"),
    }
    handle_key(&mut app, Key::Char('g'));
    assert_eq!(app.activity_index, 0);
}
