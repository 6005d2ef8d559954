use mdboard_tui::input::{Command, Key, handle_key, navigate_revision, open_resource_overlay,
    open_task_overlay, scroll_overlay};
use mdboard_tui::model::{Board, Column, Comment, CommentMeta, Resource, ResourceMeta, Revision,
    RevisionMeta, ScopesOrString, Task, TaskMeta};
use mdboard_tui::state::{App, Focus, Overlay, ResourceType, View};

fn task(name: &str, id: &str) -> Task {
    Task {
        filename: format!("{name}.md"),
        column: "todo".to_string(),
        meta: TaskMeta {
            id: id.to_string(),
            title: name.to_string(),
            assignee: String::new(),
            scopes: ScopesOrString::Empty,
            created: String::new(),
            due: String::new(),
            branch: String::new(),
            completed: String::new(),
        },
        body: String::new(),
    }
}

fn column(name: &str, tasks: Vec<Task>) -> Column {
    Column { name: name.to_string(), label: String::new(), color: String::new(), tasks }
}

fn resource(name: &str) -> Resource {
    Resource {
        dir_name: name.to_string(),
        meta: ResourceMeta {
            id: String::new(),
            title: name.to_string(),
            created: String::new(),
            updated: String::new(),
            revision: None,
            scopes: ScopesOrString::Empty,
        },
        body: String::new(),
    }
}

fn revision(n: i64) -> Revision {
    Revision {
        filename: format!("r{n}.md"),
        meta: RevisionMeta { revision: Some(n), created: String::new() },
        body: String::new(),
    }
}

fn board_app() -> App {
    let mut app = App::new();
    app.board = Some(Board {
        columns: vec![
            column("todo", vec![task("a", "1"), task("b", "2"), task("c", "")]),
            column("doing", vec![task("d", "4")]),
            column("done", vec![]),
        ],
    });
    app.board_row = vec![0, 0, 0];
    app.loading = false;
    app
}

fn resource_overlay_app(revs: usize) -> App {
    let mut app = App::new();
    let revisions: Vec<Revision> = (0..revs).map(|i| revision(i as i64)).collect();
    app.overlay = Some(Overlay::ResourceDetail {
        resource: resource("res"),
        revisions,
        current_rev: None,
        scroll: 7,
        resource_type: ResourceType::Prompt,
    });
    app
}

fn current_rev(app: &App) -> Option<usize> {
    match app.overlay.as_ref().expect("overlay open") {
        Overlay::ResourceDetail { current_rev, .. } => *current_rev,
        _ => panic!("not a resource detail"),
    }
}

fn overlay_scroll(app: &App) -> usize {
    match app.overlay.as_ref().expect("overlay open") {
        Overlay::TaskDetail { scroll, .. } => *scroll,
        Overlay::ResourceDetail { scroll, .. } => *scroll,
        Overlay::Help { scroll } => *scroll,
    }
}

#[test]
fn revision_cursor_walks_older_and_newer() {
    let mut app = resource_overlay_app(3);
    navigate_revision(&mut app, -1);
    assert_eq!(current_rev(&app), Some(2));
    navigate_revision(&mut app, -1);
    assert_eq!(current_rev(&app), Some(1));
    navigate_revision(&mut app, -1);
    assert_eq!(current_rev(&app), Some(0));
    // One more older step stays at the oldest revision.
    navigate_revision(&mut app, -1);
    assert_eq!(current_rev(&app), Some(0));
    // Three newer steps return to the current version.
    navigate_revision(&mut app, 1);
    assert_eq!(current_rev(&app), Some(1));
    navigate_revision(&mut app, 1);
    assert_eq!(current_rev(&app), Some(2));
    navigate_revision(&mut app, 1);
    assert_eq!(current_rev(&app), None);
}

#[test]
fn newer_from_current_is_a_no_op() {
    let mut app = resource_overlay_app(3);
    navigate_revision(&mut app, 1);
    assert_eq!(current_rev(&app), None);
    assert_eq!(overlay_scroll(&app), 7);
}

#[test]
fn moving_the_cursor_resets_scroll() {
    let mut app = resource_overlay_app(3);
    navigate_revision(&mut app, -1);
    assert_eq!(overlay_scroll(&app), 0);
}

#[test]
fn empty_revisions_ignore_navigation() {
    let mut app = resource_overlay_app(0);
    navigate_revision(&mut app, -1);
    assert_eq!(current_rev(&app), None);
    assert_eq!(overlay_scroll(&app), 7);
}

#[test]
fn down_at_last_row_is_a_no_op_and_column_memory_holds() {
    let mut app = board_app();
    app.board_col = 0;
    app.board_row = vec![2, 0, 0];
    handle_key(&mut app, Key::Down);
    assert_eq!(app.board_row[0], 2);
    handle_key(&mut app, Key::Right);
    assert_eq!(app.board_col, 1);
    // The column keeps its own remembered row.
    assert_eq!(app.board_row[1], 0);
    handle_key(&mut app, Key::Left);
    assert_eq!(app.board_col, 0);
    assert_eq!(app.board_row[0], 2);
}

#[test]
fn board_columns_do_not_wrap() {
    let mut app = board_app();
    handle_key(&mut app, Key::Left);
    assert_eq!(app.board_col, 0);
    handle_key(&mut app, Key::Right);
    handle_key(&mut app, Key::Right);
    handle_key(&mut app, Key::Right);
    assert_eq!(app.board_col, 2);
}

#[test]
fn up_at_first_row_moves_focus_to_tab_bar() {
    let mut app = board_app();
    handle_key(&mut app, Key::Up);
    assert_eq!(app.focus, Focus::TabBar);
}

#[test]
fn first_and_last_jumps() {
    let mut app = board_app();
    handle_key(&mut app, Key::Char('G'));
    assert_eq!(app.board_row[0], 2);
    handle_key(&mut app, Key::Char('g'));
    assert_eq!(app.board_row[0], 0);
}

#[test]
fn board_select_asks_for_the_task() {
    let mut app = board_app();
    app.board_row = vec![1, 0, 0];
    let cmd = handle_key(&mut app, Key::Enter).expect("a selection demands a fetch");
    match cmd {
        Command::OpenTask { column, filename, comments_id, fallback } => {
            assert_eq!(column, "todo");
            assert_eq!(filename, "b.md");
            assert_eq!(comments_id.as_deref(), Some("2"));
            assert_eq!(fallback.expect("a summary fallback").filename, "b.md");
        }
        _ => panic!("expected a task fetch"),
    }
}

#[test]
fn board_select_without_id_skips_comments() {
    let mut app = board_app();
    app.board_row = vec![2, 0, 0];
    let cmd = handle_key(&mut app, Key::Enter).expect("a selection demands a fetch");
    match cmd {
        Command::OpenTask { comments_id, .. } => assert!(comments_id.is_none()),
        _ => panic!("expected a task fetch"),
    }
}

#[test]
fn failed_secondary_fetch_still_opens_the_overlay() {
    let mut app = board_app();
    let summary = task("a", "1");
    // The secondary fetch failed: no fetched task, no comments.
    open_task_overlay(&mut app, None, Some(summary), None);
    match app.overlay.as_ref().expect("the overlay still opens") {
        Overlay::TaskDetail { task, comments, scroll } => {
            assert_eq!(task.filename, "a.md");
            assert!(comments.is_empty());
            assert_eq!(*scroll, 0);
        }
        _ => panic!("expected a task detail"),
    }
}

#[test]
fn fetched_task_wins_over_the_summary() {
    let mut app = board_app();
    let summary = task("a", "1");
    let mut full = task("a", "1");
    full.body = "full body".to_string();
    let comments = vec![Comment {
        filename: "c.md".to_string(),
        meta: CommentMeta { author: "me".to_string(), created: String::new() },
        body: "hi".to_string(),
    }];
    open_task_overlay(&mut app, Some(full), Some(summary), Some(comments));
    match app.overlay.as_ref().expect("overlay open") {
        Overlay::TaskDetail { task, comments, .. } => {
            assert_eq!(task.body, "full body");
            assert_eq!(comments.len(), 1);
        }
        _ => panic!("expected a task detail"),
    }
}

#[test]
fn failed_resource_fetch_keeps_the_summary() {
    let mut app = App::new();
    open_resource_overlay(&mut app, ResourceType::Document, None, Some(resource("doc")), None);
    match app.overlay.as_ref().expect("the overlay still opens") {
        Overlay::ResourceDetail { resource, revisions, current_rev, scroll, resource_type } => {
            assert_eq!(resource.dir_name, "doc");
            assert!(revisions.is_empty());
            assert!(current_rev.is_none());
            assert_eq!(*scroll, 0);
            assert_eq!(*resource_type, ResourceType::Document);
        }
        _ => panic!("expected a resource detail"),
    }
}

#[test]
fn quit_keys_always_win() {
    let mut app = board_app();
    app.overlay = Some(Overlay::Help { scroll: 0 });
    handle_key(&mut app, Key::Ctrl('c'));
    assert!(app.should_quit);
    let mut app = board_app();
    handle_key(&mut app, Key::Char('q'));
    assert!(app.should_quit);
}

#[test]
fn overlay_captures_keys_before_the_views() {
    let mut app = board_app();
    app.overlay = Some(Overlay::Help { scroll: 0 });
    // 'j' scrolls the overlay instead of moving the board cursor.
    handle_key(&mut app, Key::Char('j'));
    assert_eq!(overlay_scroll(&app), 1);
    assert_eq!(app.board_row[0], 0);
    // 'q' closes the overlay instead of quitting.
    handle_key(&mut app, Key::Char('q'));
    assert!(app.overlay.is_none());
    assert!(!app.should_quit);
    assert_eq!(app.focus, Focus::Content);
}

#[test]
fn overlay_scroll_clamps_at_zero_and_pages() {
    let mut app = board_app();
    app.overlay = Some(Overlay::Help { scroll: 0 });
    handle_key(&mut app, Key::Char('k'));
    assert_eq!(overlay_scroll(&app), 0);
    handle_key(&mut app, Key::Char(' '));
    assert_eq!(overlay_scroll(&app), 15);
    handle_key(&mut app, Key::Ctrl('u'));
    assert_eq!(overlay_scroll(&app), 0);
    handle_key(&mut app, Key::Char('G'));
    assert_eq!(overlay_scroll(&app), 1000);
    handle_key(&mut app, Key::Char('g'));
    assert_eq!(overlay_scroll(&app), 0);
}

#[test]
fn number_keys_select_views() {
    let mut app = board_app();
    app.focus = Focus::TabBar;
    handle_key(&mut app, Key::Char('3'));
    assert_eq!(app.view, View::Documents);
    assert_eq!(app.focus, Focus::Content);
}

#[test]
fn help_opens_from_anywhere_outside_an_overlay() {
    let mut app = board_app();
    handle_key(&mut app, Key::Char('?'));
    assert!(matches!(app.overlay, Some(Overlay::Help { scroll: 0 })));
}

#[test]
fn refresh_names_the_active_view() {
    let mut app = board_app();
    app.view = View::Prompts;
    match handle_key(&mut app, Key::Char('r')) {
        Some(Command::Refresh(v)) => assert_eq!(v, View::Prompts),
        _ => panic!("expected a refresh"),
    }
}

#[test]
fn tab_bar_cycles_views() {
    let mut app = board_app();
    app.focus = Focus::TabBar;
    handle_key(&mut app, Key::Right);
    assert_eq!(app.view, View::Prompts);
    handle_key(&mut app, Key::Left);
    assert_eq!(app.view, View::Board);
    handle_key(&mut app, Key::Left);
    assert_eq!(app.view, View::Activity);
    handle_key(&mut app, Key::Enter);
    assert_eq!(app.focus, Focus::Content);
}

#[test]
fn tab_cycles_from_content_too() {
    let mut app = board_app();
    handle_key(&mut app, Key::Tab);
    assert_eq!(app.view, View::Prompts);
    handle_key(&mut app, Key::BackTab);
    assert_eq!(app.view, View::Board);
}

#[test]
fn list_view_navigation_and_select() {
    let mut app = App::new();
    app.view = View::Prompts;
    app.prompts = vec![resource("one"), resource("two")];
    handle_key(&mut app, Key::Down);
    assert_eq!(app.prompt_index, 1);
    handle_key(&mut app, Key::Down);
    assert_eq!(app.prompt_index, 1);
    match handle_key(&mut app, Key::Enter) {
        Some(Command::OpenResource { kind, dir_name, fallback }) => {
            assert_eq!(kind, ResourceType::Prompt);
            assert_eq!(dir_name, "two");
            assert_eq!(fallback.expect("summary fallback").dir_name, "two");
        }
        _ => panic!("expected a resource fetch"),
    }
    handle_key(&mut app, Key::Up);
    assert_eq!(app.prompt_index, 0);
    handle_key(&mut app, Key::Up);
    assert_eq!(app.focus, Focus::TabBar);
}

#[test]
fn empty_list_up_goes_to_tab_bar() {
    let mut app = App::new();
    app.view = View::Documents;
    handle_key(&mut app, Key::Up);
    assert_eq!(app.focus, Focus::TabBar);
}

#[test]
fn scroll_overlay_saturates_below_zero() {
    let mut app = App::new();
    app.overlay = Some(Overlay::Help { scroll: 3 });
    scroll_overlay(&mut app, -10);
    assert_eq!(overlay_scroll(&app), 0);
}

#[test]
fn column_accessors_follow_the_cursor() {
    let mut app = board_app();
    assert_eq!(app.column_count(), 3);
    assert_eq!(app.current_column_tasks().len(), 3);
    assert_eq!(app.current_board_row(), 0);
    assert_eq!(app.selected_task().expect("a task under the cursor").filename, "a.md");
    app.board_col = 2;
    assert!(app.current_column_tasks().is_empty());
    assert!(app.selected_task().is_none());
    let empty = App::new();
    assert_eq!(empty.column_count(), 0);
    assert!(empty.current_column_tasks().is_empty());
}

#[test]
fn set_board_row_grows_the_row_vector() {
    let mut app = board_app();
    app.board_row = vec![];
    app.board_col = 1;
    app.set_board_row(0);
    assert_eq!(app.board_row, vec![0, 0]);
}
