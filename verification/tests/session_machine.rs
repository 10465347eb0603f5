use filepilot::config::{Config, Key};
use filepilot::file_system::{FileExplorer, FileInfo};
use filepilot::search::{SearchEngine, SearchError, SearchStrategy};
use filepilot::session::{App, ClipboardOperation, SessionAction};

fn entry(path: &str, name: &str, is_directory: bool) -> FileInfo {
    FileInfo {
        path: path.to_string(),
        name: name.to_string(),
        is_directory,
        size: 1,
        modified: None,
    }
}

fn fresh_app() -> App {
    let files = vec![
        entry("/root/sub", "sub", true),
        entry("/root/a.txt", "a.txt", false),
        entry("/root/b.txt", "b.txt", false),
    ];
    let explorer = FileExplorer::new("/root".to_string(), files);
    App::new(explorer, SearchEngine::new(), Config::default(), 0)
}

#[test]
fn exit_with_results_moves_to_viewing_them() {
    let mut app = fresh_app();
    assert!(matches!(app.handle_key(Key::Char('/'), 1), SessionAction::Idle));
    assert!(app.search_mode);

    let action = app.handle_key(Key::Char('a'), 2);
    assert!(matches!(action, SessionAction::RunSearch { .. }));
    let results = {
        let engine = SearchEngine::new();
        engine.search_in_files(app.explorer.files(), "a")
    };
    assert!(!results.is_empty());
    app.perform_search(Ok(results), 3);

    app.handle_key(Key::Enter, 4);
    assert!(!app.search_mode);
    assert!(app.showing_search_results);
    assert!(!app.search_results.is_empty());
}

#[test]
fn exit_with_empty_results_abandons_the_search() {
    let mut app = fresh_app();
    app.handle_key(Key::Char('/'), 1);
    app.handle_key(Key::Char('z'), 2);
    app.perform_search(Ok(Vec::new()), 3);

    app.handle_key(Key::Enter, 4);
    assert!(!app.search_mode);
    assert!(!app.showing_search_results);
    assert!(app.search_input.is_empty());
}

#[test]
fn toggle_while_typing_requests_one_search_under_the_new_strategy() {
    let mut app = fresh_app();
    app.handle_key(Key::Char('/'), 1);
    app.handle_key(Key::Char('a'), 2);
    assert_eq!(app.search_strategy, SearchStrategy::Fast);

    let action = app.handle_key(Key::F(2), 3);
    match action {
        SessionAction::RunSearch {
            strategy,
            debounce_ms,
        } => {
            assert_eq!(strategy, SearchStrategy::Comprehensive);
            assert_eq!(debounce_ms, 50);
        }
        other => panic!("expected one re-search, got {:?}", other),
    }
    assert_eq!(app.search_strategy, SearchStrategy::Comprehensive);
}

#[test]
fn toggle_with_empty_query_requests_nothing() {
    let mut app = fresh_app();
    app.handle_key(Key::Char('/'), 1);
    let action = app.handle_key(Key::F(2), 2);
    assert!(matches!(action, SessionAction::Idle));
    assert_eq!(app.search_strategy, SearchStrategy::Comprehensive);
}

#[test]
fn typed_characters_build_the_query_and_debounce() {
    let mut app = fresh_app();
    app.handle_key(Key::Char('/'), 1);
    let a1 = app.handle_key(Key::Char('h'), 2);
    let a2 = app.handle_key(Key::Char('i'), 3);
    assert_eq!(app.search_input, "hi");
    for a in [a1, a2] {
        match a {
            SessionAction::RunSearch {
                strategy,
                debounce_ms,
            } => {
                assert_eq!(strategy, SearchStrategy::Fast);
                assert_eq!(debounce_ms, 100);
            }
            other => panic!("expected a search request, got {:?}", other),
        }
    }
    app.handle_key(Key::Backspace, 4);
    assert_eq!(app.search_input, "h");
    app.handle_key(Key::Backspace, 5);
    assert_eq!(app.search_input, "");
    assert!(app.search_results.is_empty());
}

#[test]
fn cursor_wraps_around_both_ways() {
    let mut app = fresh_app();
    assert_eq!(app.list_state, Some(0));
    app.next_item();
    assert_eq!(app.list_state, Some(1));
    app.next_item();
    assert_eq!(app.list_state, Some(2));
    app.next_item();
    assert_eq!(app.list_state, Some(0));
    app.previous_item();
    assert_eq!(app.list_state, Some(2));
}

#[test]
fn activating_a_directory_asks_to_navigate_and_clears_results() {
    let mut app = fresh_app();
    // Select the directory entry in the browse list and activate it.
    let action = app.handle_key(Key::Right, 1);
    match action {
        SessionAction::NavigateInto { path } => assert_eq!(path, "/root/sub"),
        other => panic!("expected navigation, got {:?}", other),
    }
    let listing = vec![
        entry("/root/sub/d", "d", true),
        entry("/root/sub/inner.txt", "inner.txt", false),
    ];
    app.finish_navigation("/root/sub".to_string(), listing, 2);
    assert_eq!(app.explorer.current_path().as_str(), "/root/sub");
    assert_eq!(app.list_state, Some(0));

    // The same activation from the result list also drops the results.
    app.handle_key(Key::Char('/'), 3);
    app.handle_key(Key::Char('d'), 4);
    let results = SearchEngine::new().search_in_files(app.explorer.files(), "d");
    app.perform_search(Ok(results), 5);
    app.handle_key(Key::Enter, 6);
    assert!(app.showing_search_results);
    let action = app.handle_key(Key::Right, 7);
    match action {
        SessionAction::NavigateInto { path } => assert_eq!(path, "/root/sub/d"),
        other => panic!("expected navigation, got {:?}", other),
    }
    app.finish_navigation("/root/sub/d".to_string(), Vec::new(), 8);
    assert!(!app.showing_search_results);
    assert!(app.search_results.is_empty());
    assert_eq!(app.list_state, None);
}

#[test]
fn going_up_resets_the_cursor() {
    let mut app = fresh_app();
    let action = app.handle_key(Key::Left, 1);
    assert!(matches!(action, SessionAction::GoUp));
    let parent_listing = vec![entry("/root", "root", true)];
    app.go_up(parent_listing);
    assert_eq!(app.explorer.current_path().as_str(), "/");
    assert_eq!(app.list_state, Some(0));
}

#[test]
fn messages_report_search_outcomes_and_fade() {
    let mut app = fresh_app();
    app.handle_key(Key::Char('/'), 1);
    app.handle_key(Key::Char('a'), 2);

    let results = SearchEngine::new().search_in_files(app.explorer.files(), "a");
    let found = results.len();
    app.perform_search(Ok(results), 3);
    assert_eq!(
        app.get_current_message(),
        format!("Found {} results (Fast (limited depth))", found)
    );

    app.perform_search(Ok(Vec::new()), 4);
    assert_eq!(
        app.get_current_message(),
        "No results found for 'a' (Fast (limited depth))"
    );

    app.perform_search(Err(SearchError::TimedOut { elapsed_limit: 30 }), 5);
    assert!(app.get_current_message().starts_with("Search error: Search timed out after 30 seconds"));

    // An error fades after eight seconds, back to the default hint.
    app.update_message_fade(5 + 8000);
    assert!(app.get_current_message().starts_with("Search error:"));
    app.update_message_fade(5 + 8001);
    assert_eq!(
        app.get_current_message(),
        "Press '/' to search, 'q' to quit, Enter to navigate, 'x' to cut, 'c' to copy, 'v' to paste"
    );
}

#[test]
fn opening_a_directory_is_refused_with_an_error() {
    let mut app = fresh_app();
    // The cursor starts on the directory entry.
    let action = app.handle_key(Key::Char('o'), 1);
    assert!(matches!(action, SessionAction::Idle));
    assert_eq!(
        app.get_current_message(),
        "Cannot open directory as file. Use Enter to navigate."
    );

    app.next_item();
    let action = app.handle_key(Key::Char('o'), 2);
    match action {
        SessionAction::OpenFile { path } => assert_eq!(path, "/root/a.txt"),
        other => panic!("expected an open request, got {:?}", other),
    }
}

#[test]
fn cut_and_copy_remember_the_selection() {
    let mut app = fresh_app();
    app.next_item(); // move off the directory onto a.txt
    let msg = app.cut_selected_file().unwrap();
    assert_eq!(
        msg,
        "Cut 'a.txt' - navigate to destination and press 'v' to paste"
    );
    let entry = app.clipboard.as_ref().unwrap();
    assert_eq!(entry.file_path, "/root/a.txt");
    assert!(matches!(entry.operation, ClipboardOperation::Cut));

    app.next_item();
    let msg = app.copy_selected_file().unwrap();
    assert_eq!(
        msg,
        "Copied 'b.txt' - navigate to destination and press 'v' to paste"
    );
    let entry = app.clipboard.as_ref().unwrap();
    assert_eq!(entry.file_path, "/root/b.txt");
    assert!(matches!(entry.operation, ClipboardOperation::Copy));
}

#[test]
fn quit_key_asks_to_leave() {
    let mut app = fresh_app();
    assert!(matches!(app.handle_key(Key::Char('q'), 1), SessionAction::Quit));
}
