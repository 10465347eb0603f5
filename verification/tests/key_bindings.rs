use filepilot::config::{Key, KeyBindings};

#[test]
fn test_key_binding_matching() {
    let bindings = KeyBindings::default();

    // Single character key matching
    assert!(bindings.matches_key(&vec!["q".to_string()], &Key::Char('q')));
    assert!(!bindings.matches_key(&vec!["q".to_string()], &Key::Char('w')));

    // Special key matching
    assert!(bindings.matches_key(&vec!["Up".to_string()], &Key::Up));
    assert!(bindings.matches_key(&vec!["Enter".to_string()], &Key::Enter));
    assert!(bindings.matches_key(&vec!["Esc".to_string()], &Key::Esc));

    // Multiple key bindings
    assert!(bindings.matches_key(&vec!["Up".to_string(), "k".to_string()], &Key::Up));
    assert!(bindings.matches_key(&vec!["Up".to_string(), "k".to_string()], &Key::Char('k')));
    assert!(!bindings.matches_key(&vec!["Up".to_string(), "k".to_string()], &Key::Char('j')));

    // Function keys
    assert!(bindings.matches_key(&vec!["F2".to_string()], &Key::F(2)));
    assert!(!bindings.matches_key(&vec!["F2".to_string()], &Key::F(3)));
}

#[test]
fn test_key_display() {
    let bindings = KeyBindings::default();

    assert_eq!(bindings.get_key_display(&vec!["q".to_string()]), "q");
    assert_eq!(
        bindings.get_key_display(&vec!["Up".to_string(), "k".to_string()]),
        "Up/k"
    );
    assert_eq!(
        bindings.get_key_display(&vec!["o".to_string(), "O".to_string()]),
        "o/O"
    );
}

#[test]
fn test_default_bindings_match_their_keys() {
    let bindings = KeyBindings::default();

    assert!(bindings.matches_key(&bindings.navigation.up, &Key::Up));
    assert!(bindings.matches_key(&bindings.navigation.down, &Key::Down));
    assert!(bindings.matches_key(&bindings.actions.quit, &Key::Char('q')));
    assert!(bindings.matches_key(&bindings.actions.search, &Key::Char('/')));
    assert!(bindings.matches_key(&bindings.actions.open, &Key::Char('O')));
    assert!(bindings.matches_key(&bindings.search_mode.toggle_strategy, &Key::F(2)));
    assert!(bindings.matches_key(&bindings.search_results.back, &Key::Left));
    assert!(!bindings.matches_key(&bindings.actions.quit, &Key::Char('Q')));
}
