use filepilot::file_system::{FileExplorer, FileInfo};

fn entry(path: &str, name: &str, is_directory: bool) -> FileInfo {
    FileInfo {
        path: path.to_string(),
        name: name.to_string(),
        is_directory,
        size: 0,
        modified: None,
    }
}

#[test]
fn parent_paths_follow_the_last_separator() {
    let ex = FileExplorer::new("/a/b".to_string(), Vec::new());
    assert_eq!(ex.parent_path().unwrap(), "/a");

    let ex = FileExplorer::new("/a".to_string(), Vec::new());
    assert_eq!(ex.parent_path().unwrap(), "/");

    let ex = FileExplorer::new("/".to_string(), Vec::new());
    assert!(ex.parent_path().is_none());

    let ex = FileExplorer::new("noslash".to_string(), Vec::new());
    assert!(ex.parent_path().is_none());
}

#[test]
fn navigation_replaces_path_and_listing() {
    let mut ex = FileExplorer::new("/a".to_string(), vec![entry("/a/x", "x", true)]);
    assert_eq!(ex.files().len(), 1);
    ex.navigate_to("/a/x".to_string(), vec![entry("/a/x/y.txt", "y.txt", false)]);
    assert_eq!(ex.current_path().as_str(), "/a/x");
    assert_eq!(ex.files()[0].name, "y.txt");
    ex.go_up(vec![entry("/a/x", "x", true)]);
    assert_eq!(ex.current_path().as_str(), "/a");
}

#[test]
fn cloned_entries_keep_every_field() {
    let e = FileInfo {
        path: "/p/q".to_string(),
        name: "q".to_string(),
        is_directory: true,
        size: 42,
        modified: Some(7),
    };
    let c = e.clone();
    assert_eq!(c.path, e.path);
    assert_eq!(c.name, e.name);
    assert_eq!(c.is_directory, e.is_directory);
    assert_eq!(c.size, e.size);
    assert_eq!(c.modified, e.modified);
}
