use filepilot::file_system::FileInfo;
use filepilot::matching::MatchType;
use filepilot::search::{SearchEngine, SearchError, SearchStrategy, WalkOutcome};

fn entry(path: &str, name: &str, is_directory: bool) -> FileInfo {
    FileInfo {
        path: path.to_string(),
        name: name.to_string(),
        is_directory,
        size: 1,
        modified: Some(0),
    }
}

#[test]
fn local_search_returns_exactly_the_matching_names() {
    let engine = SearchEngine::new();
    let files = vec![
        entry("/docs/report.txt", "report.txt", false),
        entry("/docs/readme.md", "readme.md", false),
        entry("/docs/image.png", "image.png", false),
    ];
    let results = engine.search_in_files(&files, "re");
    assert_eq!(results.len(), 2);
    let names: Vec<&str> = results.iter().map(|r| r.file_info.name.as_str()).collect();
    assert!(names.contains(&"report.txt"));
    assert!(names.contains(&"readme.md"));
    assert!(!names.contains(&"image.png"));
    for r in &results {
        assert!(matches!(r.match_type, MatchType::FileName));
    }
}

#[test]
fn substring_only_hit_scores_the_path_tier() {
    // The query is invalid regex syntax and no fuzzy match on the name; only
    // the case-insensitive path substring rule can fire, at the lower tier.
    let engine = SearchEngine::new();
    let candidates = vec![entry("/docs/re(/notes.txt", "notes.txt", false)];
    let results = engine
        .search(WalkOutcome::Completed { candidates }, "re(")
        .unwrap();
    assert_eq!(results.len(), 1);
    assert_eq!(results[0].score, 30);
    assert!(matches!(results[0].match_type, MatchType::FilePath));
}

#[test]
fn uppercase_query_on_path_only_scores_the_path_tier() {
    // Smart-case fuzzy and case-sensitive regex both miss; the lowercased
    // substring occurs in the path but not in the name.
    let engine = SearchEngine::new();
    let candidates = vec![entry("/home/zeta/a.txt", "a.txt", false)];
    let results = engine
        .search(WalkOutcome::Completed { candidates }, "ZETA")
        .unwrap();
    assert_eq!(results.len(), 1);
    assert_eq!(results[0].score, 30);
    assert!(matches!(results[0].match_type, MatchType::FilePath));
}

#[test]
fn regex_match_on_path_scores_fifty() {
    let engine = SearchEngine::new();
    let candidates = vec![entry("/tmp/main.rs", "main.rs", false)];
    let results = engine
        .search(WalkOutcome::Completed { candidates }, "^/tmp/.*\\.rs$")
        .unwrap();
    assert_eq!(results.len(), 1);
    assert_eq!(results[0].score, 50);
    assert!(matches!(results[0].match_type, MatchType::FilePath));
}

#[test]
fn fuzzy_name_match_wins_the_name_tier() {
    let engine = SearchEngine::new();
    let candidates = vec![entry("/tmp/main.rs", "main.rs", false)];
    let results = engine
        .search(WalkOutcome::Completed { candidates }, "main")
        .unwrap();
    assert_eq!(results.len(), 1);
    assert!(matches!(results[0].match_type, MatchType::FileName));
}

#[test]
fn lowercasing_makes_uppercase_queries_hit() {
    // Smart-case fuzzy fails on "READ" against a lowercase name; the hit
    // exists only because both sides are lowercased before the substring test.
    let engine = SearchEngine::new();
    let files = vec![entry("/docs/readme.md", "readme.md", false)];
    let results = engine.search_in_files(&files, "READ");
    assert_eq!(results.len(), 1);
    assert_eq!(results[0].score, 25);
}

#[test]
fn missing_root_is_rejected_not_panicking() {
    let engine = SearchEngine::new();
    let r = engine.search(WalkOutcome::MissingRoot, "anything");
    match r {
        Err(SearchError::InvalidRoot { reason }) => {
            assert_eq!(reason, "search path does not exist");
        }
        _ => panic!("expected InvalidRoot"),
    }
    let r = engine.search(WalkOutcome::NotADirectory, "anything");
    assert!(matches!(r, Err(SearchError::InvalidRoot { .. })));
}

#[test]
fn elapsed_deadline_reports_the_documented_limit() {
    let engine = SearchEngine::new();
    match engine.search(WalkOutcome::DeadlineExceeded, "q") {
        Err(SearchError::TimedOut { elapsed_limit }) => assert_eq!(elapsed_limit, 30),
        _ => panic!("expected TimedOut"),
    }
    match engine.search_fast(WalkOutcome::DeadlineExceeded, "q", 100) {
        Err(SearchError::TimedOut { elapsed_limit }) => assert_eq!(elapsed_limit, 10),
        _ => panic!("expected TimedOut"),
    }
    let msg = SearchError::TimedOut { elapsed_limit: 30 }.message();
    assert!(msg.starts_with("Search timed out after 30 seconds"));
    let msg = SearchError::TimedOut { elapsed_limit: 127 }.message();
    assert_eq!(msg, "Search timed out after 127 seconds.");
}

#[test]
fn scores_are_sorted_non_increasing() {
    let engine = SearchEngine::new();
    // The query's uppercase keeps smart-case fuzzy out and it is invalid
    // regex syntax, so only the two substring tiers can fire.
    let candidates = vec![
        entry("/docs/re(/notes.txt", "notes.txt", false), // substring in path only: 30
        entry("/x/re(/re(.txt", "re(.txt", false),        // substring in name too: 40
        entry("/y/other.bin", "other.bin", false),        // no match
        entry("/z/re(/data.csv", "data.csv", false),      // 30
    ];
    let results = engine
        .search(WalkOutcome::Completed { candidates }, "RE(")
        .unwrap();
    assert_eq!(results.len(), 3);
    for i in 0..results.len() - 1 {
        assert!(results[i].score >= results[i + 1].score);
    }
    assert_eq!(results[0].score, 40);
}

#[test]
fn fast_search_respects_the_callers_cap() {
    let engine = SearchEngine::new();
    let mut candidates = Vec::new();
    for i in 0..5 {
        let name = format!("file{}.txt", i);
        candidates.push(entry(&format!("/d/{}", name), &name, false));
    }
    let results = engine
        .search_fast(WalkOutcome::Completed { candidates }, "file", 2)
        .unwrap();
    assert_eq!(results.len(), 2);
}

#[test]
fn comprehensive_search_caps_at_one_thousand() {
    let engine = SearchEngine::new();
    let mut candidates = Vec::new();
    for i in 0..1100 {
        let name = format!("file{}.txt", i);
        candidates.push(entry(&format!("/d/{}", name), &name, false));
    }
    let results = engine
        .search(WalkOutcome::Completed { candidates }, "file")
        .unwrap();
    assert_eq!(results.len(), 1000);
}

#[test]
fn local_search_never_exceeds_its_input_length() {
    let engine = SearchEngine::new();
    let files = vec![
        entry("/a/a.txt", "a.txt", false),
        entry("/a/ab.txt", "ab.txt", false),
    ];
    let results = engine.search_in_files(&files, "a");
    assert!(results.len() <= files.len());
}

#[test]
fn identical_inputs_give_identical_ordered_results() {
    let engine = SearchEngine::new();
    let files = vec![
        entry("/d/report.txt", "report.txt", false),
        entry("/d/readme.md", "readme.md", false),
        entry("/d/real.rs", "real.rs", false),
        entry("/d/red.c", "red.c", false),
    ];
    let first = engine.search_in_files(&files, "re");
    let second = engine.search_in_files(&files, "re");
    assert_eq!(first.len(), second.len());
    for (a, b) in first.iter().zip(second.iter()) {
        assert_eq!(a.file_info.path, b.file_info.path);
        assert_eq!(a.score, b.score);
        assert_eq!(
            matches!(a.match_type, MatchType::FileName),
            matches!(b.match_type, MatchType::FileName)
        );
    }
}

#[test]
fn strategies_cycle_and_carry_their_constraints() {
    assert_eq!(SearchStrategy::Fast.next(), SearchStrategy::Comprehensive);
    assert_eq!(
        SearchStrategy::Comprehensive.next(),
        SearchStrategy::LocalOnly
    );
    assert_eq!(SearchStrategy::LocalOnly.next(), SearchStrategy::Fast);

    let fast = SearchStrategy::Fast.walk_constraints().unwrap();
    assert_eq!(fast.max_depth, 4);
    assert_eq!(fast.max_file_size, 50 * 1024 * 1024);
    let comp = SearchStrategy::Comprehensive.walk_constraints().unwrap();
    assert_eq!(comp.max_depth, 8);
    assert_eq!(comp.max_file_size, 100 * 1024 * 1024);
    assert!(SearchStrategy::LocalOnly.walk_constraints().is_none());

    assert_eq!(SearchStrategy::Fast.description(), "Fast (limited depth)");
}
