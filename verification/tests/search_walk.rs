use cage_bro::filesystem::FileSearchRequest;
use cage_bro::search::{file_pattern_matches, SearchWalk};

fn request(query: &str, pattern: Option<&str>, max: Option<usize>) -> FileSearchRequest {
    FileSearchRequest {
        query: query.to_string(),
        path: None,
        file_pattern: pattern.map(|p| p.to_string()),
        max_results: max,
    }
}

#[test]
fn file_patterns() {
    assert!(file_pattern_matches("anything.bin", "*"));
    assert!(file_pattern_matches("main.rs", "*.rs"));
    assert!(!file_pattern_matches("main.rsx", "*.rs"));
    assert!(!file_pattern_matches("rs", "*.rs"));
    assert!(file_pattern_matches("my_test_file.py", "test"));
    assert!(!file_pattern_matches("main.py", "test"));
    assert!(file_pattern_matches(".rs", "*.rs"));
}

#[test]
fn walk_visits_depth_first_and_filters_names() {
    let mut w = SearchWalk::new("/w".to_string(), &request("x", Some("*.rs"), None));
    assert_eq!(w.next_dir(), Some("/w".to_string()));
    assert!(!w.visit("/w/src".to_string(), "src", true));
    assert!(!w.visit("/w/docs".to_string(), "docs", true));
    assert!(w.visit("/w/lib.rs".to_string(), "lib.rs", false));
    assert!(!w.visit("/w/notes.md".to_string(), "notes.md", false));
    assert_eq!(w.next_dir(), Some("/w/docs".to_string()));
    assert_eq!(w.next_dir(), Some("/w/src".to_string()));
    assert_eq!(w.next_dir(), None);
}

#[test]
fn scan_is_case_insensitive_and_numbers_lines() {
    let mut w = SearchWalk::new("/w".to_string(), &request("NEEDLE", None, None));
    assert!(w.visit("/w/a.rs".to_string(), "a.rs", false));
    let full = w.scan_file("/w/a.rs", "fn main() {}\r\n// needle: fix\r\nlet x = 1; // NeeDle\n");
    assert!(!full);
    let r = w.into_results();
    assert_eq!(r.len(), 2);
    assert_eq!((r[0].path.as_str(), r[0].line_number, r[0].line_content.as_str()), ("/w/a.rs", 2, "// needle: fix"));
    assert_eq!((r[1].line_number, r[1].line_content.as_str()), (3, "let x = 1; // NeeDle"));
}

#[test]
fn scan_handles_last_line_without_newline() {
    let mut w = SearchWalk::new("/w".to_string(), &request("end", None, None));
    assert!(w.visit("/w/b.txt".to_string(), "b.txt", false));
    assert!(!w.scan_file("/w/b.txt", "start\nthe end"));
    let r = w.into_results();
    assert_eq!(r.len(), 1);
    assert_eq!(r[0].line_number, 2);
    assert_eq!(r[0].line_content, "the end");
}

#[test]
fn scan_stops_at_the_limit() {
    let mut w = SearchWalk::new("/w".to_string(), &request("a", None, Some(2)));
    assert!(w.visit("/w/x".to_string(), "x", false));
    assert!(w.scan_file("/w/x", "a1\nb\na2\na3\n"));
    assert!(w.is_full());
    let r = w.into_results();
    assert_eq!(r.len(), 2);
    assert_eq!(r[0].line_content, "a1");
    assert_eq!(r[1].line_content, "a2");
}

#[test]
fn limit_spans_files() {
    let mut w = SearchWalk::new("/w".to_string(), &request("k", None, Some(3)));
    assert!(w.visit("/w/one".to_string(), "one", false));
    assert!(!w.scan_file("/w/one", "k\nk\n"));
    assert!(!w.is_full());
    assert!(w.visit("/w/two".to_string(), "two", false));
    assert!(w.scan_file("/w/two", "k\nk\n"));
    let r = w.into_results();
    assert_eq!(r.len(), 3);
    assert_eq!(r[2].path, "/w/two");
    assert_eq!(r[2].line_number, 1);
}

#[test]
fn zero_limit_reports_nothing() {
    let w = SearchWalk::new("/w".to_string(), &request("z", None, Some(0)));
    assert!(w.is_full());
    assert_eq!(w.into_results().len(), 0);
}

#[test]
fn absent_limit_is_unlimited() {
    let mut w = SearchWalk::new("/w".to_string(), &request("x", None, None));
    let content = "x\n".repeat(250);
    assert!(w.visit("/w/big".to_string(), "big", false));
    assert!(!w.scan_file("/w/big", &content));
    assert!(!w.is_full());
    assert_eq!(w.into_results().len(), 250);
}

#[test]
fn visit_approves_only_matching_files() {
    let mut w = SearchWalk::new("/w".to_string(), &request("x", Some("*.rs"), None));
    assert!(!w.visit("/w/a.md".to_string(), "a.md", false));
    assert!(w.visit("/w/a.rs".to_string(), "a.rs", false));
    assert!(!w.scan_file("/w/a.rs", "x\n"));
    assert_eq!(w.into_results().len(), 1);
}

#[test]
fn empty_query_matches_every_line() {
    let mut w = SearchWalk::new("/w".to_string(), &request("", None, None));
    assert!(w.visit("/w/f".to_string(), "f", false));
    assert!(!w.scan_file("/w/f", "one\n\nthree\n"));
    let r = w.into_results();
    assert_eq!(r.iter().map(|h| h.line_number).collect::<Vec<_>>(), vec![1, 2, 3]);
}
