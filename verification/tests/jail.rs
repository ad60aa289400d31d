use cage_bro::filesystem::{canonical_candidates, edit_content, FileError, LocalFilesystem};
use cage_bro::path::{
    is_strictly_below, join_paths, paths_equal, lexical_components, normalize_path, path_starts_with,
    render_components,
};

fn comps(v: &[&str]) -> Vec<Vec<char>> {
    v.iter().map(|s| s.chars().collect()).collect()
}

#[test]
fn normalize_resolves_dots() {
    assert_eq!(normalize_path("/a/./b/../c"), comps(&["/", "a", "c"]));
    assert_eq!(normalize_path("a//b/"), comps(&["a", "b"]));
    assert_eq!(normalize_path("./x"), comps(&["x"]));
    assert_eq!(normalize_path(""), comps(&[]));
}

#[test]
fn normalize_parent_of_root_pops_root() {
    assert_eq!(normalize_path("/.."), comps(&[]));
    assert_eq!(normalize_path("/../etc/passwd"), comps(&["etc", "passwd"]));
    assert_eq!(normalize_path("../../a"), comps(&["a"]));
}

#[test]
fn render_round_trips() {
    assert_eq!(render_components(&comps(&["/", "srv", "ws"])), "/srv/ws");
    assert_eq!(render_components(&comps(&["/"])), "/");
    assert_eq!(render_components(&comps(&["a", "b"])), "a/b");
    assert_eq!(render_components(&comps(&[])), "");
    let p = "/srv//alice/./workspace/../workspace/x";
    let once = render_components(&normalize_path(p));
    assert_eq!(once, "/srv/alice/workspace/x");
    assert_eq!(render_components(&normalize_path(&once)), once);
}

#[test]
fn resolve_accepts_paths_inside_root() {
    let fs = LocalFilesystem::new("/srv/alice/workspace".to_string());
    assert_eq!(fs.resolve_with(true, "hello.txt").unwrap(), "/srv/alice/workspace/hello.txt");
    assert_eq!(fs.resolve_with(true, "scripts/./hello.py").unwrap(), "/srv/alice/workspace/scripts/hello.py");
    assert_eq!(fs.resolve_with(true, ".").unwrap(), "/srv/alice/workspace");
    assert_eq!(fs.resolve_with(true, "/srv/alice/workspace/a/b").unwrap(), "/srv/alice/workspace/a/b");
    assert_eq!(fs.resolve_with(true, "a/../../workspace/x").unwrap(), "/srv/alice/workspace/x");
}

#[test]
fn resolve_rejects_escapes() {
    let fs = LocalFilesystem::new("/srv/alice/workspace".to_string());
    for p in ["/srv/bob/workspace/secret.csv", "../bob/secret.csv", "../../../etc/passwd", "/srv/alice/workspace2/x", "/"] {
        match fs.resolve_with(true, p) {
            Err(FileError::PathEscape(m)) => assert_eq!(m, p),
            other => panic!("{} resolved to {:?}", p, other),
        }
    }
    let e = fs.resolve_with(true, "/srv/bob/workspace/secret.csv").unwrap_err();
    assert_eq!(e.message(), "path outside sandbox: /srv/bob/workspace/secret.csv");
}

#[test]
fn resolve_reports_missing_root() {
    let fs = LocalFilesystem::new("/srv/alice/workspace".to_string());
    match fs.resolve_with(false, "hello.txt") {
        Err(FileError::IoError(m)) => assert_eq!(m, "Workspace root does not exist: \"/srv/alice/workspace\""),
        other => panic!("{:?}", other),
    }
}

#[test]
fn resolve_checks_the_disk() {
    let root = "/tmp".to_string();
    let fs = LocalFilesystem::new(root.clone());
    assert_eq!(fs.root(), root);
    assert!(fs.resolve("x.txt").is_ok());
    let missing = LocalFilesystem::new("/nonexistent-cage-root-for-tests".to_string());
    assert!(matches!(missing.resolve("x.txt"), Err(FileError::IoError(_))));
}

#[test]
fn relative_root_jail() {
    let fs = LocalFilesystem::new("workspace".to_string());
    assert_eq!(fs.resolve_with(true, "a/b").unwrap(), "workspace/a/b");
    assert!(matches!(fs.resolve_with(true, "../a"), Err(FileError::PathEscape(_))));
}

#[test]
fn edit_replaces_first_occurrence() {
    assert_eq!(edit_content("name,age\nAlice,30", "name,age", "name,age,city").unwrap(), "name,age,city\nAlice,30");
    assert_eq!(edit_content("a-b-a", "a", "X").unwrap(), "X-b-a");
    assert_eq!(edit_content("\"debug\": false", "\"debug\": false", "\"debug\": true").unwrap(), "\"debug\": true");
    assert_eq!(edit_content("abc", "", "Z").unwrap(), "Zabc");
    assert_eq!(edit_content("héllo wörld", "wö", "wo").unwrap(), "héllo world");
}

#[test]
fn edit_reports_missing_text() {
    match edit_content("abc", "zz", "y") {
        Err(FileError::IoError(m)) => assert_eq!(m, "old_text not found in file"),
        other => panic!("{:?}", other),
    }
    assert_eq!(
        edit_content("abc", "zz", "y").unwrap_err().message(),
        "io error: old_text not found in file"
    );
}

#[test]
fn file_error_messages() {
    assert_eq!(FileError::NotFound("a".into()).message(), "file not found: a");
    assert_eq!(FileError::PermissionDenied("b".into()).message(), "permission denied: b");
}

#[test]
fn join_like_pathbuf() {
    assert_eq!(join_paths("/base", ".cage-bro/restored"), "/base/.cage-bro/restored");
    assert_eq!(join_paths("/base/", "x"), "/base/x");
    assert_eq!(join_paths("", "x"), "x");
    assert_eq!(join_paths("/base", "/abs"), "/abs");
}

#[test]
fn lexical_components_keep_parent_dirs() {
    assert_eq!(lexical_components("/a/../b"), comps(&["/", "a", "..", "b"]));
    assert_eq!(lexical_components("./a/./b"), comps(&[".", "a", "b"]));
    assert_eq!(lexical_components("a//b/"), comps(&["a", "b"]));
    assert!(path_starts_with("/base/.cage-bro/restored/x", "/base/.cage-bro/restored"));
    assert!(!path_starts_with("/base/.cage-bro/restoredx", "/base/.cage-bro/restored"));
    assert!(is_strictly_below("/base/r/x", "/base/r"));
    assert!(!is_strictly_below("/base/r", "/base/r/"));
    assert!(!is_strictly_below("/base/other", "/base/r"));
}

#[test]
fn search_starts_at_root_or_resolved_path() {
    let fs = LocalFilesystem::new("/tmp".to_string());
    assert_eq!(fs.search_root(None).unwrap(), "/tmp");
    assert_eq!(fs.search_root(Some("a/..")).unwrap(), "/tmp");
    assert!(matches!(fs.search_root(Some("../etc")), Err(FileError::PathEscape(_))));
}

#[test]
fn existence_inside_the_jail_only() {
    let fs = LocalFilesystem::new("/".to_string());
    assert!(fs.exists_at("tmp"));
    assert!(!fs.exists_at("no-such-entry-here"));
    let tmp = LocalFilesystem::new("/tmp".to_string());
    assert!(!tmp.exists_at("../etc"));
    let missing = LocalFilesystem::new("/nonexistent-cage-root-for-tests".to_string());
    assert!(!missing.exists_at("x"));
}

#[test]
fn resolving_twice_changes_nothing_for_absolute_roots() {
    let fs = LocalFilesystem::new("/srv/w".to_string());
    let once = fs.resolve_with(true, "a/../b/./c").unwrap();
    assert_eq!(once, "/srv/w/b/c");
    assert_eq!(fs.resolve_with(true, &once).unwrap(), once);
    // a relative root is joined again to a relative result
    let rel = LocalFilesystem::new("workspace".to_string());
    let first = rel.resolve_with(true, "a").unwrap();
    assert_eq!(first, "workspace/a");
    assert_eq!(rel.resolve_with(true, &first).unwrap(), "workspace/workspace/a");
}

#[test]
fn path_equality_by_components() {
    assert!(paths_equal("/a/b", "/a//b/"));
    assert!(paths_equal("/a/./b", "/a/b"));
    assert!(!paths_equal("/a/../b", "/b"));
    assert!(!paths_equal("a/b", "/a/b"));
    assert!(paths_equal("./a", "./a"));
    assert!(!paths_equal("./a", "a"));
}

#[test]
fn symlinks_out_of_the_root_are_refused() {
    // /proc/self/root is a symbolic link to the filesystem root
    let fs = LocalFilesystem::new("/proc/self".to_string());
    assert!(fs.resolve("status").is_ok());
    match fs.resolve("root/etc/passwd") {
        Err(FileError::PathEscape(m)) => assert_eq!(m, "root/etc/passwd"),
        other => panic!("{:?}", other),
    }
    assert!(!fs.exists_at("root/etc/passwd"));
    // the lexical check alone lets it through
    assert!(fs.resolve_with(true, "root/etc/passwd").is_ok());
}

#[test]
fn confinement_given_the_disk_answers() {
    let fs = LocalFilesystem::new("/srv/w".to_string());
    let ok = fs.confine_real(true, "a/b", Some("/data/w".to_string()), Some("/data/w/a".to_string()));
    assert_eq!(ok.unwrap(), "/srv/w/a/b");
    assert!(matches!(
        fs.confine_real(true, "a/b", Some("/data/w".to_string()), Some("/etc".to_string())),
        Err(FileError::PathEscape(_))
    ));
    assert!(matches!(fs.confine_real(true, "a/b", Some("/data/w".to_string()), None), Err(FileError::PathEscape(_))));
    assert_eq!(fs.confine_real(true, "a/b", None, None).unwrap(), "/srv/w/a/b");
    assert!(matches!(fs.confine_real(true, "../x", None, None), Err(FileError::PathEscape(_))));
}

#[test]
fn paths_are_shown_relative_to_the_workspace() {
    let fs = LocalFilesystem::new("/srv/w".to_string());
    assert_eq!(fs.workspace_relative("/srv/w/src/main.rs"), "src/main.rs");
    assert_eq!(fs.workspace_relative("/srv/w//src/./main.rs"), "src/main.rs");
    assert_eq!(fs.workspace_relative("/srv/w"), "");
    assert_eq!(fs.workspace_relative("/srv/other/x"), "/srv/other/x");
    assert_eq!(fs.workspace_relative("/srv/wx/y"), "/srv/wx/y");
}

#[test]
fn canonical_candidates_run_longest_first() {
    assert_eq!(canonical_candidates("/srv/w/a/../b"), vec!["/srv/w/b", "/srv/w", "/srv", "/"]);
    assert_eq!(canonical_candidates("x/./y"), vec!["x/y", "x"]);
    assert!(canonical_candidates("").is_empty());
}

