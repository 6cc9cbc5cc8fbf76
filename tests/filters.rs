use summarize::{
    file_extension, file_name, fts_match, globs_match, parse_globs, FindOpts, Glob, ParseError,
};

fn opts(file_types: &[&str], globs: &[&str]) -> FindOpts {
    FindOpts {
        dir: "root".to_string(),
        file_types: file_types.iter().map(|s| s.to_string()).collect(),
        globs: globs.iter().map(|g| Glob::parse(g).unwrap()).collect(),
    }
}

fn kept(o: &FindOpts, tree: &[&str]) -> Vec<String> {
    tree.iter().filter(|p| o.wants(p, false)).map(|p| p.to_string()).collect()
}

#[test]
fn final_name_and_extension() {
    assert_eq!(file_name("/foo/bar/baz/README.md"), Some("README.md"));
    assert_eq!(file_name("README.md"), Some("README.md"));
    assert_eq!(file_name("x/dir/"), Some("dir"));
    assert_eq!(file_name("x/dir/./"), Some("dir"));
    assert_eq!(file_name("/"), None);
    assert_eq!(file_name(""), None);
    assert_eq!(file_name("a/.."), None);
    assert_eq!(file_name("."), None);
    assert_eq!(file_extension("src/lib.rs"), Some("rs"));
    assert_eq!(file_extension("a.tar.gz"), Some("gz"));
    assert_eq!(file_extension("dir.d/file"), None);
    assert_eq!(file_extension("x/.gitignore"), Some("gitignore"));
    assert_eq!(file_extension("x/.a.b"), Some("b"));
    assert_eq!(file_extension("name."), Some(""));
    assert_eq!(file_extension("x/a.rs/"), Some("rs"));
    assert_eq!(file_extension("/"), None);
}

#[test]
fn extensions_are_alternatives() {
    let fts = vec!["kt".to_string(), "rs".to_string()];
    assert!(fts_match("src/main.rs", &fts));
    assert!(fts_match("App.kt", &fts));
    assert!(!fts_match("notes.md", &fts));
    assert!(!fts_match("Main.RS", &fts));
    assert!(!fts_match("a.tar.gz", &["tar".to_string()]));
    assert!(fts_match("x/.rs", &fts));
    assert!(fts_match(".rs", &["rs".to_string()]));
    assert!(fts_match("anything", &[]));
}

#[test]
fn patterns_must_all_accept() {
    let globs = vec![
        Glob::parse("src/**").unwrap(),
        Glob::parse("!**/gen/**").unwrap(),
    ];
    assert!(globs_match("src/a/b.rs", &globs));
    assert!(!globs_match("src/gen/b.rs", &globs));
    assert!(!globs_match("lib/a.rs", &globs));
    assert!(globs_match("anything", &[]));
}

#[test]
fn empty_filters_keep_files_not_directories() {
    let o = opts(&[], &[]);
    for p in ["a", "b.rs", "x/y/.hidden", ""] {
        assert!(o.wants(p, false));
        assert!(!o.wants(p, true));
        assert!(o.admits(p));
    }
}

#[test]
fn one_rejecting_pattern_rejects() {
    let o = opts(&["rs"], &["*.rs", "**/src/**", "!**/skip/**"]);
    assert!(o.admits("/p/src/a.rs"));
    assert!(!o.admits("/p/src/skip/a.rs"));
    assert!(!o.admits("/p/lib/a.rs"));
    assert!(!o.admits("/p/src/a.kt"));
}

#[test]
fn extension_filter_scenario() {
    let tree = ["root/a.rs", "root/b.kt", "root/sub/a.rs"];
    let o = opts(&["rs"], &[]);
    assert_eq!(kept(&o, &tree), vec!["root/a.rs", "root/sub/a.rs"]);
    assert!(!o.wants("root/sub", true));
}

#[test]
fn name_pattern_scenario() {
    let tree = ["root/README.md", "root/foo/bar/baz/README.md"];
    let o = opts(&[], &["README.md"]);
    assert_eq!(kept(&o, &tree), tree.to_vec());
}

#[test]
fn inverted_recursive_pattern_scenario() {
    let tree = ["root/README.md", "root/foo/bar/baz/README.md"];
    let o = opts(&[], &["!**/foobar/**"]);
    assert_eq!(kept(&o, &tree), tree.to_vec());
    let o = opts(&[], &["!**/bar/**"]);
    assert_eq!(kept(&o, &tree), vec!["root/README.md"]);
}

#[test]
fn first_refused_glob_stops_parsing() {
    let raw = vec!["*.rs".to_string(), "!".to_string(), "a**".to_string()];
    assert_eq!(parse_globs(&raw).unwrap_err(), ParseError::EmptyPattern);
    let raw = vec!["*.rs".to_string(), "!src/**".to_string()];
    let gs = parse_globs(&raw).unwrap();
    assert_eq!(gs.len(), 2);
    assert!(gs[0].matches("x.rs"));
    assert!(!gs[1].matches("src/x.rs"));
}
