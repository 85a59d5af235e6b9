use cliu::pattern::{Matcher, SearchError};
use cliu::search::{run_search, FileInput};

fn file(name: &str, lines: &[&str]) -> FileInput {
    FileInput {
        name: name.to_string(),
        lines: Some(lines.iter().map(|l| l.to_string()).collect()),
    }
}

fn missing(name: &str) -> FileInput {
    FileInput { name: name.to_string(), lines: None }
}

const NOTICE: &str = "No matches found. Try other words, files, or select case sensitive.";

#[test]
fn two_matches_one_per_line() {
    colored::control::set_override(false);
    let files = vec![file("a.txt", &["foo bar", "baz foo"])];
    let out = run_search("foo", false, &files).unwrap();
    assert_eq!(out.len(), 2);
    assert!(out[0].contains("(in a.txt)"));
    assert!(out[1].contains("(in a.txt)"));
    assert!(out[0].contains("foo"));
    assert!(out[1].contains("foo"));
    assert_eq!(out[0], " (in a.txt): foo bar");
    assert_eq!(out[1], "baz  (in a.txt): foo");
}

#[test]
fn all_misses_give_notice() {
    colored::control::set_override(false);
    let files = vec![file("a.txt", &["alpha", "beta"]), file("b.txt", &["gamma"])];
    let out = run_search("zzz", false, &files).unwrap();
    assert_eq!(out, vec![NOTICE.to_string()]);
}

#[test]
fn empty_file_gives_notice() {
    colored::control::set_override(false);
    let files = vec![file("a.txt", &[])];
    let out = run_search("x", false, &files).unwrap();
    assert_eq!(out, vec![NOTICE.to_string()]);
}

#[test]
fn case_insensitive_matches_all_casings() {
    colored::control::set_override(false);
    let lines = &["say Hello", "HELLO there", "plain hello", "goodbye"];
    let files = vec![file("c.txt", lines)];
    let out = run_search("hello", true, &files).unwrap();
    assert_eq!(out.len(), 3);
    // the matched text keeps its original casing
    assert_eq!(out[0], "say  (in c.txt): Hello");
    assert_eq!(out[1], " (in c.txt): HELLO there");
    let out = run_search("hello", false, &files).unwrap();
    assert_eq!(out.len(), 1);
    assert!(out[0].contains("plain"));
}

#[test]
fn first_occurrence_only() {
    let m = Matcher::compile("foo", false).unwrap();
    let (before, matched, after) = m.find_first_match("x foo y foo z").unwrap();
    assert_eq!(before, "x ");
    assert_eq!(matched, "foo");
    assert_eq!(after, " y foo z");
    colored::control::set_override(false);
    let files = vec![file("m.txt", &["foo foo foo"])];
    let out = run_search("foo", false, &files).unwrap();
    assert_eq!(out.len(), 1);
    assert_eq!(out[0], " (in m.txt): foo foo foo");
}

#[test]
fn invalid_pattern_fails_before_scanning() {
    let files = vec![file("a.txt", &["foo"])];
    let r = run_search("[", false, &files);
    assert!(matches!(r, Err(SearchError::InvalidPattern)));
    assert!(matches!(Matcher::compile("[", false), Err(SearchError::InvalidPattern)));
    assert!(matches!(Matcher::compile("[", true), Err(SearchError::InvalidPattern)));
}

#[test]
fn missing_file_is_skipped() {
    colored::control::set_override(false);
    let files = vec![missing("gone.txt"), file("good.txt", &["abc", "xyz"])];
    let out = run_search("b", false, &files).unwrap();
    assert_eq!(out.len(), 1);
    assert!(out[0].contains("(in good.txt)"));
}

#[test]
fn same_search_twice_same_results() {
    colored::control::set_override(false);
    let files = vec![file("a.txt", &["one match", "two match", "none"]), missing("nope")];
    let first = run_search("match", false, &files).unwrap();
    let second = run_search("match", false, &files).unwrap();
    assert_eq!(first, second);
    assert_eq!(first.len(), 2);
}

#[test]
fn results_cross_chunk_boundary_in_order() {
    colored::control::set_override(false);
    let lines: Vec<String> = (0..2500).map(|i| format!("x{}", i)).collect();
    let files = vec![FileInput { name: "big.txt".to_string(), lines: Some(lines) }];
    let out = run_search("x", false, &files).unwrap();
    assert_eq!(out.len(), 2500);
    assert_eq!(out[0], " (in big.txt): x0");
    assert_eq!(out[999], " (in big.txt): x999");
    assert_eq!(out[1000], " (in big.txt): x1000");
    assert_eq!(out[2499], " (in big.txt): x2499");
}

#[test]
fn matcher_duplicate_matches_alike() {
    let m = Matcher::compile("a+", false).unwrap();
    let d = m.duplicate();
    assert_eq!(m.find_first_match("baaad"), d.find_first_match("baaad"));
    assert_eq!(m.find_first_match("xyz"), None);
    assert_eq!(d.find_first_match("xyz"), None);
}
