use cliu::matching::{match_chunk, scan_lines, LineChunk, MatchRecord};
use cliu::output::{finalize_output, render_record, render_records};
use cliu::pattern::Matcher;

const NOTICE: &str = "No matches found. Try other words, files, or select case sensitive.";

fn record(before: &str, matched: &str, after: &str, file: &str) -> MatchRecord {
    MatchRecord {
        before: before.to_string(),
        matched: matched.to_string(),
        after: after.to_string(),
        file: file.to_string(),
    }
}

#[test]
fn rendered_line_has_the_pieces_in_order() {
    colored::control::set_override(false);
    let rec = record("a ", "foo", " b", "f.txt");
    assert_eq!(render_record(&rec), "a  (in f.txt): foo b");
}

#[test]
fn highlight_marks_the_matched_text() {
    colored::control::set_override(true);
    let rec = record("", "foo", " bar", "f.txt");
    let line = render_record(&rec);
    colored::control::unset_override();
    assert!(line.contains("foo"));
    assert!(line.contains("\u{1b}["));
    assert!(line.len() > " (in f.txt): foo bar".len());
    assert_ne!(line, " (in f.txt): foo bar");
}

#[test]
fn render_records_keeps_order() {
    colored::control::set_override(false);
    let recs = vec![record("", "a", "1", "f"), record("", "a", "2", "f")];
    let out = render_records(&recs);
    assert_eq!(out, vec![" (in f): a1".to_string(), " (in f): a2".to_string()]);
}

#[test]
fn finalize_keeps_results() {
    let results = vec!["one".to_string(), "two".to_string()];
    assert_eq!(finalize_output(results.clone()), results);
}

#[test]
fn finalize_empty_is_the_notice() {
    assert_eq!(finalize_output(Vec::new()), vec![NOTICE.to_string()]);
}

#[test]
fn chunk_matcher_splits_at_first_match() {
    let m = Matcher::compile("o", false).unwrap();
    let chunk = LineChunk {
        lines: vec!["foo".to_string(), "bar".to_string(), "go".to_string()],
        file: "c".to_string(),
    };
    let records = match_chunk(&m, &chunk);
    assert_eq!(records.len(), 2);
    assert_eq!(records[0].before, "f");
    assert_eq!(records[0].matched, "o");
    assert_eq!(records[0].after, "o");
    assert_eq!(records[0].file, "c");
    assert_eq!(records[1].before, "g");
    assert_eq!(records[1].matched, "o");
    assert_eq!(records[1].after, "");
}

#[test]
fn scanner_preserves_line_order() {
    let m = Matcher::compile("[0-9]+", false).unwrap();
    let lines: Vec<String> = vec![
        "first 1".to_string(),
        "none here".to_string(),
        "second 2".to_string(),
        "third 3".to_string(),
    ];
    let records = scan_lines(&m, "n.txt", &lines);
    assert_eq!(records.len(), 3);
    assert_eq!(records[0].matched, "1");
    assert_eq!(records[1].matched, "2");
    assert_eq!(records[2].matched, "3");
    assert_eq!(records[1].before, "second ");
}
