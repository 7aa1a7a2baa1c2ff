use std::io::Write;

use findgrep::FindGrepConfig;
use findgrep::RegexMatcherInfo;
use findgrep::SearchError;
use findgrep::compile_grep_patterns;
use findgrep::findgrep;
use findgrep::grep_file;

fn compile_one(pattern: &str) -> RegexMatcherInfo {
    let mut compiled =
        compile_grep_patterns(&vec![pattern.to_string()]).expect("pattern compiles");
    compiled.remove(0)
}

#[test]
fn default_config_values() {
    let config = FindGrepConfig::default();
    assert_eq!(config.threads, 0);
    assert!(config.ignore_hidden);
    assert_eq!(config.buffer_size, 1024);
    assert!(!config.log_errors);
    assert!(config.only_files);
    assert!(config.filter_by_grep);
    assert!(config.find_patterns.is_empty());
    assert!(config.grep_patterns.is_empty());
}

#[test]
fn bad_find_pattern_fails_fast() {
    let mut config = FindGrepConfig::default();
    config.find_patterns = vec!["ok.*".to_string(), "[".to_string(), "(".to_string()];
    let err = findgrep("/nonexistent-root".to_string(), config).expect_err("bad pattern");
    match err {
        SearchError::FindPattern { pattern, message } => {
            assert_eq!(pattern, "[", "the first failing pattern is reported");
            assert!(!message.is_empty());
        },
        SearchError::GrepPattern { .. } => panic!("wrong error kind"),
    }
}

#[test]
fn bad_grep_pattern_fails_fast() {
    let mut config = FindGrepConfig::default();
    config.find_patterns = vec!["ok.*".to_string()];
    config.grep_patterns = vec!["fine".to_string(), "(".to_string()];
    let err = findgrep("/nonexistent-root".to_string(), config).expect_err("bad pattern");
    match err {
        SearchError::GrepPattern { pattern, message } => {
            assert_eq!(pattern, "(");
            assert!(!message.is_empty());
        },
        SearchError::FindPattern { .. } => panic!("wrong error kind"),
    }
}

#[test]
fn grep_file_first_match_per_line() {
    let dir = tempfile::Builder::new().prefix("fg-grep").tempdir().expect("working directory");
    let mut file = tempfile::Builder::new()
        .prefix("lines.txt")
        .rand_bytes(0)
        .tempfile_in(dir.path())
        .expect("create file");
    file.write_all(b"hello world\nnothing here\nsay hello hello again")
        .expect("write content");
    let matcher = compile_one("hello");
    let path = file.path().to_string_lossy().into_owned();
    let records = grep_file(&path, &matcher);
    assert_eq!(records.len(), 2);
    assert_eq!(records[0].lineno, 1);
    assert_eq!(records[0].matching_line, "hello world\n");
    assert_eq!(records[0].matching_text, "hello");
    assert_eq!(records[0].pattern, "hello");
    assert_eq!(records[1].lineno, 3);
    assert_eq!(
        records[1].matching_line, "say hello hello again",
        "a doubled pattern still yields one record for its line"
    );
    assert_eq!(records[1].matching_text, "hello");
}

#[test]
fn match_records_builds_one_record_per_matching_line() {
    let matcher = compile_one("hel+o");
    let lines = vec![
        (1u64, "hello world".to_string()),
        (2u64, "nothing".to_string()),
        (4u64, "say helo".to_string()),
    ];
    let records = findgrep::match_records(&matcher, &lines);
    assert_eq!(records.len(), 2);
    assert_eq!(records[0].lineno, 1);
    assert_eq!(records[0].matching_text, "hello");
    assert_eq!(records[0].matching_line, "hello world");
    assert_eq!(records[0].pattern, "hel+o");
    assert_eq!(records[1].lineno, 4);
    assert_eq!(records[1].matching_text, "helo");
}

#[test]
fn byte_match_inside_a_character_yields_no_record() {
    let matcher = compile_one("(?-u)\\xE2");
    let lines = vec![(1u64, "€uro".to_string())];
    let records = findgrep::match_records(&matcher, &lines);
    assert!(
        records.is_empty(),
        "a span with no text form that is a substring of the line is not reported"
    );
}

#[test]
fn grep_file_missing_file_yields_nothing() {
    let matcher = compile_one("hello");
    let records = grep_file(&"/nonexistent-root/missing.txt".to_string(), &matcher);
    assert!(records.is_empty());
}
