use findgrep::PathPattern;
use findgrep::compile_find_patterns;
use findgrep::path_is_match;

fn compile(pattern: &str) -> PathPattern {
    let mut compiled =
        compile_find_patterns(&vec![pattern.to_string()]).expect("pattern compiles");
    compiled.remove(0)
}

#[test]
fn path_is_match_single_pattern() {
    let path = "/tmp/some/path.txt".to_string();
    let pattern = compile(".*.txt");
    let patterns = vec![pattern];
    let is_match = path_is_match(&path, &patterns);
    assert!(is_match);
}

#[test]
fn path_is_match_no_patterns() {
    let path = "/tmp/some/path.txt".to_string();
    let patterns = vec![];
    let is_match = path_is_match(&path, &patterns);
    assert!(is_match);
}

#[test]
fn path_is_match_pattern_miss() {
    let path = "/tmp/some/path.txt".to_string();
    let pattern = compile(".*.py");
    let patterns = vec![pattern];
    let is_match = path_is_match(&path, &patterns);
    assert!(!is_match);
}

#[test]
fn path_is_match_second_pattern_hits() {
    let path = "/tmp/some/path.txt".to_string();
    let patterns = vec![compile(".*.py"), compile(".*.txt")];
    assert!(path_is_match(&path, &patterns));
}

#[test]
fn compile_rejects_bad_pattern() {
    let result = compile_find_patterns(&vec!["[".to_string()]);
    assert!(result.is_err());
}
