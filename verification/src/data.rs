use vstd::prelude::*;

verus! {

/// One content match inside a file: the pattern that matched, the matched
/// substring, the full line it occurred on, and the 1-based line number.
#[derive(Debug, Clone)]
pub struct GrepResult {
    pub pattern: String,
    pub matching_text: String,
    pub matching_line: String,
    pub lineno: u64,
}

/// One entry reported by a traversal: its path, an entry-kind tag
/// ("file" or "directory"), and the content matches attached to it.
#[derive(Debug, Clone)]
pub struct FindResult {
    pub path: String,
    pub path_type: String,
    pub grep_results: Vec<GrepResult>,
}

} // verus!
