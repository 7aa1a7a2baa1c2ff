use vstd::prelude::*;

verus! {

#[verifier::external_type_specification]
#[verifier::external_body]
pub struct ExRegex(regex::bytes::Regex);

/// Whether `regex::bytes::Regex::new` accepts the given pattern text.
pub uninterp spec fn path_pattern_ok(pattern: Seq<char>) -> bool;

/// Whether the compiled form of `pattern` matches somewhere in `text`,
/// as decided by `regex::bytes::Regex::is_match`.
pub uninterp spec fn path_pattern_matches(pattern: Seq<char>, text: Seq<char>) -> bool;

/// A path-name pattern compiled once before a traversal begins, kept
/// together with the text it was compiled from. The fields are private, so
/// a value can only come from `compile_path_pattern`, which guarantees that
/// the held regex is the compiled form of the held text.
pub struct PathPattern {
    regex: regex::bytes::Regex,
    pattern: String,
}

impl PathPattern {
    /// The text this pattern was compiled from.
    pub closed spec fn text(self) -> Seq<char> {
        self.pattern@
    }
}

/// Relies on `regex::bytes::Regex::new`: whether a pattern compiles is a
/// function of the pattern text alone; on failure it reports why.
#[verifier::external_body]
pub(crate) fn compile_path_pattern(pattern: &String) -> (r: Result<PathPattern, String>)
    ensures
        r is Ok <==> path_pattern_ok(pattern@),
        r matches Ok(p) ==> p.text() == pattern@,
{
    match regex::bytes::Regex::new(pattern.as_str()) {
        Ok(regex) => Ok(PathPattern { regex, pattern: pattern.clone() }),
        Err(err) => Err(format!("{}", err)),
    }
}

/// Relies on `regex::bytes::Regex::is_match`: the verdict is a function of
/// the compiled pattern and the haystack alone.
#[verifier::external_body]
fn path_pattern_is_match(p: &PathPattern, text: &String) -> (r: bool)
    ensures
        r == path_pattern_matches(p.text(), text@),
{
    p.regex.is_match(text.as_bytes())
}

/// The pattern texts of a compiled pattern list.
pub open spec fn pattern_texts(pats: Seq<PathPattern>) -> Seq<Seq<char>> {
    pats.map_values(|p: PathPattern| p.text())
}

/// The path filter as a predicate: an empty pattern list admits every path,
/// and a non-empty one admits exactly the paths that some pattern matches.
pub open spec fn spec_path_matches(pats: Seq<Seq<char>>, text: Seq<char>) -> bool {
    pats.len() == 0 || exists|i: int| 0 <= i < pats.len() && path_pattern_matches(pats[i], text)
}

/// Tests a path's string form against a compiled pattern list: true when the
/// list is empty or when at least one pattern matches.
pub fn path_is_match(path: &String, regex_patterns: &Vec<PathPattern>) -> (r: bool)
    ensures
        r == spec_path_matches(pattern_texts(regex_patterns@), path@),
{
    let ghost texts = pattern_texts(regex_patterns@);
    if regex_patterns.len() == 0 {
        return true;
    }
    let mut i: usize = 0;
    while i < regex_patterns.len()
        invariant
            0 <= i <= regex_patterns.len(),
            texts == pattern_texts(regex_patterns@),
            forall|j: int| 0 <= j < i ==> !path_pattern_matches(texts[j], path@),
        decreases regex_patterns.len() - i,
    {
        if path_pattern_is_match(&regex_patterns[i], path) {
            assert(path_pattern_matches(texts[i as int], path@));
            return true;
        }
        i = i + 1;
    }
    false
}

/// Law: with an empty pattern list the path filter admits every path.
pub proof fn lemma_empty_patterns_match_all(pats: Seq<Seq<char>>, path: Seq<char>)
    requires
        pats.len() == 0,
    ensures
        spec_path_matches(pats, path),
{
}

/// Law: with a non-empty pattern list, a path that no pattern matches is
/// rejected by the path filter.
pub proof fn lemma_unmatched_path_rejected(pats: Seq<Seq<char>>, path: Seq<char>)
    requires
        pats.len() > 0,
        forall|i: int| 0 <= i < pats.len() ==> !path_pattern_matches(pats[i], path),
    ensures
        !spec_path_matches(pats, path),
{
}

/// Law: a path that at least one pattern of the list matches is admitted by
/// the path filter.
pub proof fn lemma_matched_path_admitted(pats: Seq<Seq<char>>, path: Seq<char>, i: int)
    requires
        0 <= i < pats.len(),
        path_pattern_matches(pats[i], path),
    ensures
        spec_path_matches(pats, path),
{
}

} // verus!
