use vstd::prelude::*;

use grep_matcher::Matcher;

use crate::data::GrepResult;

verus! {

#[verifier::external_type_specification]
#[verifier::external_body]
pub struct ExRegexMatcher(grep_regex::RegexMatcher);

/// Whether `grep_regex::RegexMatcher::new` accepts the given pattern text.
pub uninterp spec fn grep_pattern_ok(pattern: Seq<char>) -> bool;

/// The first match that the compiled form of `pattern` finds in `line`, as
/// decided by `grep_matcher::Matcher::find` for `grep_regex::RegexMatcher`:
/// the matched substring, or nothing when the pattern does not match or its
/// match falls inside a multi-byte character and so has no substring form.
pub uninterp spec fn line_first_match(pattern: Seq<char>, line: Seq<char>) -> Option<Seq<char>>;

/// A content pattern compiled once before a traversal begins, kept together
/// with the text it was compiled from for attribution in match records. The
/// fields are private, so a value can only come from `compile_grep_pattern`,
/// which guarantees that the held matcher is the compiled form of the held
/// text.
pub struct RegexMatcherInfo {
    matcher: grep_regex::RegexMatcher,
    pattern: String,
}

impl RegexMatcherInfo {
    /// The text this pattern was compiled from.
    pub closed spec fn text(self) -> Seq<char> {
        self.pattern@
    }

    /// The source text of this pattern.
    pub fn pattern_text(&self) -> (r: &String)
        ensures
            r@ == self.text(),
    {
        &self.pattern
    }
}

/// Relies on `grep_regex::RegexMatcher::new`: whether a pattern compiles is
/// a function of the pattern text alone; on failure it reports why.
#[verifier::external_body]
pub(crate) fn compile_grep_pattern(pattern: &String) -> (r: Result<RegexMatcherInfo, String>)
    ensures
        r is Ok <==> grep_pattern_ok(pattern@),
        r matches Ok(m) ==> m.text() == pattern@,
{
    match grep_regex::RegexMatcher::new(pattern.as_str()) {
        Ok(matcher) => Ok(RegexMatcherInfo { matcher, pattern: pattern.clone() }),
        Err(err) => Err(format!("{}", err)),
    }
}

/// Relies on `grep_searcher::Searcher::search_path` with the `UTF8` sink:
/// the sink's closure is called once per line on which the pattern matches,
/// in file order, with that line's 1-based number and its text, so the
/// reported line numbers are strictly increasing. A read or decode error
/// ends the scan early; the lines seen before it are still returned.
#[verifier::external_body]
fn scan_matching_lines(m: &RegexMatcherInfo, path: &String) -> (r: Vec<(u64, String)>)
    ensures
        forall|i: int| 0 <= i < r@.len() ==> (#[trigger] r@[i]).0 >= 1,
        forall|i: int, j: int| 0 <= i < j < r@.len() ==> r@[i].0 < r@[j].0,
{
    let mut lines: Vec<(u64, String)> = Vec::new();
    let _ = grep_searcher::Searcher::new().search_path(
        &m.matcher,
        std::path::Path::new(path.as_str()),
        grep_searcher::sinks::UTF8(|lnum, line| {
            lines.push((lnum, line.to_string()));
            Ok(true)
        }),
    );
    lines
}

/// Whether `t` is a contiguous subrange of `s`.
pub open spec fn substring_of(t: Seq<char>, s: Seq<char>) -> bool {
    exists|k: int|
        0 <= k && k + t.len() <= s.len() && t == #[trigger] s.subrange(k, k + t.len() as int)
}

/// Relies on `grep_matcher::Matcher::find` for `grep_regex::RegexMatcher`
/// (which cannot fail): the first match is a function of the compiled
/// pattern and the line alone, and is reported as the matched substring of
/// the line. A byte-level pattern can match inside a multi-byte character;
/// such a span has no text form that is a substring of the line, so it
/// yields no match rather than a mangled or panicking slice.
#[verifier::external_body]
fn first_match_text(m: &RegexMatcherInfo, line: &String) -> (r: Option<String>)
    ensures
        r.deep_view() == line_first_match(m.text(), line@),
        r matches Some(t) ==> substring_of(t@, line@),
{
    match m.matcher.find(line.as_bytes()) {
        Ok(Some(found)) => line.as_str().get(found.start()..found.end()).map(|t| t.to_string()),
        _ => None,
    }
}

/// The pattern texts of a compiled content-pattern list.
pub open spec fn matcher_texts(ms: Seq<RegexMatcherInfo>) -> Seq<Seq<char>> {
    ms.map_values(|m: RegexMatcherInfo| m.text())
}

/// The view of a match record: pattern text, matched substring, full line,
/// 1-based line number.
pub open spec fn record_view(r: GrepResult) -> (Seq<char>, Seq<char>, Seq<char>, u64) {
    (r.pattern@, r.matching_text@, r.matching_line@, r.lineno)
}

/// The views of a list of scanned lines.
pub open spec fn line_views(lines: Seq<(u64, String)>) -> Seq<(u64, Seq<char>)> {
    lines.map_values(|p: (u64, String)| (p.0, p.1@))
}

/// The match records owed for `lines` under one content pattern: one record
/// per line on which the pattern finds a first match, in line order.
pub open spec fn spec_records(
    pattern: Seq<char>,
    lines: Seq<(u64, Seq<char>)>,
) -> Seq<(Seq<char>, Seq<char>, Seq<char>, u64)>
    decreases lines.len(),
{
    if lines.len() == 0 {
        Seq::empty()
    } else {
        let rest = spec_records(pattern, lines.drop_last());
        match line_first_match(pattern, lines.last().1) {
            Some(t) => rest.push((pattern, t, lines.last().1, lines.last().0)),
            None => rest,
        }
    }
}

/// What every record carried by a file entry satisfies for the pattern it
/// names: it is attributed to that pattern, its line number is 1-based, its
/// matched text is the pattern's first match on its line, and that text is
/// a contiguous substring of the line.
pub open spec fn valid_grep_record(pattern: Seq<char>, r: GrepResult) -> bool {
    &&& r.pattern@ == pattern
    &&& r.lineno >= 1
    &&& line_first_match(pattern, r.matching_line@) == Some(r.matching_text@)
    &&& substring_of(r.matching_text@, r.matching_line@)
}

proof fn lemma_spec_records_valid(pattern: Seq<char>, lines: Seq<(u64, Seq<char>)>)
    requires
        forall|i: int| 0 <= i < lines.len() ==> (#[trigger] lines[i]).0 >= 1,
    ensures
        forall|i: int| 0 <= i < spec_records(pattern, lines).len()
            ==> {
                let r = #[trigger] spec_records(pattern, lines)[i];
                r.0 == pattern && r.3 >= 1 && line_first_match(pattern, r.2) == Some(r.1)
            },
    decreases lines.len(),
{
    if lines.len() > 0 {
        lemma_spec_records_valid(pattern, lines.drop_last());
    }
}

proof fn lemma_spec_records_increasing(pattern: Seq<char>, lines: Seq<(u64, Seq<char>)>)
    requires
        forall|i: int, j: int| 0 <= i < j < lines.len() ==> lines[i].0 < lines[j].0,
    ensures
        forall|i: int, j: int| 0 <= i < j < spec_records(pattern, lines).len()
            ==> spec_records(pattern, lines)[i].3 < spec_records(pattern, lines)[j].3,
        lines.len() > 0 ==> forall|i: int| 0 <= i < spec_records(pattern, lines).len()
            ==> spec_records(pattern, lines)[i].3 <= lines.last().0,
    decreases lines.len(),
{
    if lines.len() > 0 {
        let prev = lines.drop_last();
        let prevrec = spec_records(pattern, prev);
        let records = spec_records(pattern, lines);
        assert(forall|i: int, j: int| 0 <= i < j < prev.len() ==> prev[i].0 < prev[j].0);
        lemma_spec_records_increasing(pattern, prev);
        assert forall|i: int| 0 <= i < prevrec.len() implies prevrec[i].3 < lines.last().0 by {
            assert(prev.len() > 0);
            assert(prev.last() == lines[lines.len() - 2]);
            assert(prev.last().0 < lines.last().0);
        }
        match line_first_match(pattern, lines.last().1) {
            Some(t) => {
                assert(records == prevrec.push((pattern, t, lines.last().1, lines.last().0)));
                assert forall|i: int, j: int| 0 <= i < j < records.len() implies records[i].3
                    < records[j].3 by {
                    assert(records[i] == prevrec[i]);
                    if j == prevrec.len() {
                        assert(records[j].3 == lines.last().0);
                    } else {
                        assert(records[j] == prevrec[j]);
                    }
                }
                assert forall|i: int| 0 <= i < records.len() implies records[i].3
                    <= lines.last().0 by {
                    if i < prevrec.len() {
                        assert(records[i] == prevrec[i]);
                    } else {
                        assert(records[i].3 == lines.last().0);
                    }
                }
            },
            None => {
                assert(records == prevrec);
            },
        }
    }
}

/// Builds the match records for the scanned lines of one file under one
/// content pattern: for every line on which the pattern finds a match, one
/// record with the pattern's text, the matched substring, the full line and
/// its line number, in line order.
pub fn match_records(matcher_info: &RegexMatcherInfo, lines: &Vec<(u64, String)>) -> (r: Vec<
    GrepResult,
>)
    ensures
        r@.map_values(|g: GrepResult| record_view(g)) == spec_records(
            matcher_info.text(),
            line_views(lines@),
        ),
        forall|i: int| 0 <= i < r@.len() ==> substring_of(
            (#[trigger] r@[i]).matching_text@,
            r@[i].matching_line@,
        ),
{
    let ghost all = line_views(lines@);
    let mut results: Vec<GrepResult> = Vec::new();
    let mut i: usize = 0;
    while i < lines.len()
        invariant
            0 <= i <= lines.len(),
            all == line_views(lines@),
            results@.map_values(|g: GrepResult| record_view(g)) == spec_records(
                matcher_info.text(),
                all.take(i as int),
            ),
            forall|k: int| 0 <= k < results@.len() ==> substring_of(
                (#[trigger] results@[k]).matching_text@,
                results@[k].matching_line@,
            ),
        decreases lines.len() - i,
    {
        let ghost prefix = all.take(i as int);
        let ghost next = all.take(i + 1 as int);
        proof {
            assert(next.drop_last() =~= prefix);
            assert(next.last() == all[i as int]);
        }
        let lineno = lines[i].0;
        let line = &lines[i].1;
        match first_match_text(matcher_info, line) {
            Some(text) => {
                let record = GrepResult {
                    pattern: matcher_info.pattern.clone(),
                    matching_text: text,
                    matching_line: line.clone(),
                    lineno,
                };
                results.push(record);
                proof {
                    assert(results@.map_values(|g: GrepResult| record_view(g)) =~= spec_records(
                        matcher_info.text(),
                        next,
                    ));
                    assert(substring_of(
                        results@.last().matching_text@,
                        results@.last().matching_line@,
                    ));
                }
            },
            None => {
                proof {
                    assert(results@.map_values(|g: GrepResult| record_view(g)) =~= spec_records(
                        matcher_info.text(),
                        next,
                    ));
                }
            },
        }
        i = i + 1;
    }
    proof {
        assert(all.take(lines@.len() as int) =~= all);
    }
    results
}

/// Scans one file's content against one content pattern: one record per
/// matching line, with strictly increasing line numbers (so at most one
/// record per line), in line order. A read or decode error does not abort
/// the traversal; the records gathered before it are returned.
pub fn grep_file(path: &String, matcher_info: &RegexMatcherInfo) -> (r: Vec<GrepResult>)
    ensures
        forall|i: int| 0 <= i < r@.len() ==> valid_grep_record(
            matcher_info.text(),
            #[trigger] r@[i],
        ),
        forall|i: int, j: int| 0 <= i < j < r@.len() ==> r@[i].lineno < r@[j].lineno,
{
    let lines = scan_matching_lines(matcher_info, path);
    let results = match_records(matcher_info, &lines);
    proof {
        let views = line_views(lines@);
        let records = spec_records(matcher_info.text(), views);
        assert(forall|i: int| 0 <= i < views.len() ==> (#[trigger] views[i]).0 == lines@[i].0);
        lemma_spec_records_valid(matcher_info.text(), views);
        lemma_spec_records_increasing(matcher_info.text(), views);
        assert forall|i: int| 0 <= i < results@.len() implies valid_grep_record(
            matcher_info.text(),
            #[trigger] results@[i],
        ) by {
            assert(record_view(results@[i]) == results@.map_values(
                |g: GrepResult| record_view(g),
            )[i]);
        }
        assert forall|i: int, j: int| 0 <= i < j < results@.len() implies results@[i].lineno
            < results@[j].lineno by {
            assert(record_view(results@[i]) == results@.map_values(
                |g: GrepResult| record_view(g),
            )[i]);
            assert(record_view(results@[j]) == results@.map_values(
                |g: GrepResult| record_view(g),
            )[j]);
            assert(results@[i].lineno == records[i].3);
            assert(results@[j].lineno == records[j].3);
        }
    }
    results
}

/// Whether a record is owed to one of the given content-pattern texts: some
/// pattern of the list is the one the record names, and the record is a
/// valid first-match record for it.
pub open spec fn record_attributed(grep_texts: Seq<Seq<char>>, r: GrepResult) -> bool {
    exists|k: int| 0 <= k < grep_texts.len() && valid_grep_record(grep_texts[k], r)
}

/// Whether a record list is one pattern's pass over one file: every record
/// is a valid first-match record for that pattern, and the line numbers are
/// strictly increasing (so at most one record per line, in line order).
pub open spec fn pattern_segment(pattern: Seq<char>, s: Seq<GrepResult>) -> bool {
    &&& forall|i: int| 0 <= i < s.len() ==> valid_grep_record(pattern, #[trigger] s[i])
    &&& forall|i: int, j: int| 0 <= i < j < s.len() ==> s[i].lineno < s[j].lineno
}

/// Whether a record list is the concatenation, over the content-pattern
/// texts in configured order, of one pass per pattern, each pass in line
/// order.
pub open spec fn grouped_by_pattern(grep_texts: Seq<Seq<char>>, rs: Seq<GrepResult>) -> bool {
    exists|segs: Seq<Seq<GrepResult>>|
        #![trigger segs.flatten()]
        {
            &&& segs.len() == grep_texts.len()
            &&& rs == segs.flatten()
            &&& forall|j: int| 0 <= j < segs.len() ==> pattern_segment(
                grep_texts[j],
                #[trigger] segs[j],
            )
        }
}

/// Scans one file against every content pattern in order, concatenating the
/// match records: pattern order first, then line order within each pattern.
pub fn grep_all(path: &String, matchers: &Vec<RegexMatcherInfo>) -> (r: Vec<GrepResult>)
    ensures
        matchers@.len() == 0 ==> r@.len() == 0,
        forall|i: int| 0 <= i < r@.len() ==> record_attributed(
            matcher_texts(matchers@),
            #[trigger] r@[i],
        ),
        grouped_by_pattern(matcher_texts(matchers@), r@),
{
    let ghost texts = matcher_texts(matchers@);
    let ghost mut segs: Seq<Seq<GrepResult>> = Seq::empty();
    let mut results: Vec<GrepResult> = Vec::new();
    proof {
        assert(Seq::<Seq<GrepResult>>::empty().flatten() =~= Seq::<GrepResult>::empty());
    }
    let mut j: usize = 0;
    while j < matchers.len()
        invariant
            0 <= j <= matchers.len(),
            texts == matcher_texts(matchers@),
            j == 0 ==> results@.len() == 0,
            segs.len() == j,
            results@ == segs.flatten(),
            forall|k: int| 0 <= k < j ==> pattern_segment(texts[k], #[trigger] segs[k]),
            forall|i: int| 0 <= i < results@.len() ==> record_attributed(
                texts,
                #[trigger] results@[i],
            ),
        decreases matchers.len() - j,
    {
        let mut found = grep_file(path, &matchers[j]);
        let ghost pre = results@;
        let ghost add = found@;
        results.append(&mut found);
        proof {
            assert(pattern_segment(texts[j as int], add));
            segs.lemma_flatten_push(add);
            segs = segs.push(add);
            assert(results@ =~= segs.flatten());
            assert forall|i: int| 0 <= i < results@.len() implies record_attributed(
                texts,
                #[trigger] results@[i],
            ) by {
                if i < pre.len() {
                    assert(results@[i] == pre[i]);
                } else {
                    assert(results@[i] == add[i - pre.len()]);
                    assert(valid_grep_record(texts[j as int], results@[i]));
                }
            }
        }
        j = j + 1;
    }
    proof {
        assert(results@ == segs.flatten());
        assert(grouped_by_pattern(texts, results@));
    }
    results
}

} // verus!
