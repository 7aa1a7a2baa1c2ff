use vstd::prelude::*;

use crate::data::FindResult;
use crate::grep::RegexMatcherInfo;
use crate::grep::compile_grep_pattern;
use crate::grep::grep_pattern_ok;
use crate::grep::matcher_texts;
use crate::pattern::PathPattern;
use crate::pattern::compile_path_pattern;
use crate::pattern::path_pattern_ok;
use crate::pattern::pattern_texts;
use crate::walk::SearchContext;
use crate::walk::emission_ok;
use crate::walk::entry_ok;
use crate::walk::run_traversal;

verus! {

/// The configuration of one traversal, immutable once constructed.
pub struct FindGrepConfig {
    /// Worker thread count; zero lets the traversal pick its own default.
    pub threads: usize,
    /// Whether hidden entries are skipped.
    pub ignore_hidden: bool,
    /// The batch flush threshold of each worker's sender.
    pub buffer_size: usize,
    /// Whether traversal errors are reported; they never halt the walk.
    pub log_errors: bool,
    /// Whether only regular files are reported; disabled, directories that
    /// pass the path filter are reported too.
    pub only_files: bool,
    /// Whether content patterns act as a filter: enabled, a file with
    /// content patterns configured but no match is dropped; disabled, it is
    /// reported with an empty match list. Enabled by default, so supplying
    /// content patterns filters unconditionally unless this is turned off.
    pub filter_by_grep: bool,
    /// Path-name patterns; an empty list matches every path.
    pub find_patterns: Vec<String>,
    /// Content patterns; an empty list means no content scanning.
    pub grep_patterns: Vec<String>,
}

impl Default for FindGrepConfig {
    fn default() -> (c: FindGrepConfig)
        ensures
            c.threads == 0,
            c.ignore_hidden,
            c.buffer_size == 1024,
            !c.log_errors,
            c.only_files,
            c.filter_by_grep,
            c.find_patterns@ =~= Seq::<String>::empty(),
            c.grep_patterns@ =~= Seq::<String>::empty(),
    {
        FindGrepConfig {
            threads: 0,
            ignore_hidden: true,
            buffer_size: 1024,
            log_errors: false,
            only_files: true,
            filter_by_grep: true,
            find_patterns: Vec::new(),
            grep_patterns: Vec::new(),
        }
    }
}

/// A configuration error: the only kind of error a whole call fails with.
/// Either kind carries the pattern that failed to compile and the
/// compiler's message.
#[derive(Debug, Clone)]
pub enum SearchError {
    FindPattern { pattern: String, message: String },
    GrepPattern { pattern: String, message: String },
}

/// The texts of a list of pattern strings.
pub open spec fn string_views(ss: Seq<String>) -> Seq<Seq<char>> {
    ss.map_values(|s: String| s@)
}

/// Whether every path-name pattern of the list compiles.
pub open spec fn all_find_ok(ps: Seq<Seq<char>>) -> bool {
    forall|i: int| 0 <= i < ps.len() ==> path_pattern_ok(#[trigger] ps[i])
}

/// Whether every content pattern of the list compiles.
pub open spec fn all_grep_ok(ps: Seq<Seq<char>>) -> bool {
    forall|i: int| 0 <= i < ps.len() ==> grep_pattern_ok(#[trigger] ps[i])
}

/// Whether `pattern` is the first entry of `ps` that fails to compile,
/// under the compilability predicate already applied to each entry.
pub open spec fn first_failing(ps: Seq<Seq<char>>, oks: Seq<bool>, pattern: Seq<char>) -> bool {
    exists|i: int|
        0 <= i < ps.len() && pattern == ps[i] && !oks[i] && (forall|j: int|
            0 <= j < i ==> oks[j])
}

/// Compiles every path-name pattern, in order, failing fast: the result is
/// the compiled list, with each pattern's text kept, or the first pattern
/// that does not compile, and nothing is compiled past a failure.
pub fn compile_find_patterns(patterns: &Vec<String>) -> (r: Result<Vec<PathPattern>, SearchError>)
    ensures
        r is Ok <==> all_find_ok(string_views(patterns@)),
        r matches Ok(compiled) ==> pattern_texts(compiled@) == string_views(patterns@),
        r matches Err(e) ==> (e matches SearchError::FindPattern { pattern, message }
            && first_failing(
            string_views(patterns@),
            string_views(patterns@).map_values(|p: Seq<char>| path_pattern_ok(p)),
            pattern@,
        )),
{
    let ghost texts = string_views(patterns@);
    let mut compiled: Vec<PathPattern> = Vec::new();
    let mut i: usize = 0;
    while i < patterns.len()
        invariant
            0 <= i <= patterns@.len(),
            texts == string_views(patterns@),
            compiled@.len() == i,
            forall|k: int| 0 <= k < i ==> (#[trigger] compiled@[k]).text() == texts[k],
            forall|k: int| 0 <= k < i ==> path_pattern_ok(#[trigger] texts[k]),
        decreases patterns@.len() - i,
    {
        match compile_path_pattern(&patterns[i]) {
            Ok(p) => {
                compiled.push(p);
            },
            Err(message) => {
                let pattern = patterns[i].clone();
                proof {
                    assert(!path_pattern_ok(texts[i as int]));
                }
                return Err(SearchError::FindPattern { pattern, message });
            },
        }
        i = i + 1;
    }
    proof {
        assert(pattern_texts(compiled@) =~= texts);
    }
    Ok(compiled)
}

/// Compiles every content pattern, in order, failing fast: the result is
/// the compiled list, with each pattern's text kept for attribution, or the
/// first pattern that does not compile, and nothing is compiled past a
/// failure.
pub fn compile_grep_patterns(patterns: &Vec<String>) -> (r: Result<
    Vec<RegexMatcherInfo>,
    SearchError,
>)
    ensures
        r is Ok <==> all_grep_ok(string_views(patterns@)),
        r matches Ok(compiled) ==> matcher_texts(compiled@) == string_views(patterns@),
        r matches Err(e) ==> (e matches SearchError::GrepPattern { pattern, message }
            && first_failing(
            string_views(patterns@),
            string_views(patterns@).map_values(|p: Seq<char>| grep_pattern_ok(p)),
            pattern@,
        )),
{
    let ghost texts = string_views(patterns@);
    let mut compiled: Vec<RegexMatcherInfo> = Vec::new();
    let mut i: usize = 0;
    while i < patterns.len()
        invariant
            0 <= i <= patterns@.len(),
            texts == string_views(patterns@),
            compiled@.len() == i,
            forall|k: int| 0 <= k < i ==> (#[trigger] compiled@[k]).text() == texts[k],
            forall|k: int| 0 <= k < i ==> grep_pattern_ok(#[trigger] texts[k]),
        decreases patterns@.len() - i,
    {
        match compile_grep_pattern(&patterns[i]) {
            Ok(m) => {
                compiled.push(m);
            },
            Err(message) => {
                let pattern = patterns[i].clone();
                proof {
                    assert(!grep_pattern_ok(texts[i as int]));
                }
                return Err(SearchError::GrepPattern { pattern, message });
            },
        }
        i = i + 1;
    }
    proof {
        assert(matcher_texts(compiled@) =~= texts);
    }
    Ok(compiled)
}

/// The views of a list of received batches.
pub open spec fn batch_views(batches: Seq<Vec<FindResult>>) -> Seq<Seq<FindResult>> {
    batches.map_values(|b: Vec<FindResult>| b@)
}

/// Flattens received batches into one result collection, preserving batch
/// order and, within each batch, item order.
pub fn flatten_batches(batches: Vec<Vec<FindResult>>) -> (r: Vec<FindResult>)
    ensures
        r@ == batch_views(batches@).flatten(),
{
    let mut batches = batches;
    let ghost orig = batch_views(batches@);
    let mut out: Vec<FindResult> = Vec::new();
    let mut i: usize = 0;
    while i < batches.len()
        invariant
            0 <= i <= batches@.len(),
            batches@.len() == orig.len(),
            forall|k: int| i <= k < batches@.len() ==> (#[trigger] batches@[k])@ == orig[k],
            out@ == orig.take(i as int).flatten(),
        decreases batches@.len() - i,
    {
        let mut batch: Vec<FindResult> = Vec::new();
        core::mem::swap(&mut batch, &mut batches[i]);
        proof {
            assert(batch@ == orig[i as int]);
        }
        out.append(&mut batch);
        proof {
            orig.take(i as int).lemma_flatten_push(orig[i as int]);
            assert(orig.take(i as int).push(orig[i as int]) =~= orig.take((i + 1) as int));
            assert(out@ =~= orig.take((i + 1) as int).flatten());
        }
        i = i + 1;
    }
    proof {
        assert(orig.take(batches@.len() as int) =~= orig);
    }
    out
}

proof fn lemma_flatten_entries_ok(ctx: SearchContext, seqs: Seq<Seq<FindResult>>)
    requires
        forall|b: int, i: int| 0 <= b < seqs.len() && 0 <= i < seqs[b].len() ==> emission_ok(
            ctx,
            #[trigger] seqs[b][i],
        ),
    ensures
        forall|i: int| 0 <= i < seqs.flatten().len() ==> emission_ok(
            ctx,
            #[trigger] seqs.flatten()[i],
        ),
    decreases seqs.len(),
{
    if seqs.len() > 0 {
        let first = seqs.first();
        let rest = seqs.drop_first();
        assert forall|b: int, i: int| 0 <= b < rest.len() && 0 <= i < rest[b].len() implies
            emission_ok(ctx, #[trigger] rest[b][i]) by {
            assert(rest[b] == seqs[b + 1]);
        }
        lemma_flatten_entries_ok(ctx, rest);
        assert(seqs.flatten() == first + rest.flatten());
        assert forall|i: int| 0 <= i < seqs.flatten().len() implies emission_ok(
            ctx,
            #[trigger] seqs.flatten()[i],
        ) by {
            if i < first.len() {
                assert(seqs.flatten()[i] == first[i]);
                assert(first[i] == seqs[0][i]);
            } else {
                assert(seqs.flatten()[i] == rest.flatten()[i - first.len()]);
            }
        }
    }
}

/// The single entry operation: compiles every pattern up front (the first
/// failure aborts the whole call before any traversal work), then walks the
/// tree under `path` in parallel, each worker filtering paths, scanning
/// content and batching its results, and finally drains the fan-in channel
/// into one collection. Result order across workers is unspecified, but
/// every returned entry satisfies the emission invariant of the given
/// configuration.
pub fn findgrep(path: String, config: FindGrepConfig) -> (r: Result<Vec<FindResult>, SearchError>)
    ensures
        r matches Ok(v) ==> forall|i: int| 0 <= i < v@.len() ==> entry_ok(
            string_views(config.find_patterns@),
            string_views(config.grep_patterns@),
            config.only_files,
            config.filter_by_grep,
            #[trigger] v@[i],
        ),
        r is Ok <==> all_find_ok(string_views(config.find_patterns@)) && all_grep_ok(
            string_views(config.grep_patterns@),
        ),
        !all_find_ok(string_views(config.find_patterns@)) ==> (r matches Err(
            SearchError::FindPattern { pattern, message },
        ) && first_failing(
            string_views(config.find_patterns@),
            string_views(config.find_patterns@).map_values(|p: Seq<char>| path_pattern_ok(p)),
            pattern@,
        )),
        all_find_ok(string_views(config.find_patterns@)) && !all_grep_ok(
            string_views(config.grep_patterns@),
        ) ==> (r matches Err(SearchError::GrepPattern { pattern, message }) && first_failing(
            string_views(config.grep_patterns@),
            string_views(config.grep_patterns@).map_values(|p: Seq<char>| grep_pattern_ok(p)),
            pattern@,
        )),
{
    let find_regex_patterns = match compile_find_patterns(&config.find_patterns) {
        Ok(compiled) => compiled,
        Err(e) => {
            return Err(e);
        },
    };
    let grep_regex_patterns = match compile_grep_patterns(&config.grep_patterns) {
        Ok(compiled) => compiled,
        Err(e) => {
            return Err(e);
        },
    };

    let ctx = SearchContext {
        find_patterns: find_regex_patterns,
        grep_patterns: grep_regex_patterns,
        threads: config.threads,
        ignore_hidden: config.ignore_hidden,
        buffer_size: config.buffer_size,
        log_errors: config.log_errors,
        only_files: config.only_files,
        filter_by_grep: config.filter_by_grep,
    };
    let batches = run_traversal(&path, &ctx);
    proof {
        assert forall|b: int, i: int|
            0 <= b < batch_views(batches@).len() && 0 <= i < batch_views(batches@)[b].len() implies
            emission_ok(ctx, #[trigger] batch_views(batches@)[b][i]) by {
            assert(batch_views(batches@)[b] == batches@[b]@);
        }
        lemma_flatten_entries_ok(ctx, batch_views(batches@));
    }
    let out = flatten_batches(batches);
    proof {
        assert forall|i: int| 0 <= i < out@.len() implies entry_ok(
            string_views(config.find_patterns@),
            string_views(config.grep_patterns@),
            config.only_files,
            config.filter_by_grep,
            #[trigger] out@[i],
        ) by {
            assert(emission_ok(ctx, out@[i]));
            assert(pattern_texts(ctx.find_patterns@) == string_views(config.find_patterns@));
            assert(matcher_texts(ctx.grep_patterns@) == string_views(config.grep_patterns@));
        }
    }
    Ok(out)
}

} // verus!
