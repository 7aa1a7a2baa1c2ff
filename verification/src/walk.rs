use vstd::prelude::*;

use std::io::Write;

use crate::batch::BatchSender;
use crate::data::FindResult;
use crate::grep::RegexMatcherInfo;
use crate::grep::grep_all;
use crate::grep::grouped_by_pattern;
use crate::grep::matcher_texts;
use crate::grep::record_attributed;
use crate::pattern::PathPattern;
use crate::pattern::path_is_match;
use crate::pattern::pattern_texts;
use crate::pattern::spec_path_matches;

verus! {

use vstd::string::StringExecFns;

#[verifier::external_type_specification]
#[verifier::external_body]
pub struct ExDirEntry(ignore::DirEntry);

#[verifier::external_type_specification]
#[verifier::external_body]
pub struct ExIgnoreError(ignore::Error);

/// Everything one traversal shares, read-only, with all of its workers: the
/// pattern sets compiled before any worker starts, and the toggles that
/// decide what a worker emits.
pub struct SearchContext {
    pub find_patterns: Vec<PathPattern>,
    pub grep_patterns: Vec<RegexMatcherInfo>,
    pub threads: usize,
    pub ignore_hidden: bool,
    pub buffer_size: usize,
    pub log_errors: bool,
    pub only_files: bool,
    pub filter_by_grep: bool,
}

/// What one traversal step hands a worker, reduced to plain values: a file
/// or directory with its path's text form, or a traversal error's message.
pub enum WalkEvent {
    File(String),
    Directory(String),
    Failure(String),
}

/// Relies on `ignore::DirEntry::path`, `std::path::Path::is_file` and
/// `Path::to_string_lossy`: classifies an entry by its on-disk type, with
/// the best-effort text form of its path; a traversal error becomes its
/// message.
#[verifier::external_body]
fn entry_event(entry: Result<ignore::DirEntry, ignore::Error>) -> WalkEvent {
    match entry {
        Ok(e) => {
            let text = e.path().to_string_lossy().into_owned();
            if e.path().is_file() {
                WalkEvent::File(text)
            } else {
                WalkEvent::Directory(text)
            }
        },
        Err(err) => WalkEvent::Failure(format!("{}", err)),
    }
}

/// Relies on `std::io::Write` for standard output: reports one traversal
/// error and nothing else.
#[verifier::external_body]
fn report_error(message: &String) {
    let _ = writeln!(std::io::stdout(), "Error: {}", message);
}

/// The invariant every emitted entry satisfies, over the plain values of
/// one configuration: a file entry passed the path filter, survives content
/// filtering only as configured, and its records are the concatenation, in
/// configured pattern order and line order within each pattern, of valid
/// first-match records, empty when no content pattern is set; a directory
/// entry exists only when directory reporting is enabled, passed the path
/// filter, and carries no records.
pub open spec fn entry_ok(
    find_texts: Seq<Seq<char>>,
    grep_texts: Seq<Seq<char>>,
    only_files: bool,
    filter_by_grep: bool,
    fr: FindResult,
) -> bool {
    if fr.path_type@ == "file"@ {
        &&& spec_path_matches(find_texts, fr.path@)
        &&& (grep_texts.len() == 0 || !filter_by_grep || fr.grep_results@.len() > 0)
        &&& (grep_texts.len() == 0 ==> fr.grep_results@.len() == 0)
        &&& forall|i: int| 0 <= i < fr.grep_results@.len() ==> record_attributed(
            grep_texts,
            #[trigger] fr.grep_results@[i],
        )
        &&& grouped_by_pattern(grep_texts, fr.grep_results@)
    } else if fr.path_type@ == "directory"@ {
        &&& !only_files
        &&& spec_path_matches(find_texts, fr.path@)
        &&& fr.grep_results@.len() == 0
    } else {
        false
    }
}

/// The emission invariant under a traversal's shared context.
pub open spec fn emission_ok(ctx: SearchContext, fr: FindResult) -> bool {
    entry_ok(
        pattern_texts(ctx.find_patterns@),
        matcher_texts(ctx.grep_patterns@),
        ctx.only_files,
        ctx.filter_by_grep,
        fr,
    )
}

/// Whether exactly one entry with the given path and kind, meeting the
/// emission invariant, was appended to a sender whose accepted items went
/// from `pre` to `post`.
pub open spec fn pushed_entry(
    ctx: SearchContext,
    path: Seq<char>,
    kind: Seq<char>,
    pre: Seq<FindResult>,
    post: Seq<FindResult>,
) -> bool {
    exists|fr: FindResult|
        #![trigger pre.push(fr)]
        {
            &&& post == pre.push(fr)
            &&& fr.path@ == path
            &&& fr.path_type@ == kind
            &&& emission_ok(ctx, fr)
        }
}

/// The per-entry decision logic of one worker, on one traversal event:
/// applies the path filter, runs every content pattern over a file, decides
/// emission, and pushes at most one entry into this worker's batch sender.
/// A file that fails the path filter, a directory while only files are
/// reported, and a traversal error push nothing; a file that passes pushes
/// exactly one file entry unless content filtering drops it, and it is
/// never dropped while content filtering is off or no content pattern is
/// configured; a directory that passes while directories are reported
/// pushes exactly one directory entry.
pub fn process_event(ctx: &SearchContext, event: WalkEvent, sender: &mut BatchSender<FindResult>)
    ensures
        final(sender).threshold() == old(sender).threshold(),
        match event {
            WalkEvent::File(path) => {
                let matched = spec_path_matches(pattern_texts(ctx.find_patterns@), path@);
                &&& (!matched ==> final(sender).items() == old(sender).items())
                &&& (matched && (ctx.grep_patterns@.len() == 0 || !ctx.filter_by_grep)
                    ==> pushed_entry(
                    *ctx,
                    path@,
                    "file"@,
                    old(sender).items(),
                    final(sender).items(),
                ))
                &&& (matched ==> final(sender).items() == old(sender).items() || pushed_entry(
                    *ctx,
                    path@,
                    "file"@,
                    old(sender).items(),
                    final(sender).items(),
                ))
            },
            WalkEvent::Directory(path) => {
                let reported = !ctx.only_files && spec_path_matches(
                    pattern_texts(ctx.find_patterns@),
                    path@,
                );
                &&& (reported ==> pushed_entry(
                    *ctx,
                    path@,
                    "directory"@,
                    old(sender).items(),
                    final(sender).items(),
                ))
                &&& (!reported ==> final(sender).items() == old(sender).items())
            },
            WalkEvent::Failure(_) => final(sender).items() == old(sender).items(),
        },
{
    match event {
        WalkEvent::File(path) => {
            let ghost path_view = path@;
            if path_is_match(&path, &ctx.find_patterns) {
                let grep_results = grep_all(&path, &ctx.grep_patterns);
                if grep_results.len() > 0 || ctx.grep_patterns.len() == 0 || !ctx.filter_by_grep {
                    let entry_out = FindResult {
                        path,
                        path_type: String::from_str("file"),
                        grep_results,
                    };
                    let ghost emitted = entry_out;
                    let _ = sender.send(entry_out);
                    proof {
                        assert(emission_ok(*ctx, emitted));
                        assert(final(sender).items() == old(sender).items().push(emitted));
                        assert(pushed_entry(
                            *ctx,
                            path_view,
                            "file"@,
                            old(sender).items(),
                            final(sender).items(),
                        ));
                    }
                }
            }
        },
        WalkEvent::Directory(path) => {
            let ghost path_view = path@;
            if !ctx.only_files {
                if path_is_match(&path, &ctx.find_patterns) {
                    let entry_out = FindResult {
                        path,
                        path_type: String::from_str("directory"),
                        grep_results: Vec::new(),
                    };
                    let ghost emitted = entry_out;
                    let _ = sender.send(entry_out);
                    proof {
                        reveal_strlit("file");
                        reveal_strlit("directory");
                        assert("file"@.len() != "directory"@.len());
                        assert(emitted.path_type@ != "file"@);
                        assert(emission_ok(*ctx, emitted));
                        assert(final(sender).items() == old(sender).items().push(emitted));
                        assert(pushed_entry(
                            *ctx,
                            path_view,
                            "directory"@,
                            old(sender).items(),
                            final(sender).items(),
                        ));
                    }
                }
            }
        },
        WalkEvent::Failure(message) => {
            if ctx.log_errors {
                report_error(&message);
            }
        },
    }
}

/// The per-entry worker logic as the traversal hands it over: reduces the
/// opaque entry to a plain event, then decides. Whatever the traversal hands
/// it, every item it adds satisfies the emission invariant, and it never
/// drops or reorders what the sender already held; `process_event` says
/// exactly what each kind of event does.
pub fn handle_entry(
    ctx: &SearchContext,
    entry: Result<ignore::DirEntry, ignore::Error>,
    sender: &mut BatchSender<FindResult>,
)
    ensures
        final(sender).threshold() == old(sender).threshold(),
        final(sender).items() == old(sender).items() || exists|fr: FindResult|
            #[trigger] emission_ok(*ctx, fr) && final(sender).items() == old(sender).items().push(
                fr,
            ),
{
    let event = entry_event(entry);
    process_event(ctx, event, sender);
}

/// Relies on `crossbeam_channel::unbounded`, `ignore::WalkBuilder`
/// (`hidden`, `threads`, `build_parallel`), `ignore::WalkParallel::run` and
/// `crossbeam_channel::Receiver::into_iter`: walks the tree under `root`
/// across the configured worker threads, handing every entry to exactly one
/// worker exactly once, then drains the channel until it is empty and, with
/// every sending half dropped, closed. Each worker owns one `BatchSender`
/// over a clone of the one sending half; its closure calls only the
/// verified per-entry logic, whose contract says that every item a worker
/// ever pushes satisfies the emission invariant, and the sender's teardown
/// flushes only items that were pushed. Nothing else sends on the channel,
/// so every received item satisfies the invariant — the one `ensures` here.
#[verifier::external_body]
pub(crate) fn run_traversal(root: &String, ctx: &SearchContext) -> (r: Vec<Vec<FindResult>>)
    ensures
        forall|b: int, i: int| 0 <= b < r@.len() && 0 <= i < r@[b]@.len() ==> emission_ok(
            *ctx,
            #[trigger] r@[b]@[i],
        ),
{
    let (tx, rx) = crossbeam_channel::unbounded::<Vec<FindResult>>();
    let walker = ignore::WalkBuilder::new(root.as_str())
        .hidden(ctx.ignore_hidden)
        .threads(ctx.threads)
        .build_parallel();
    walker.run(|| {
        let mut sender = BatchSender::new(tx.clone(), ctx.buffer_size);
        Box::new(move |entry| {
            handle_entry(ctx, entry, &mut sender);
            ignore::WalkState::Continue
        })
    });
    drop(tx);
    rx.into_iter().collect()
}

} // verus!
