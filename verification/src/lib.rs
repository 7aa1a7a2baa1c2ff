use vstd::prelude::*;

mod batch;
mod channel;
mod data;
mod grep;
mod pattern;
mod search;
mod walk;

pub use batch::BatchSender;
pub use batch::flush_step;
pub use batch::lemma_teardown_flushes_residue;
pub use batch::lemma_threshold_flushes_once;
pub use batch::lemma_under_threshold_only_buffers;
pub use batch::push_all;
pub use batch::push_step;
pub use data::FindResult;
pub use data::GrepResult;
pub use grep::RegexMatcherInfo;
pub use grep::grep_all;
pub use grep::grep_file;
pub use grep::grep_pattern_ok;
pub use grep::line_first_match;
pub use grep::line_views;
pub use grep::match_records;
pub use grep::matcher_texts;
pub use grep::grouped_by_pattern;
pub use grep::pattern_segment;
pub use grep::record_attributed;
pub use grep::record_view;
pub use grep::spec_records;
pub use grep::substring_of;
pub use grep::valid_grep_record;
pub use pattern::PathPattern;
pub use pattern::lemma_empty_patterns_match_all;
pub use pattern::lemma_matched_path_admitted;
pub use pattern::lemma_unmatched_path_rejected;
pub use pattern::path_is_match;
pub use pattern::path_pattern_matches;
pub use pattern::path_pattern_ok;
pub use pattern::pattern_texts;
pub use pattern::spec_path_matches;
pub use search::FindGrepConfig;
pub use search::SearchError;
pub use search::all_find_ok;
pub use search::all_grep_ok;
pub use search::batch_views;
pub use search::compile_find_patterns;
pub use search::compile_grep_patterns;
pub use search::findgrep;
pub use search::first_failing;
pub use search::flatten_batches;
pub use search::string_views;
pub use walk::SearchContext;
pub use walk::WalkEvent;
pub use walk::emission_ok;
pub use walk::entry_ok;
pub use walk::handle_entry;
pub use walk::process_event;
pub use walk::pushed_entry;
