use findgrep::BatchSender;
use findgrep::FindGrepConfig;
use findgrep::FindResult;
use findgrep::SearchContext;
use findgrep::WalkEvent;
use findgrep::compile_find_patterns;
use findgrep::process_event;

fn context() -> SearchContext {
    let defaults = FindGrepConfig::default();
    SearchContext {
        find_patterns: Vec::new(),
        grep_patterns: Vec::new(),
        threads: defaults.threads,
        ignore_hidden: defaults.ignore_hidden,
        buffer_size: defaults.buffer_size,
        log_errors: defaults.log_errors,
        only_files: defaults.only_files,
        filter_by_grep: defaults.filter_by_grep,
    }
}

#[test]
fn file_event_without_patterns_is_emitted() {
    let (tx, rx) = crossbeam_channel::unbounded::<Vec<FindResult>>();
    let mut sender = BatchSender::new(tx, 1);
    let ctx = context();
    process_event(&ctx, WalkEvent::File("/tree/a.txt".to_string()), &mut sender);
    let batch = rx.try_recv().expect("one entry emitted");
    assert_eq!(batch.len(), 1);
    assert_eq!(batch[0].path, "/tree/a.txt");
    assert_eq!(batch[0].path_type, "file");
    assert!(batch[0].grep_results.is_empty());
}

#[test]
fn directory_event_is_dropped_while_only_files() {
    let (tx, rx) = crossbeam_channel::unbounded::<Vec<FindResult>>();
    let mut sender = BatchSender::new(tx, 1);
    let ctx = context();
    process_event(&ctx, WalkEvent::Directory("/tree/sub".to_string()), &mut sender);
    assert!(rx.try_recv().is_err(), "no directory entry while only files are reported");
}

#[test]
fn directory_event_is_emitted_when_enabled() {
    let (tx, rx) = crossbeam_channel::unbounded::<Vec<FindResult>>();
    let mut sender = BatchSender::new(tx, 1);
    let mut ctx = context();
    ctx.only_files = false;
    process_event(&ctx, WalkEvent::Directory("/tree/sub".to_string()), &mut sender);
    let batch = rx.try_recv().expect("one entry emitted");
    assert_eq!(batch.len(), 1);
    assert_eq!(batch[0].path, "/tree/sub");
    assert_eq!(batch[0].path_type, "directory");
    assert!(batch[0].grep_results.is_empty());
}

#[test]
fn file_event_failing_the_filter_is_dropped() {
    let (tx, rx) = crossbeam_channel::unbounded::<Vec<FindResult>>();
    let mut sender = BatchSender::new(tx, 1);
    let mut ctx = context();
    ctx.find_patterns =
        compile_find_patterns(&vec![".*\\.py".to_string()]).expect("pattern compiles");
    process_event(&ctx, WalkEvent::File("/tree/a.txt".to_string()), &mut sender);
    assert!(rx.try_recv().is_err(), "a path no pattern matches is dropped");
}

#[test]
fn failure_event_emits_nothing() {
    let (tx, rx) = crossbeam_channel::unbounded::<Vec<FindResult>>();
    let mut sender = BatchSender::new(tx, 1);
    let ctx = context();
    process_event(&ctx, WalkEvent::Failure("permission denied".to_string()), &mut sender);
    assert!(rx.try_recv().is_err());
}
