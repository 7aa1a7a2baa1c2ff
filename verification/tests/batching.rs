use findgrep::BatchSender;

#[test]
fn threshold_pushes_flush_once_in_order() {
    let (tx, rx) = crossbeam_channel::unbounded::<Vec<u64>>();
    let mut sender = BatchSender::new(tx, 3);
    assert!(sender.send(10));
    assert!(sender.send(20));
    assert!(rx.try_recv().is_err(), "nothing flushed under the threshold");
    assert!(sender.send(30));
    let batch = rx.try_recv().expect("one batch after the threshold push");
    assert_eq!(batch, vec![10, 20, 30]);
    assert!(rx.try_recv().is_err(), "exactly one flush");
}

#[test]
fn finish_flushes_residue_once() {
    let (tx, rx) = crossbeam_channel::unbounded::<Vec<u64>>();
    let mut sender = BatchSender::new(tx, 3);
    assert!(sender.send(1));
    assert!(sender.send(2));
    assert!(sender.finish());
    let batch = rx.try_recv().expect("the residue is flushed");
    assert_eq!(batch, vec![1, 2]);
    assert!(sender.finish(), "an empty buffer flushes nothing");
    assert!(rx.try_recv().is_err());
}

#[test]
fn teardown_flushes_residue() {
    let (tx, rx) = crossbeam_channel::unbounded::<Vec<u64>>();
    {
        let mut sender = BatchSender::new(tx, 10);
        assert!(sender.send(7));
        assert!(sender.send(8));
        assert!(rx.try_recv().is_err());
    }
    let batch = rx.try_recv().expect("teardown flushes the residue");
    assert_eq!(batch, vec![7, 8]);
    assert!(rx.try_recv().is_err());
}

#[test]
fn send_reports_gone_receiver() {
    let (tx, rx) = crossbeam_channel::unbounded::<Vec<u64>>();
    let mut sender = BatchSender::new(tx, 2);
    drop(rx);
    assert!(sender.send(1), "buffering alone cannot fail");
    assert!(!sender.send(2), "the flush finds the receiver gone");
    assert!(!sender.finish(), "the residue still cannot be delivered");
}
