use recorder_core::manifest::load_segment_list;
use recorder_core::watcher::{SegmentWatcher, WatcherPhase};

fn names(v: &[&str]) -> Vec<Vec<u8>> {
    v.iter().map(|s| s.as_bytes().to_vec()).collect()
}

#[test]
fn manifest_lines_are_split_and_cleaned() {
    let text = b"a_000.ts\na_001.ts\n";
    assert_eq!(load_segment_list(text), names(&["a_000.ts", "a_001.ts"]));

    // No trailing newline: the last chunk still counts.
    assert_eq!(load_segment_list(b"a_000.ts\na_001.ts"), names(&["a_000.ts", "a_001.ts"]));

    // Empty text, blank lines, carriage returns, repeated lines.
    assert_eq!(load_segment_list(b""), names(&[]));
    assert_eq!(load_segment_list(b"\n\n"), names(&[]));
    assert_eq!(load_segment_list(b"a.ts\r\nb.ts\r\n"), names(&["a.ts", "b.ts"]));
    assert_eq!(load_segment_list(b"a.ts\n\na.ts\nb.ts\n"), names(&["a.ts", "b.ts"]));
}

#[test]
fn first_pass_dispatches_every_segment_on_disk() {
    let mut w = SegmentWatcher::new();
    assert_eq!(w.phase(), WatcherPhase::Running);
    let entries = names(&["a_000.ts", "a_001.ts"]);
    let on_disk = vec![true, true];
    let dispatched = w.run_pass(&entries, &on_disk);
    assert_eq!(dispatched, names(&["a_000.ts", "a_001.ts"]));
    w.settle_uploads();
}

#[test]
fn second_pass_dispatches_only_the_new_segment() {
    // Pass 1 sees a_000 and a_001; pass 2 sees those plus a_002:
    // exactly one dispatch for a_002, none repeated.
    let mut w = SegmentWatcher::new();
    let pass1 = names(&["a_000.ts", "a_001.ts"]);
    let d1 = w.run_pass(&pass1, &vec![true, true]);
    assert_eq!(d1.len(), 2);
    w.settle_uploads();

    let pass2 = names(&["a_000.ts", "a_001.ts", "a_002.ts"]);
    let d2 = w.run_pass(&pass2, &vec![true, true, true]);
    assert_eq!(d2, names(&["a_002.ts"]));
    w.settle_uploads();
}

#[test]
fn end_to_end_manifest_growth_dispatches_each_segment_once() {
    // Pass 1 reads a manifest listing a_000 and a_001; pass 2 reads
    // the grown manifest.  Exactly one dispatch for a_002, none
    // repeated for a_000 or a_001.
    let mut w = SegmentWatcher::new();

    let entries1 = load_segment_list(b"a_000.ts\na_001.ts\n");
    let on_disk1 = vec![true; entries1.len()];
    let d1 = w.run_pass(&entries1, &on_disk1);
    assert_eq!(d1, names(&["a_000.ts", "a_001.ts"]));
    w.settle_uploads();

    let entries2 = load_segment_list(b"a_000.ts\na_001.ts\na_002.ts\n");
    let on_disk2 = vec![true; entries2.len()];
    let d2 = w.run_pass(&entries2, &on_disk2);
    assert_eq!(d2, names(&["a_002.ts"]));
    w.settle_uploads();
}

#[test]
fn seen_segments_stay_seen_across_draining() {
    // A filename seen while running is not dispatched again by the
    // draining pass.
    let mut w = SegmentWatcher::new();
    let pass1 = names(&["a_000.ts"]);
    let d1 = w.run_pass(&pass1, &vec![true]);
    assert_eq!(d1.len(), 1);
    w.settle_uploads();

    // Shutdown arrives: the watcher moves to Draining and owes one
    // more pass.
    let do_pass = w.poll(true);
    assert!(do_pass);
    assert_eq!(w.phase(), WatcherPhase::Draining);

    let pass2 = names(&["a_000.ts", "a_001.ts"]);
    let d2 = w.run_pass(&pass2, &vec![true, true]);
    assert_eq!(d2, names(&["a_001.ts"]));
    w.settle_uploads();

    let do_pass = w.poll(true);
    assert!(!do_pass);
    assert_eq!(w.phase(), WatcherPhase::Done);
    assert!(w.is_drained());
}

#[test]
fn extra_drain_pass_with_no_new_lines_dispatches_nothing() {
    let mut w = SegmentWatcher::new();
    let entries = names(&["a_000.ts", "a_001.ts"]);
    let d1 = w.run_pass(&entries, &vec![true, true]);
    assert_eq!(d1.len(), 2);
    w.settle_uploads();

    w.poll(true);
    let d2 = w.run_pass(&entries, &vec![true, true]);
    assert_eq!(d2.len(), 0);
    w.settle_uploads();
}

#[test]
fn segment_listed_before_flush_is_never_retried() {
    // A filename listed in the manifest before the encoder flushed the
    // file is recorded as seen without an upload, and later passes do
    // not dispatch it either.
    let mut w = SegmentWatcher::new();
    let entries = names(&["a_000.ts"]);
    let d1 = w.run_pass(&entries, &vec![false]);
    assert_eq!(d1.len(), 0);
    w.settle_uploads();

    let d2 = w.run_pass(&entries, &vec![true]);
    assert_eq!(d2.len(), 0);
    w.settle_uploads();
}

#[test]
fn drain_flag_is_set_only_after_uploads_settle() {
    // An upload dispatched by the draining pass is still in flight;
    // the watcher reports itself drained only once it settles.
    let mut w = SegmentWatcher::new();
    w.poll(true);
    assert_eq!(w.phase(), WatcherPhase::Draining);
    let d = w.run_pass(&names(&["a_000.ts"]), &vec![true]);
    assert_eq!(d.len(), 1);
    assert!(!w.is_drained());
    w.settle_uploads();
    let do_pass = w.poll(true);
    assert!(!do_pass);
    assert!(w.is_drained());
}

#[test]
fn watcher_keeps_running_while_no_shutdown() {
    let mut w = SegmentWatcher::new();
    assert!(w.poll(false));
    assert_eq!(w.phase(), WatcherPhase::Running);
    assert!(w.poll(false));
    assert_eq!(w.phase(), WatcherPhase::Running);
    assert!(!w.is_drained());
}
