use metered::clear::Clear;
use metered::metric::ExitGuard;
use metered::throughput::{RecordThroughput, Throughput, TxPerSec};
use metered::time_source::{StdInstant, StdInstantMicros};

#[test]
fn idle_windows_appear_as_zero_samples() {
    let mut tx: TxPerSec<StdInstant> = TxPerSec::new();
    // three events inside the first window
    tx.record_elapsed(0);
    tx.record_elapsed(200);
    tx.record_elapsed(900);
    assert_eq!(tx.hdr_histogram.len(), 0);
    // the next event falls five windows later: the first window's count
    // of 3 is flushed, and the four fully skipped windows appear as
    // zero-count samples
    tx.record_elapsed(5_500);
    assert_eq!(tx.hdr_histogram.len(), 5);
    assert_eq!(tx.hdr_histogram.min(), 0);
    assert_eq!(tx.hdr_histogram.max(), 3);
    assert!(tx.hdr_histogram.histo.count_at(0) == 4);
    assert!(tx.hdr_histogram.histo.count_at(3) == 1);
}

#[test]
fn adjacent_windows_have_no_zero_samples() {
    let mut tx: TxPerSec<StdInstant> = TxPerSec::new();
    tx.record_elapsed(100);
    tx.record_elapsed(300);
    tx.record_elapsed(1_100);
    tx.record_elapsed(1_200);
    tx.record_elapsed(1_300);
    tx.record_elapsed(2_000);
    assert_eq!(tx.hdr_histogram.len(), 2);
    assert_eq!(tx.hdr_histogram.min(), 2);
    assert_eq!(tx.hdr_histogram.max(), 3);
}

#[test]
fn window_unit_follows_the_time_source() {
    let mut tx: TxPerSec<StdInstantMicros> = TxPerSec::new();
    // a millisecond-sized gap is far below one second in microseconds
    tx.record_elapsed(0);
    tx.record_elapsed(1_000);
    assert_eq!(tx.hdr_histogram.len(), 0);
    tx.record_elapsed(2_000_000);
    assert_eq!(tx.hdr_histogram.len(), 2);
    assert_eq!(tx.hdr_histogram.max(), 2);
}

#[test]
fn abnormal_exit_counts_no_event() {
    let mut tp: Throughput = Throughput::default();
    let mut g = ExitGuard::new::<(), _>(&mut tp);
    g.leave_scope::<(), _>(&mut tp);
    // a later window close flushes a zero count: the abandoned call was
    // never accumulated
    tp.0.record_elapsed(1_500);
    assert_eq!(tp.0.hdr_histogram.len(), 1);
    assert_eq!(tp.0.hdr_histogram.max(), 0);
}

#[test]
fn first_event_only_starts_the_clock() {
    let mut tx: TxPerSec<StdInstant> = TxPerSec::new();
    tx.on_result();
    assert_eq!(tx.hdr_histogram.len(), 0);
}

#[test]
fn clearing_resets_the_tracker() {
    let mut tx: TxPerSec<StdInstant> = TxPerSec::new();
    tx.record_elapsed(10);
    tx.record_elapsed(2_500);
    assert!(tx.hdr_histogram.len() > 0);
    Clear::clear(&mut tx);
    assert_eq!(tx.hdr_histogram.len(), 0);
    // after a clear the tracker accumulates from scratch
    tx.record_elapsed(0);
    tx.record_elapsed(1_500);
    assert_eq!(tx.hdr_histogram.len(), 1);
    assert_eq!(tx.hdr_histogram.max(), 1);
}

#[test]
fn window_counts_sum_to_total_events() {
    let mut tx: TxPerSec<StdInstant> = TxPerSec::new();
    let mut events: u64 = 0;
    // an uneven schedule over six windows
    for (window, count) in [(0u64, 3u64), (1, 1), (3, 4), (6, 2)] {
        for i in 0..count {
            tx.record_elapsed(window * 1000 + i);
            events += 1;
        }
    }
    // close the last window so every prior count is in the histogram
    tx.record_elapsed(9_000);
    let histo = &tx.hdr_histogram.histo;
    let mut sum: u64 = 0;
    for v in histo.iter_recorded() {
        sum += v.value_iterated_to() * v.count_at_value();
    }
    assert_eq!(sum, events);
    assert_eq!(tx.hdr_histogram.len(), 9);
}
