use metered::clear::Clear;
use metered::hdr_histogram::HdrHistogram;

#[test]
fn histogram_concrete_stats() {
    let mut h = HdrHistogram::with_bound(5 * 60 * 1000);
    h.record(10);
    h.record(20);
    h.record(30);
    assert_eq!(h.len(), 3);
    assert_eq!(h.min(), 10);
    assert_eq!(h.max(), 30);
    assert!(h.histo.mean() == 20.0);
}

#[test]
fn recording_above_the_bound_saturates() {
    let bound: u64 = 1000;
    let mut base = HdrHistogram::with_bound(bound);
    base.record(bound);
    for k in [1u64, 5, 1_000_000] {
        let mut over = HdrHistogram::with_bound(bound);
        over.record(bound + k);
        assert_eq!(over.len(), base.len());
        assert_eq!(over.min(), base.min());
        assert_eq!(over.max(), base.max());
        assert!(over.histo.mean() == base.histo.mean());
        assert_eq!(
            over.histo.value_at_quantile(0.9),
            base.histo.value_at_quantile(0.9)
        );
    }
}

#[test]
fn clear_behaves_like_fresh() {
    let mut h = HdrHistogram::with_bound(60_000);
    h.record(17);
    h.record(99);
    assert_eq!(h.len(), 2);
    h.clear();
    let fresh = HdrHistogram::with_bound(60_000);
    assert_eq!(h.len(), 0);
    assert_eq!(h.min(), fresh.min());
    assert_eq!(h.max(), fresh.max());
    assert_eq!(
        h.histo.value_at_quantile(0.99),
        fresh.histo.value_at_quantile(0.99)
    );
    h.record(5);
    assert_eq!(h.len(), 1);
    assert_eq!(h.min(), 5);
    assert_eq!(h.max(), 5);
}

#[test]
fn record_n_adds_all_copies() {
    let mut h = HdrHistogram::with_bound(1000);
    h.record_n(40, 6);
    assert_eq!(h.len(), 6);
    assert_eq!(h.min(), 40);
    assert_eq!(h.max(), 40);
}

#[test]
fn recording_zero_copies_changes_nothing() {
    let mut h = HdrHistogram::with_bound(1000);
    h.record(10);
    h.record_n(500, 0);
    assert_eq!(h.len(), 1);
    assert_eq!(h.min(), 10);
    assert_eq!(h.max(), 10);
}

#[test]
fn snapshot_matches_source() {
    let mut h = HdrHistogram::with_bound(1000);
    h.record(1);
    h.record(2);
    let snap = h.snapshot();
    h.record(3);
    assert_eq!(snap.len(), 2);
    assert_eq!(h.len(), 3);
    assert_eq!(snap.max(), 2);
}

#[test]
fn zero_values_are_tracked() {
    let mut h = HdrHistogram::with_bound(1000);
    h.record(0);
    h.record(8);
    assert_eq!(h.len(), 2);
    assert_eq!(h.min(), 0);
    assert_eq!(h.max(), 8);
}
