use metered::instrumented::{Biz, Boz};

#[test]
fn test_boz_using_mutible_self() {
    let mut boz = Boz::new();
    boz.increment_once();
    boz.increment_twice();
    assert_eq!(boz.inc, 3);
    assert_eq!(boz.metrics.increment_once.0.get(), 3);
    assert_eq!(boz.metrics.increment_twice.0.get(), 1);
}

#[test]
fn biz_counts_hits_and_throughput_events() {
    let mut biz = Biz::new();
    for _ in 0..5 {
        biz.biz();
    }
    assert_eq!(biz.metrics.hit_count.0.get(), 5);
    // the calls all land well inside the first one-second window, so no
    // window has closed yet and the histogram is still empty
    assert_eq!(biz.metrics.throughput.0.hdr_histogram.len(), 0);
}
