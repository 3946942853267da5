use metered::registry::{Counter, MetricRegistry};

#[test]
fn should_count_metrics() {
    let mut mr = MetricRegistry::new();
    mr.counters32.push(0);

    mr.counters32[0].inc();

    assert_eq!(mr.counters32[0], 1);
}

#[test]
fn merge_adds_counter_values() {
    let mut a: u32 = 40;
    let b: u32 = 2;
    a.merge_with(&b);
    assert_eq!(a.value(), 42);
}

#[test]
fn registry_counters_wrap_at_their_width() {
    let mut a: u32 = u32::MAX;
    a.inc();
    assert_eq!(a.value(), 0);
    let mut c: u32 = u32::MAX - 1;
    let d: u32 = 3;
    c.merge_with(&d);
    assert_eq!(c.value(), 1);
}
