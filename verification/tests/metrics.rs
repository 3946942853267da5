use metered::atomic::AtomicInt;
use metered::clear::Clear;
use metered::error_count::ErrorCount;
use metered::hit_count::HitCount;
use metered::in_flight::InFlight;
use metered::metric::ExitGuard;
use metered::none_count::NoneCount;

struct TestMetrics {
    hit_count: HitCount,
    error_count: ErrorCount,
}

fn measured(should_fail: bool, metrics: &mut TestMetrics) -> Result<u32, &'static str> {
    let mut hit_guard = ExitGuard::new::<Result<u32, &'static str>, _>(&mut metrics.hit_count);
    let mut error_guard = ExitGuard::new::<Result<u32, &'static str>, _>(&mut metrics.error_count);
    let r: Result<u32, &'static str> = if should_fail { Err("Failed!") } else { Ok(42) };
    error_guard.on_result(&mut metrics.error_count, &r);
    hit_guard.on_result(&mut metrics.hit_count, &r);
    r
}

#[test]
fn hit_and_error_scenario() {
    let mut metrics = TestMetrics {
        hit_count: HitCount(AtomicInt { inner: 0 }),
        error_count: ErrorCount(AtomicInt { inner: 0 }),
    };
    let ok = measured(false, &mut metrics);
    assert_eq!(ok, Ok(42));
    let err = measured(true, &mut metrics);
    assert_eq!(err, Err("Failed!"));
    assert_eq!(metrics.hit_count.0.get(), 2);
    assert_eq!(metrics.error_count.0.get(), 1);
}

#[test]
fn error_count_over_many_invocations() {
    let mut metrics = TestMetrics {
        hit_count: HitCount(AtomicInt { inner: 0 }),
        error_count: ErrorCount(AtomicInt { inner: 0 }),
    };
    let mut failures: u64 = 0;
    for i in 0..50u32 {
        let should_fail = i % 3 == 0;
        if should_fail {
            failures += 1;
        }
        let _ = measured(should_fail, &mut metrics);
    }
    assert_eq!(metrics.hit_count.0.get(), 50);
    assert_eq!(metrics.error_count.0.get(), failures);
}

#[test]
fn in_flight_gauge_counts_active_calls() {
    let mut m: InFlight = InFlight(AtomicInt { inner: 0 });
    let mut outer = ExitGuard::new::<(), _>(&mut m);
    assert_eq!(m.0.get(), 1);
    let mut inner = ExitGuard::new::<(), _>(&mut m);
    assert_eq!(m.0.get(), 2);
    inner.on_result(&mut m, &());
    assert_eq!(m.0.get(), 1);
    outer.on_result(&mut m, &());
    assert_eq!(m.0.get(), 0);
}

#[test]
fn in_flight_gauge_released_on_abnormal_exit() {
    let mut m: InFlight = InFlight(AtomicInt { inner: 0 });
    let mut guard = ExitGuard::new::<(), _>(&mut m);
    assert_eq!(m.0.get(), 1);
    // the wrapped expression never produced a value: the fallback path
    // must still release the gauge
    guard.leave_scope::<(), _>(&mut m);
    assert_eq!(m.0.get(), 0);
}

#[test]
fn observing_a_guard_twice_is_a_no_op() {
    let mut m: InFlight = InFlight(AtomicInt { inner: 0 });
    let mut guard = ExitGuard::new::<(), _>(&mut m);
    guard.on_result(&mut m, &());
    assert_eq!(m.0.get(), 0);
    guard.on_result(&mut m, &());
    guard.leave_scope::<(), _>(&mut m);
    assert_eq!(m.0.get(), 0);
}

#[test]
fn in_flight_clear_is_a_no_op() {
    let mut m: InFlight = InFlight(AtomicInt { inner: 3 });
    m.clear();
    assert_eq!(m.0.get(), 3);
}

#[test]
fn none_count_tracks_absent_values() {
    let mut m: NoneCount = NoneCount(AtomicInt { inner: 0 });
    let mut g = ExitGuard::new::<Option<u32>, _>(&mut m);
    let some: Option<u32> = Some(5);
    g.on_result(&mut m, &some);
    assert_eq!(m.0.get(), 0);

    let mut g = ExitGuard::new::<Option<u32>, _>(&mut m);
    let none: Option<u32> = None;
    g.on_result(&mut m, &none);
    assert_eq!(m.0.get(), 1);
}

#[test]
fn none_count_tracks_ok_none_results() {
    let mut m: NoneCount = NoneCount(AtomicInt { inner: 0 });
    let cases: [Result<Option<u32>, &'static str>; 3] = [Ok(Some(1)), Ok(None), Err("nope")];
    for r in cases.iter() {
        let mut g = ExitGuard::new::<Result<Option<u32>, &'static str>, _>(&mut m);
        g.on_result(&mut m, r);
    }
    assert_eq!(m.0.get(), 1);
}

#[test]
fn hit_count_clears_to_zero() {
    let mut m: HitCount = HitCount(AtomicInt { inner: 0 });
    let mut g = ExitGuard::new::<(), _>(&mut m);
    g.on_result(&mut m, &());
    assert_eq!(m.0.get(), 1);
    m.clear();
    assert_eq!(m.0.get(), 0);
}
