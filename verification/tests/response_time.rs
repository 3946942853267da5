use metered::clear::Clear;
use metered::hdr_histogram::HdrHistogram;
use metered::metric::ExitGuard;
use metered::response_time::ResponseTime;
use metered::time_source::StdInstantMicros;

#[test]
fn response_time_records_one_sample_per_call() {
    let mut rt: ResponseTime = ResponseTime::with_bound(4_000);
    for _ in 0..3 {
        let mut g = ExitGuard::new::<u32, _>(&mut rt);
        let r: u32 = 7;
        g.on_result(&mut rt, &r);
    }
    assert_eq!(rt.0.len(), 3);
}

#[test]
fn response_time_skips_recording_on_abnormal_exit() {
    let mut rt: ResponseTime = ResponseTime::default();
    let mut g = ExitGuard::new::<u32, _>(&mut rt);
    // the wrapped expression produced no value: there is no completed
    // duration to record
    g.leave_scope::<u32, _>(&mut rt);
    assert_eq!(rt.0.len(), 0);
}

#[test]
fn response_time_clears_its_histogram() {
    let mut rt: ResponseTime<HdrHistogram, StdInstantMicros> = ResponseTime::with_bound(4_000_000);
    let mut g = ExitGuard::new::<(), _>(&mut rt);
    g.on_result(&mut rt, &());
    assert_eq!(rt.0.len(), 1);
    rt.clear();
    assert_eq!(rt.0.len(), 0);
}
