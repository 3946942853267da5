use metered::atomic::AtomicInt;
use metered::clear::{Clear, Clearable};
use metered::errors::{BazError, BazErrorCount, ErrorBreakdownIncr, LibError, LibErrorCount};
use metered::metric::ExitGuard;

fn lib_counts() -> LibErrorCount {
    LibErrorCount {
        failure: AtomicInt { inner: 0 },
        bad_input: AtomicInt { inner: 0 },
    }
}

fn baz_counts() -> BazErrorCount {
    BazErrorCount {
        lib: lib_counts(),
        io: AtomicInt { inner: 0 },
    }
}

#[test]
fn breakdown_counts_exactly_the_matching_variant() {
    let mut counts = lib_counts();
    counts.incr(&LibError::Failure);
    counts.incr(&LibError::Failure);
    counts.incr(&LibError::BadInput);
    assert_eq!(counts.failure.get(), 2);
    assert_eq!(counts.bad_input.get(), 1);
}

#[test]
fn nested_breakdown_delegates_recursively() {
    let mut counts = baz_counts();
    counts.incr(&BazError::Io);
    counts.incr(&BazError::Lib(LibError::Failure));
    counts.incr(&BazError::Lib(LibError::BadInput));
    counts.incr(&BazError::Lib(LibError::BadInput));
    assert_eq!(counts.io.get(), 1);
    assert_eq!(counts.lib.failure.get(), 1);
    assert_eq!(counts.lib.bad_input.get(), 2);
}

#[test]
fn breakdown_as_metric_counts_failures_only() {
    let mut counts = baz_counts();
    let cases: [Result<u32, BazError>; 3] = [
        Ok(7),
        Err(BazError::Lib(LibError::Failure)),
        Err(BazError::Io),
    ];
    for r in cases.iter() {
        let mut g = ExitGuard::new::<Result<u32, BazError>, _>(&mut counts);
        g.on_result(&mut counts, r);
    }
    assert_eq!(counts.lib.failure.get(), 1);
    assert_eq!(counts.lib.bad_input.get(), 0);
    assert_eq!(counts.io.get(), 1);
}

#[test]
fn cleared_breakdowns_report_untouched_variants() {
    let mut counts = baz_counts();
    assert!(counts.is_cleared());
    counts.incr(&BazError::Lib(LibError::Failure));
    assert!(!counts.is_cleared());
    assert!(!counts.lib.is_cleared());
    counts.clear();
    assert!(counts.is_cleared());
    assert_eq!(counts.lib.failure.get(), 0);
}

#[test]
fn lib_errors_convert_into_baz_errors() {
    let e: BazError = LibError::Failure.into();
    assert_eq!(e, BazError::Lib(LibError::Failure));
}
