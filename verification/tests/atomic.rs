use metered::atomic::AtomicInt;
use metered::clear::{Clear, Clearable};
use metered::metric::{Counter, Gauge};

#[test]
fn test_atomic_wraps() {
    let mut a = AtomicInt { inner: 255u8 };

    a.incr();
    assert_eq!(a.get(), 0u8);

    a.decr();
    assert_eq!(a.get(), 255u8);
}

#[test]
fn incr_by_matches_repeated_incr() {
    let mut stepped = AtomicInt { inner: 42u8 };
    for _ in 0..300 {
        stepped.incr();
    }
    let mut batched = AtomicInt { inner: 42u8 };
    batched.incr_by(44u8);
    // 300 wraps to 44 modulo the u8 range
    assert_eq!(stepped.get(), batched.get());

    let mut counted: AtomicInt<u8> = AtomicInt { inner: 42u8 };
    Counter::incr_by(&mut counted, 300usize);
    assert_eq!(counted.get(), stepped.get());
}

#[test]
fn incr_by_then_decr_by_restores() {
    let mut g = AtomicInt { inner: 7u8 };
    Gauge::incr_by(&mut g, 1000usize);
    Gauge::decr_by(&mut g, 1000usize);
    assert_eq!(g.get(), 7u8);

    let mut wide = AtomicInt { inner: 12345u64 };
    Gauge::incr_by(&mut wide, usize::MAX);
    Gauge::decr_by(&mut wide, usize::MAX);
    assert_eq!(wide.get(), 12345u64);
}

#[test]
fn wider_cells_wrap_at_their_width() {
    let mut a16 = AtomicInt { inner: u16::MAX };
    a16.incr();
    assert_eq!(a16.get(), 0u16);

    let mut a32 = AtomicInt { inner: u32::MAX };
    a32.incr();
    assert_eq!(a32.get(), 0u32);

    let mut a64 = AtomicInt { inner: u64::MAX };
    a64.incr();
    assert_eq!(a64.get(), 0u64);
    a64.decr();
    assert_eq!(a64.get(), u64::MAX);
}

#[test]
fn gauge_decrement_wraps_below_zero() {
    let mut g = AtomicInt { inner: 0u8 };
    Gauge::decr(&mut g);
    assert_eq!(g.get(), 255u8);
    Gauge::incr(&mut g);
    assert_eq!(g.get(), 0u8);
}

#[test]
fn widest_cell_wraps_at_its_width() {
    let mut a = AtomicInt { inner: u128::MAX };
    a.incr();
    assert_eq!(a.get(), 0u128);
    a.decr();
    assert_eq!(a.get(), u128::MAX);
}

#[test]
fn set_and_clear_reset_the_cell() {
    let mut a = AtomicInt { inner: 0u64 };
    a.set(99);
    assert_eq!(a.get(), 99);
    assert!(!a.is_cleared());
    a.clear();
    assert_eq!(a.get(), 0);
    assert!(a.is_cleared());
}
