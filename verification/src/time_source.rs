//! Time sources for duration and throughput measurements.
//!
//! What the clock returns is outside the model: the wrappers promise
//! nothing about the measured values, and every computation on an elapsed
//! time lives in a verified function that takes the reading as an
//! argument.

use vstd::prelude::*;

verus! {

/// A trait for any time source providing elapsed-time measurements.
///
/// The unit of a reading is defined by the source's `one_sec` value: one
/// second expressed in the source's resolution.  Users may provide their
/// own time source; the crate supplies wall-clock sources in milliseconds
/// and microseconds.
pub trait Instant: Sized {
    /// One second in the source's units.
    spec fn one_sec_spec() -> u64;

    /// One second in the source's units, as a runtime value; always
    /// positive.
    fn one_sec() -> (r: u64)
        ensures
            r == Self::one_sec_spec(),
            r > 0,
    ;

    /// Creates a new instant representing the current time.
    fn now() -> Self;

    /// Returns the elapsed time since the instant was created, in the
    /// source's units.
    fn elapsed_time(&self) -> u64;

    /// Return the amount of the source's units in a duration.
    fn units(duration: std::time::Duration) -> u64;
}

/// A wall-clock time source measuring in milliseconds.
#[verifier::external_body]
pub struct StdInstant {
    t: std::time::Instant,
}

/// Relies on the standard library's monotonic clock: what it returns is
/// not modelled.
#[verifier::external_body]
fn raw_now_millis() -> StdInstant {
    StdInstant { t: std::time::Instant::now() }
}

/// Relies on the standard library's elapsed-time query: the resulting
/// duration is not modelled.
#[verifier::external_body]
fn raw_elapsed_millis(i: &StdInstant) -> std::time::Duration {
    i.t.elapsed()
}

/// Relies on the standard library's conversion of a duration to whole
/// milliseconds; the value is a function of the duration but the duration
/// itself is opaque, so nothing is promised of it.
#[verifier::external_body]
fn raw_duration_millis(d: &std::time::Duration) -> u128 {
    d.as_millis()
}

/// A duration reading clamped into `u64`.
fn clamp_to_u64(units: u128) -> (r: u64)
    ensures
        r == if units > u64::MAX { u64::MAX as int } else { units as int },
{
    if units > 0xFFFF_FFFF_FFFF_FFFF {
        0xFFFF_FFFF_FFFF_FFFF
    } else {
        units as u64
    }
}

impl Instant for StdInstant {
    open spec fn one_sec_spec() -> u64 {
        1000
    }

    fn one_sec() -> (r: u64) {
        1000
    }

    fn now() -> Self {
        raw_now_millis()
    }

    fn elapsed_time(&self) -> u64 {
        let d: std::time::Duration = raw_elapsed_millis(self);
        clamp_to_u64(raw_duration_millis(&d))
    }

    fn units(duration: std::time::Duration) -> u64 {
        clamp_to_u64(raw_duration_millis(&duration))
    }
}

/// A wall-clock time source measuring in microseconds.
#[verifier::external_body]
pub struct StdInstantMicros {
    t: std::time::Instant,
}

/// Relies on the standard library's monotonic clock: what it returns is
/// not modelled.
#[verifier::external_body]
fn raw_now_micros() -> StdInstantMicros {
    StdInstantMicros { t: std::time::Instant::now() }
}

/// Relies on the standard library's elapsed-time query: the resulting
/// duration is not modelled.
#[verifier::external_body]
fn raw_elapsed_micros(i: &StdInstantMicros) -> std::time::Duration {
    i.t.elapsed()
}

/// Relies on the standard library's conversion of a duration to whole
/// microseconds; the value is a function of the duration but the duration
/// itself is opaque, so nothing is promised of it.
#[verifier::external_body]
fn raw_duration_micros(d: &std::time::Duration) -> u128 {
    d.as_micros()
}

impl Instant for StdInstantMicros {
    open spec fn one_sec_spec() -> u64 {
        1_000_000
    }

    fn one_sec() -> (r: u64) {
        1_000_000
    }

    fn now() -> Self {
        raw_now_micros()
    }

    fn elapsed_time(&self) -> u64 {
        let d: std::time::Duration = raw_elapsed_micros(self);
        clamp_to_u64(raw_duration_micros(&d))
    }

    fn units(duration: std::time::Duration) -> u64 {
        clamp_to_u64(raw_duration_micros(&duration))
    }
}

} // verus!
