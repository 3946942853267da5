//! The `ResponseTime` metric.

use vstd::prelude::*;
use core::marker::PhantomData;
use crate::clear::Clear;
use crate::hdr_histogram::HdrHistogram;
use crate::metric::{Advice, Histogram, Metric};
use crate::time_source::{Instant, StdInstant};

verus! {

/// A metric measuring the response time of an expression, that is the
/// duration the expression needed to complete.
///
/// Entering captures a timestamp; observing a result records the
/// elapsed time into a histogram.  The reading itself is outside the
/// model, so the contract promises that the histogram received exactly
/// one sample, without pinning its value.  An abnormal exit produced no
/// completed call to time, so the fallback observation records nothing.
///
/// Because it retrieves the current time before calling the expression,
/// computes the elapsed duration and registers it to a histogram, this is
/// a rather heavy-weight metric better applied at entry-points.
pub struct ResponseTime<H: Histogram = HdrHistogram, T: Instant = StdInstant>(
    pub H,
    pub PhantomData<T>,
);

impl<H: Histogram, T: Instant> ResponseTime<H, T> {
    /// Build a response-time metric with a custom histogram bound, given
    /// in the time source's units.
    pub fn with_bound(bound_units: u64) -> (s: Self)
        requires
            2 <= bound_units,
        ensures
            H::new_ens(bound_units, s.0),
    {
        ResponseTime(H::with_bound(bound_units), PhantomData)
    }

    /// The stock bound: five minutes in the time source's units, capped
    /// at the widest representable value.
    pub open spec fn stock_bound() -> u64 {
        if 5 * 60 * T::one_sec_spec() <= u64::MAX {
            (5 * 60 * T::one_sec_spec()) as u64
        } else {
            u64::MAX
        }
    }
}

impl<H: Histogram, T: Instant> Default for ResponseTime<H, T> {
    /// A histogram over the stock bound: durations from one unit to five
    /// minutes are tracked, and longer ones saturate.
    fn default() -> (s: Self)
        ensures
            H::new_ens(Self::stock_bound(), s.0),
    {
        let sec: u64 = T::one_sec();
        let bound: u64 = match 300u64.checked_mul(sec) {
            Some(b) => b,
            None => u64::MAX,
        };
        proof {
            assert(sec >= 1);
            if 300 * T::one_sec_spec() <= u64::MAX {
                assert(bound == 300 * sec);
                assert(bound >= 300) by (nonlinear_arith)
                    requires bound == 300 * sec && sec >= 1;
            }
            assert(bound == Self::stock_bound());
        }
        ResponseTime(H::with_bound(bound), PhantomData)
    }
}

impl<H: Histogram, T: Instant, R> Metric<R> for ResponseTime<H, T> {
    type E = T;

    /// Entering only captures a timestamp: the state is untouched.
    open spec fn enter_ens(pre: Self, post: Self, token: T) -> bool {
        post == pre
    }

    /// The histogram received exactly one sample: the elapsed time, which
    /// depends on the clock and is not pinned further.
    open spec fn on_result_ens(pre: Self, post: Self, token: T, result: R) -> bool {
        exists|elapsed: u64| H::record_ens(pre.0, post.0, elapsed)
    }

    /// An abnormal exit has no completed duration to record: the
    /// recording step is skipped and the state is untouched.
    open spec fn leave_ens(pre: Self, post: Self, token: T) -> bool {
        post == pre
    }

    fn enter(&mut self) -> (token: T) {
        T::now()
    }

    fn on_result(&mut self, token: T, result: &R) -> (a: Advice) {
        let elapsed: u64 = token.elapsed_time();
        self.0.record(elapsed);
        proof {
            assert(H::record_ens(old(self).0, self.0, elapsed));
        }
        Advice::Return
    }

    fn leave_scope(&mut self, token: T) {
    }
}

impl<H: Histogram, T: Instant> Clear for ResponseTime<H, T> {
    /// Clearing resets the backing histogram.
    open spec fn clear_ens(pre: Self, post: Self) -> bool {
        <H as Clear>::clear_ens(pre.0, post.0)
    }

    fn clear(&mut self) {
        self.0.clear();
    }
}

} // verus!
