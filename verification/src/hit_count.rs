//! The `HitCount` metric.

use vstd::prelude::*;
use crate::atomic::AtomicInt;
use crate::clear::{Clear, Clearable};
use crate::metric::{Advice, Counter, Metric};

verus! {

/// A metric counting how many times an expression has been hit, before it
/// returns.
///
/// This is a light-weight metric: entering increments the counter, and
/// the exit observation leaves the state untouched.
pub struct HitCount<C: Counter = AtomicInt<u64>>(pub C);

impl<C: Counter, R> Metric<R> for HitCount<C> {
    type E = ();

    /// Entering counts the hit, wrapping at the counter's modulus.
    open spec fn enter_ens(pre: Self, post: Self, token: ()) -> bool {
        post.0.value_spec() == (pre.0.value_spec() + 1) % C::modulus()
    }

    /// The exit observation leaves the state untouched.
    open spec fn on_result_ens(pre: Self, post: Self, token: (), result: R) -> bool {
        post == pre
    }

    /// An abnormal exit leaves the state untouched.
    open spec fn leave_ens(pre: Self, post: Self, token: ()) -> bool {
        post == pre
    }

    fn enter(&mut self) -> (token: ()) {
        self.0.incr();
    }

    fn on_result(&mut self, token: (), result: &R) -> (a: Advice) {
        Advice::Return
    }

    fn leave_scope(&mut self, token: ()) {
    }
}

impl<C: Counter> Clear for HitCount<C> {
    /// Clearing resets the backing counter.
    open spec fn clear_ens(pre: Self, post: Self) -> bool {
        <C as Clear>::clear_ens(pre.0, post.0)
    }

    fn clear(&mut self) {
        self.0.clear();
    }
}

impl<C: Counter> Clearable for HitCount<C> {
    open spec fn is_cleared_spec(&self) -> bool {
        self.0.is_cleared_spec()
    }

    fn is_cleared(&self) -> (r: bool) {
        self.0.is_cleared()
    }
}

impl Default for HitCount {
    /// The stock metric: a zeroed wrapping cell.
    fn default() -> (r: Self)
        ensures
            r.0.inner == 0,
    {
        HitCount(AtomicInt { inner: 0 })
    }
}

} // verus!
