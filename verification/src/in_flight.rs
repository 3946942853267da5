//! The `InFlight` metric.

use vstd::prelude::*;
use crate::atomic::AtomicInt;
use crate::clear::Clear;
use crate::metric::{Advice, Gauge, Metric};

verus! {

/// A metric providing an in-flight gauge, showing how many calls are
/// currently active for an expression.
///
/// Entering increments the gauge; every exit — with or without a result —
/// decrements it, so after a completed scope the gauge is back at its
/// pre-entry value whatever the exit path was.
pub struct InFlight<G: Gauge = AtomicInt<u64>>(pub G);

impl<G: Gauge, R> Metric<R> for InFlight<G> {
    type E = ();

    /// Entering raises the active-call count, wrapping at the gauge's
    /// modulus.
    open spec fn enter_ens(pre: Self, post: Self, token: ()) -> bool {
        post.0.value_spec() == (pre.0.value_spec() + 1) % G::modulus()
    }

    /// Observing a result releases the active-call count.
    open spec fn on_result_ens(pre: Self, post: Self, token: (), result: R) -> bool {
        post.0.value_spec() == (pre.0.value_spec() - 1) % G::modulus()
    }

    /// An abnormal exit still releases the active-call count, so the
    /// gauge never leaks an entry.
    open spec fn leave_ens(pre: Self, post: Self, token: ()) -> bool {
        post.0.value_spec() == (pre.0.value_spec() - 1) % G::modulus()
    }

    fn enter(&mut self) -> (token: ()) {
        self.0.incr();
    }

    fn on_result(&mut self, token: (), result: &R) -> (a: Advice) {
        self.0.decr();
        Advice::Return
    }

    fn leave_scope(&mut self, token: ()) {
        self.0.decr();
    }
}

impl<G: Gauge> Clear for InFlight<G> {
    /// Clearing is deliberately a no-op: an in-flight gauge would get in
    /// an inconsistent state if cleared while calls are active, since the
    /// matching decrements would then underflow past the reset.
    open spec fn clear_ens(pre: Self, post: Self) -> bool {
        post == pre
    }

    fn clear(&mut self) {
    }
}

impl Default for InFlight {
    /// The stock metric: a zeroed wrapping gauge.
    fn default() -> (r: Self)
        ensures
            r.0.inner == 0,
    {
        InFlight(AtomicInt { inner: 0 })
    }
}

} // verus!
