//! The metric capability set and the guard handling a metric's lifecycle.

use vstd::prelude::*;
use crate::clear::{Clear, Clearable};

verus! {

/// The control decision a metric returns from its exit observation.
///
/// `Return` means: continue propagating the result unchanged.  It is the
/// only decision currently needed; the enum leaves room for short-circuit
/// or replace behaviours.
pub enum Advice {
    /// Continue with the result unchanged.
    Return,
}

/// A composable observer with an enter/observe lifecycle around a measured
/// operation.
///
/// A metric can be entered, producing an opaque entry token of type
/// [`Metric::E`], and can observe a result given that token, updating its
/// state and returning an [`Advice`].  `leave_scope` is the fallback
/// observation for exits that produce no result (an abnormal exit).
///
/// Every implementation states its behaviour through the three relational
/// spec functions: they relate the state before a call to the state after
/// it, so that even observations depending on the clock (response times)
/// can say exactly what holds of every outcome.
pub trait Metric<R>: Clear {
    /// The opaque entry token produced by `enter` and consumed exactly once
    /// by the matching exit observation.
    type E;

    /// Relates the states around an [`Metric::enter`] call.
    spec fn enter_ens(pre: Self, post: Self, token: Self::E) -> bool;

    /// Relates the states around an [`Metric::on_result`] call.
    spec fn on_result_ens(pre: Self, post: Self, token: Self::E, result: R) -> bool;

    /// Relates the states around a [`Metric::leave_scope`] call.
    spec fn leave_ens(pre: Self, post: Self, token: Self::E) -> bool;

    /// Records entry to the measured scope; must not fail.
    fn enter(&mut self) -> (token: Self::E)
        ensures
            Self::enter_ens(*old(self), *final(self), token),
    ;

    /// Observes the result of the measured expression, consuming the entry
    /// token.
    fn on_result(&mut self, token: Self::E, result: &R) -> (a: Advice)
        ensures
            Self::on_result_ens(*old(self), *final(self), token, *result),
    ;

    /// Observes an exit that produced no result, consuming the entry token.
    fn leave_scope(&mut self, token: Self::E)
        ensures
            Self::leave_ens(*old(self), *final(self), token),
    ;
}

/// Handles a metric's lifecycle, guarding against double observation.
///
/// The guard owns the entry token produced by [`Metric::enter`] and hands
/// it to the metric exactly once: after the first `on_result` or
/// `leave_scope` call the token is gone and every further observation is a
/// no-op.  A caller that may exit a scope abnormally keeps the guard and
/// calls `leave_scope` on the fallback path, so that stateful metrics such
/// as in-flight gauges still release their entry state.
pub struct ExitGuard<Token> {
    token: Option<Token>,
}

impl<Token> ExitGuard<Token> {
    /// True while the guard still holds its entry token.
    pub closed spec fn is_armed(&self) -> bool {
        self.token is Some
    }

    /// The entry token the guard still holds, if any.
    pub closed spec fn spec_token(&self) -> Option<Token> {
        self.token
    }

    /// Enter a metric and create the guard for its exit.
    pub fn new<R, M: Metric<R, E = Token>>(metric: &mut M) -> (g: Self)
        ensures
            g.is_armed(),
            (match g.spec_token() {
                Some(t) => M::enter_ens(*old(metric), *final(metric), t),
                None => false,
            }),
    {
        let token = metric.enter();
        ExitGuard { token: Some(token) }
    }

    /// If the guard is still armed, record the expression's result;
    /// observing twice is a no-op.
    pub fn on_result<R, M: Metric<R, E = Token>>(&mut self, metric: &mut M, result: &R) -> (a: Advice)
        ensures
            !final(self).is_armed(),
            final(self).spec_token() is None,
            (match old(self).spec_token() {
                Some(t) => M::on_result_ens(*old(metric), *final(metric), t, *result),
                None => *final(metric) == *old(metric),
            }),
    {
        match self.token.take() {
            Some(token) => metric.on_result(token, result),
            None => Advice::Return,
        }
    }

    /// If the guard is still armed, observe an exit without a result;
    /// observing twice is a no-op.
    pub fn leave_scope<R, M: Metric<R, E = Token>>(&mut self, metric: &mut M)
        ensures
            !final(self).is_armed(),
            final(self).spec_token() is None,
            (match old(self).spec_token() {
                Some(t) => M::leave_ens(*old(metric), *final(metric), t),
                None => *final(metric) == *old(metric),
            }),
    {
        match self.token.take() {
            Some(token) => metric.leave_scope(token),
            None => (),
        }
    }
}

/// Observes a result on a metric, consuming an entry token: the helper
/// that scope-wrapping code calls, so that only [`Metric`] implementors
/// participate in the composition protocol.
pub fn on_result<R, M: Metric<R>>(metric: &mut M, token: M::E, result: &R) -> (a: Advice)
    ensures
        M::on_result_ens(*old(metric), *final(metric), token, *result),
{
    metric.on_result(token, result)
}

/// A numeric tally cell that wraps at its modulus.
///
/// `value_spec` is the cell's current value and `modulus` the size of its
/// range: a `W`-bit cell has modulus `2^W`.  Increments wrap modulo the
/// range instead of saturating or failing, so that overflow in a
/// long-running process stays observable without ever panicking.
pub trait Counter: Clear + Clearable {
    /// The current value of the counter, as an integer in `[0, modulus)`.
    spec fn value_spec(&self) -> int;

    /// The size of the counter's range.
    spec fn modulus() -> int;

    /// The value always lies inside the range, and the range is non-trivial.
    proof fn value_props(&self)
        ensures
            0 <= self.value_spec() < Self::modulus(),
            Self::modulus() > 1,
    ;

    /// Increment the counter by one, wrapping at the modulus.
    fn incr(&mut self)
        ensures
            final(self).value_spec() == (old(self).value_spec() + 1) % Self::modulus(),
    ;

    /// Increment the counter by `count` in one step, wrapping at the
    /// modulus.
    fn incr_by(&mut self, count: usize)
        ensures
            final(self).value_spec() == (old(self).value_spec() + count) % Self::modulus(),
    ;
}

/// A bidirectional numeric cell with the same wraparound semantics as
/// [`Counter`], used for "currently active count" tracking.
///
/// For every value and every `n`, `incr_by(n)` followed by `decr_by(n)`
/// restores the original value, which is why gauges wrap rather than
/// saturate: a saturated add would unbalance the matching decrement.
pub trait Gauge: Clear {
    /// The current value of the gauge, as an integer in `[0, modulus)`.
    spec fn value_spec(&self) -> int;

    /// The size of the gauge's range.
    spec fn modulus() -> int;

    /// The value always lies inside the range, and the range is non-trivial.
    proof fn value_props(&self)
        ensures
            0 <= self.value_spec() < Self::modulus(),
            Self::modulus() > 1,
    ;

    /// Increment the gauge by one, wrapping at the modulus.
    fn incr(&mut self)
        ensures
            final(self).value_spec() == (old(self).value_spec() + 1) % Self::modulus(),
    ;

    /// Decrement the gauge by one, wrapping at the modulus.
    fn decr(&mut self)
        ensures
            final(self).value_spec() == (old(self).value_spec() - 1) % Self::modulus(),
    ;

    /// Increment the gauge by `count` in one step, wrapping at the modulus.
    fn incr_by(&mut self, count: usize)
        ensures
            final(self).value_spec() == (old(self).value_spec() + count) % Self::modulus(),
    ;

    /// Decrement the gauge by `count` in one step, wrapping at the modulus.
    fn decr_by(&mut self, count: usize)
        ensures
            final(self).value_spec() == (old(self).value_spec() - count) % Self::modulus(),
    ;
}

/// A bounded, saturating sample store supporting statistics queries.
///
/// A histogram is built with an explicit upper bound; recording is total
/// over all `u64` inputs because values above the bound saturate to the
/// bound.  Each implementation states, through the two relational spec
/// functions, what construction and recording do to its contents.
pub trait Histogram: Clear {
    /// What holds of a freshly constructed histogram.
    spec fn new_ens(max_value: u64, post: Self) -> bool;

    /// Relates the states around a [`Histogram::record`] call.
    spec fn record_ens(pre: Self, post: Self, value: u64) -> bool;

    /// Build a new histogram with the given max bound.
    ///
    /// A bound below 2 cannot produce a usable histogram and is rejected at
    /// construction time.
    fn with_bound(max_value: u64) -> (s: Self)
        requires
            2 <= max_value,
        ensures
            Self::new_ens(max_value, s),
    ;

    /// Record a value to the histogram, saturating at the bound.
    fn record(&mut self, value: u64)
        ensures
            Self::record_ens(*old(self), *final(self), value),
    ;
}

} // verus!
