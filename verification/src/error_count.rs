//! The `ErrorCount` metric.

use vstd::prelude::*;
use crate::atomic::AtomicInt;
use crate::clear::{Clear, Clearable};
use crate::metric::{Advice, Counter, Metric};

verus! {

/// A metric counting how many times an expression typed as a std `Result`
/// returned an `Err` variant.
///
/// This is a light-weight metric: entering does nothing, and the exit
/// observation increments the counter exactly when the observed result is
/// a failure.
pub struct ErrorCount<C: Counter = AtomicInt<u64>>(pub C);

impl<C: Counter, T, F> Metric<Result<T, F>> for ErrorCount<C> {
    type E = ();

    /// Entering leaves the state untouched.
    open spec fn enter_ens(pre: Self, post: Self, token: ()) -> bool {
        post == pre
    }

    /// The counter advances exactly when the result is an `Err`.
    open spec fn on_result_ens(pre: Self, post: Self, token: (), result: Result<T, F>) -> bool {
        post.0.value_spec() == if result is Err {
            (pre.0.value_spec() + 1) % C::modulus()
        } else {
            pre.0.value_spec()
        }
    }

    /// An abnormal exit produced no result to classify, so the state is
    /// untouched.
    open spec fn leave_ens(pre: Self, post: Self, token: ()) -> bool {
        post == pre
    }

    fn enter(&mut self) -> (token: ()) {
    }

    fn on_result(&mut self, token: (), result: &Result<T, F>) -> (a: Advice) {
        if result.is_err() {
            self.0.incr();
        }
        Advice::Return
    }

    fn leave_scope(&mut self, token: ()) {
    }
}

impl<C: Counter> Clear for ErrorCount<C> {
    /// Clearing resets the backing counter.
    open spec fn clear_ens(pre: Self, post: Self) -> bool {
        <C as Clear>::clear_ens(pre.0, post.0)
    }

    fn clear(&mut self) {
        self.0.clear();
    }
}

impl<C: Counter> Clearable for ErrorCount<C> {
    open spec fn is_cleared_spec(&self) -> bool {
        self.0.is_cleared_spec()
    }

    fn is_cleared(&self) -> (r: bool) {
        self.0.is_cleared()
    }
}

impl Default for ErrorCount {
    /// The stock metric: a zeroed wrapping cell.
    fn default() -> (r: Self)
        ensures
            r.0.inner == 0,
    {
        ErrorCount(AtomicInt { inner: 0 })
    }
}

} // verus!
