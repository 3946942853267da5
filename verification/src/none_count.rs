//! The `NoneCount` metric.

use vstd::prelude::*;
use crate::atomic::AtomicInt;
use crate::clear::{Clear, Clearable};
use crate::metric::{Advice, Counter, Metric};

verus! {

/// A metric counting how many times the return value is `Ok(None)` or
/// `None`.
///
/// A count of present values is not provided, since it can be calculated
/// by subtracting `NoneCount` from `HitCount`.
///
/// This is a light-weight metric: entering does nothing, and the exit
/// observation increments the counter exactly when the observed value is
/// absent.
pub struct NoneCount<C: Counter = AtomicInt<u64>>(pub C);

impl<C: Counter, T> Metric<Option<T>> for NoneCount<C> {
    type E = ();

    /// Entering leaves the state untouched.
    open spec fn enter_ens(pre: Self, post: Self, token: ()) -> bool {
        post == pre
    }

    /// The counter advances exactly when the observed value is `None`.
    open spec fn on_result_ens(pre: Self, post: Self, token: (), result: Option<T>) -> bool {
        post.0.value_spec() == if result is None {
            (pre.0.value_spec() + 1) % C::modulus()
        } else {
            pre.0.value_spec()
        }
    }

    /// An abnormal exit produced no value to classify, so the state is
    /// untouched.
    open spec fn leave_ens(pre: Self, post: Self, token: ()) -> bool {
        post == pre
    }

    fn enter(&mut self) -> (token: ()) {
    }

    fn on_result(&mut self, token: (), result: &Option<T>) -> (a: Advice) {
        if result.is_none() {
            self.0.incr();
        }
        Advice::Return
    }

    fn leave_scope(&mut self, token: ()) {
    }
}

impl<C: Counter, T, F> Metric<Result<Option<T>, F>> for NoneCount<C> {
    type E = ();

    /// Entering leaves the state untouched.
    open spec fn enter_ens(pre: Self, post: Self, token: ()) -> bool {
        post == pre
    }

    /// The counter advances exactly when the result is `Ok(None)`.
    open spec fn on_result_ens(
        pre: Self,
        post: Self,
        token: (),
        result: Result<Option<T>, F>,
    ) -> bool {
        post.0.value_spec() == if (result matches Ok(v) && v is None) {
            (pre.0.value_spec() + 1) % C::modulus()
        } else {
            pre.0.value_spec()
        }
    }

    /// An abnormal exit produced no value to classify, so the state is
    /// untouched.
    open spec fn leave_ens(pre: Self, post: Self, token: ()) -> bool {
        post == pre
    }

    fn enter(&mut self) -> (token: ()) {
    }

    fn on_result(&mut self, token: (), result: &Result<Option<T>, F>) -> (a: Advice) {
        match result {
            Ok(v) => {
                if v.is_none() {
                    self.0.incr();
                }
            },
            Err(_) => {
            },
        }
        Advice::Return
    }

    fn leave_scope(&mut self, token: ()) {
    }
}

impl<C: Counter> Clear for NoneCount<C> {
    /// Clearing resets the backing counter.
    open spec fn clear_ens(pre: Self, post: Self) -> bool {
        <C as Clear>::clear_ens(pre.0, post.0)
    }

    fn clear(&mut self) {
        self.0.clear();
    }
}

impl<C: Counter> Clearable for NoneCount<C> {
    open spec fn is_cleared_spec(&self) -> bool {
        self.0.is_cleared_spec()
    }

    fn is_cleared(&self) -> (r: bool) {
        self.0.is_cleared()
    }
}

impl Default for NoneCount {
    /// The stock metric: a zeroed wrapping cell.
    fn default() -> (r: Self)
        ensures
            r.0.inner == 0,
    {
        NoneCount(AtomicInt { inner: 0 })
    }
}

} // verus!
