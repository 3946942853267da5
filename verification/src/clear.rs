//! The reset protocol shared by all metrics.

use vstd::prelude::*;

verus! {

/// The `Clear` trait is used to signal metrics to reset their state if
/// applicable.
///
/// Each implementation states, through [`Clear::clear_ens`], how the value
/// after a `clear` relates to the value before it.  Most metrics reset to
/// their empty state; gauges document an explicit no-op instead, since an
/// in-flight count that was cleared while calls are active would be
/// desynchronized by the matching decrements.
pub trait Clear: Sized {
    /// Relates the state before a [`Clear::clear`] call to the state after it.
    spec fn clear_ens(pre: Self, post: Self) -> bool;

    /// Requests to clear self.
    fn clear(&mut self)
        ensures
            Self::clear_ens(*old(self), *final(self)),
    ;
}

/// The `Clearable` trait reports whether a metric still is in its cleared
/// state.
///
/// Exporters use it to omit leaves that have never been written to, notably
/// in per-error-variant breakdowns where most variants usually stay at zero.
pub trait Clearable: Sized {
    /// What it means for the state to be untouched since the last clear.
    spec fn is_cleared_spec(&self) -> bool;

    /// Returns true if self has been cleared and not yet been written to
    /// since.
    fn is_cleared(&self) -> (r: bool)
        ensures
            r == self.is_cleared_spec(),
    ;
}

} // verus!
