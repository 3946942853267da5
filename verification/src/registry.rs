//! A value-owned registry of plain counters.
//!
//! The registry is embedded in the type it instruments and shared exactly
//! as that type is shared: there is no global or ambient metric state.

use vstd::prelude::*;

verus! {

/// A mergeable numeric counter over a plain value type.
///
/// Like the cells behind the stock metrics, these counters wrap at their
/// width's range: incrementing or merging past the range never panics and
/// never shrinks the accepted inputs, it wraps modulo the range.
pub trait Counter: Sized {
    /// The underlying numeric representation.
    type ValueType;

    /// The counter's current value, as an integer in `[0, modulus)`.
    spec fn val(&self) -> int;

    /// The size of the counter's range.
    spec fn modulus() -> int;

    /// The value always lies inside the range, and the range is
    /// non-trivial.
    proof fn val_props(&self)
        ensures
            0 <= self.val() < Self::modulus(),
            Self::modulus() > 1,
    ;

    /// The counter's current value.
    fn value(&self) -> Self::ValueType;

    /// Add one to the counter, wrapping at the range.
    fn inc(&mut self)
        ensures
            final(self).val() == (old(self).val() + 1) % Self::modulus(),
    ;

    /// Add another counter's value into this one, wrapping at the range.
    fn merge_with(&mut self, other: &Self)
        ensures
            final(self).val() == (old(self).val() + other.val()) % Self::modulus(),
    ;
}

impl Counter for u32 {
    type ValueType = u32;

    open spec fn val(&self) -> int {
        *self as int
    }

    open spec fn modulus() -> int {
        0x1_0000_0000
    }

    proof fn val_props(&self) {
    }

    fn value(&self) -> (r: u32)
        ensures
            r == *self,
    {
        *self
    }

    fn inc(&mut self) {
        *self = self.wrapping_add(1);
    }

    fn merge_with(&mut self, other: &Self) {
        *self = self.wrapping_add(*other);
    }
}

/// A registry owning a flat collection of 32-bit counters.
#[derive(Clone)]
pub struct MetricRegistry {
    /// The owned counters.
    pub counters32: Vec<u32>,
}

impl MetricRegistry {
    /// An empty registry.
    pub fn new() -> (r: MetricRegistry)
        ensures
            r.counters32@ == Seq::<u32>::empty(),
    {
        MetricRegistry { counters32: Vec::new() }
    }
}

impl Default for MetricRegistry {
    /// An empty registry.
    fn default() -> (r: MetricRegistry)
        ensures
            r.counters32@ == Seq::<u32>::empty(),
    {
        MetricRegistry::new()
    }
}

} // verus!
