//! A numeric cell with wrapping arithmetic, the backend of counters and
//! gauges.
//!
//! The cell exposes get/set and wrapping increment/decrement operations on
//! the unsigned widths.  Updates go through `&mut self`, so concurrent use
//! needs outside synchronization around the owning registry.

use vstd::prelude::*;

verus! {

/// A numeric storage cell over an unsigned integer.
///
/// All operations wrap at the width's range, which makes them suitable for
/// tally counters in long-running processes: overflow stays observable
/// instead of being fatal.
#[derive(Clone, Copy, Debug)]
pub struct AtomicInt<T> {
    /// The stored value.
    pub inner: T,
}

impl AtomicInt<u8> {
    /// Returns the current value.
    pub fn get(&self) -> (r: u8)
        ensures
            r == self.inner,
    {
        self.inner
    }

    /// Sets self to a new value.
    pub fn set(&mut self, v: u8)
        ensures
            final(self).inner == v,
    {
        self.inner = v;
    }

    /// Increments self, wrapping at the width; returns the previous value.
    pub fn incr(&mut self) -> (prev: u8)
        ensures
            prev == old(self).inner,
            final(self).inner == (old(self).inner + 1) % 0x100,
    {
        let prev: u8 = self.inner;
        self.inner = self.inner.wrapping_add(1);
        prev
    }

    /// Increments self by `count`, wrapping at the width; returns the
    /// previous value.
    pub fn incr_by(&mut self, count: u8) -> (prev: u8)
        ensures
            prev == old(self).inner,
            final(self).inner == (old(self).inner + count) % 0x100,
    {
        let prev: u8 = self.inner;
        self.inner = self.inner.wrapping_add(count);
        prev
    }

    /// Decrements self, wrapping at the width; returns the previous value.
    pub fn decr(&mut self) -> (prev: u8)
        ensures
            prev == old(self).inner,
            final(self).inner == (old(self).inner - 1) % 0x100,
    {
        let prev: u8 = self.inner;
        self.inner = self.inner.wrapping_sub(1);
        prev
    }

    /// Decrements self by `count`, wrapping at the width; returns the
    /// previous value.
    pub fn decr_by(&mut self, count: u8) -> (prev: u8)
        ensures
            prev == old(self).inner,
            final(self).inner == (old(self).inner - count) % 0x100,
    {
        let prev: u8 = self.inner;
        self.inner = self.inner.wrapping_sub(count);
        prev
    }
}

impl AtomicInt<u16> {
    /// Returns the current value.
    pub fn get(&self) -> (r: u16)
        ensures
            r == self.inner,
    {
        self.inner
    }

    /// Sets self to a new value.
    pub fn set(&mut self, v: u16)
        ensures
            final(self).inner == v,
    {
        self.inner = v;
    }

    /// Increments self, wrapping at the width; returns the previous value.
    pub fn incr(&mut self) -> (prev: u16)
        ensures
            prev == old(self).inner,
            final(self).inner == (old(self).inner + 1) % 0x1_0000,
    {
        let prev: u16 = self.inner;
        self.inner = self.inner.wrapping_add(1);
        prev
    }

    /// Increments self by `count`, wrapping at the width; returns the
    /// previous value.
    pub fn incr_by(&mut self, count: u16) -> (prev: u16)
        ensures
            prev == old(self).inner,
            final(self).inner == (old(self).inner + count) % 0x1_0000,
    {
        let prev: u16 = self.inner;
        self.inner = self.inner.wrapping_add(count);
        prev
    }

    /// Decrements self, wrapping at the width; returns the previous value.
    pub fn decr(&mut self) -> (prev: u16)
        ensures
            prev == old(self).inner,
            final(self).inner == (old(self).inner - 1) % 0x1_0000,
    {
        let prev: u16 = self.inner;
        self.inner = self.inner.wrapping_sub(1);
        prev
    }

    /// Decrements self by `count`, wrapping at the width; returns the
    /// previous value.
    pub fn decr_by(&mut self, count: u16) -> (prev: u16)
        ensures
            prev == old(self).inner,
            final(self).inner == (old(self).inner - count) % 0x1_0000,
    {
        let prev: u16 = self.inner;
        self.inner = self.inner.wrapping_sub(count);
        prev
    }
}

impl AtomicInt<u32> {
    /// Returns the current value.
    pub fn get(&self) -> (r: u32)
        ensures
            r == self.inner,
    {
        self.inner
    }

    /// Sets self to a new value.
    pub fn set(&mut self, v: u32)
        ensures
            final(self).inner == v,
    {
        self.inner = v;
    }

    /// Increments self, wrapping at the width; returns the previous value.
    pub fn incr(&mut self) -> (prev: u32)
        ensures
            prev == old(self).inner,
            final(self).inner == (old(self).inner + 1) % 0x1_0000_0000,
    {
        let prev: u32 = self.inner;
        self.inner = self.inner.wrapping_add(1);
        prev
    }

    /// Increments self by `count`, wrapping at the width; returns the
    /// previous value.
    pub fn incr_by(&mut self, count: u32) -> (prev: u32)
        ensures
            prev == old(self).inner,
            final(self).inner == (old(self).inner + count) % 0x1_0000_0000,
    {
        let prev: u32 = self.inner;
        self.inner = self.inner.wrapping_add(count);
        prev
    }

    /// Decrements self, wrapping at the width; returns the previous value.
    pub fn decr(&mut self) -> (prev: u32)
        ensures
            prev == old(self).inner,
            final(self).inner == (old(self).inner - 1) % 0x1_0000_0000,
    {
        let prev: u32 = self.inner;
        self.inner = self.inner.wrapping_sub(1);
        prev
    }

    /// Decrements self by `count`, wrapping at the width; returns the
    /// previous value.
    pub fn decr_by(&mut self, count: u32) -> (prev: u32)
        ensures
            prev == old(self).inner,
            final(self).inner == (old(self).inner - count) % 0x1_0000_0000,
    {
        let prev: u32 = self.inner;
        self.inner = self.inner.wrapping_sub(count);
        prev
    }
}

impl AtomicInt<u64> {
    /// Returns the current value.
    pub fn get(&self) -> (r: u64)
        ensures
            r == self.inner,
    {
        self.inner
    }

    /// Sets self to a new value.
    pub fn set(&mut self, v: u64)
        ensures
            final(self).inner == v,
    {
        self.inner = v;
    }

    /// Increments self, wrapping at the width; returns the previous value.
    pub fn incr(&mut self) -> (prev: u64)
        ensures
            prev == old(self).inner,
            final(self).inner == (old(self).inner + 1) % 0x1_0000_0000_0000_0000,
    {
        let prev: u64 = self.inner;
        self.inner = self.inner.wrapping_add(1);
        prev
    }

    /// Increments self by `count`, wrapping at the width; returns the
    /// previous value.
    pub fn incr_by(&mut self, count: u64) -> (prev: u64)
        ensures
            prev == old(self).inner,
            final(self).inner == (old(self).inner + count) % 0x1_0000_0000_0000_0000,
    {
        let prev: u64 = self.inner;
        self.inner = self.inner.wrapping_add(count);
        prev
    }

    /// Decrements self, wrapping at the width; returns the previous value.
    pub fn decr(&mut self) -> (prev: u64)
        ensures
            prev == old(self).inner,
            final(self).inner == (old(self).inner - 1) % 0x1_0000_0000_0000_0000,
    {
        let prev: u64 = self.inner;
        self.inner = self.inner.wrapping_sub(1);
        prev
    }

    /// Decrements self by `count`, wrapping at the width; returns the
    /// previous value.
    pub fn decr_by(&mut self, count: u64) -> (prev: u64)
        ensures
            prev == old(self).inner,
            final(self).inner == (old(self).inner - count) % 0x1_0000_0000_0000_0000,
    {
        let prev: u64 = self.inner;
        self.inner = self.inner.wrapping_sub(count);
        prev
    }
}

impl AtomicInt<u128> {
    /// Returns the current value.
    pub fn get(&self) -> (r: u128)
        ensures
            r == self.inner,
    {
        self.inner
    }

    /// Sets self to a new value.
    pub fn set(&mut self, v: u128)
        ensures
            final(self).inner == v,
    {
        self.inner = v;
    }

    /// Increments self, wrapping at the width; returns the previous value.
    pub fn incr(&mut self) -> (prev: u128)
        ensures
            prev == old(self).inner,
            final(self).inner == (old(self).inner + 1) % 0x1_0000_0000_0000_0000_0000_0000_0000_0000int,
    {
        let prev: u128 = self.inner;
        self.inner = self.inner.wrapping_add(1);
        prev
    }

    /// Increments self by `count`, wrapping at the width; returns the
    /// previous value.
    pub fn incr_by(&mut self, count: u128) -> (prev: u128)
        ensures
            prev == old(self).inner,
            final(self).inner == (old(self).inner + count) % 0x1_0000_0000_0000_0000_0000_0000_0000_0000int,
    {
        let prev: u128 = self.inner;
        self.inner = self.inner.wrapping_add(count);
        prev
    }

    /// Decrements self, wrapping at the width; returns the previous value.
    pub fn decr(&mut self) -> (prev: u128)
        ensures
            prev == old(self).inner,
            final(self).inner == (old(self).inner - 1) % 0x1_0000_0000_0000_0000_0000_0000_0000_0000int,
    {
        let prev: u128 = self.inner;
        self.inner = self.inner.wrapping_sub(1);
        prev
    }

    /// Decrements self by `count`, wrapping at the width; returns the
    /// previous value.
    pub fn decr_by(&mut self, count: u128) -> (prev: u128)
        ensures
            prev == old(self).inner,
            final(self).inner == (old(self).inner - count) % 0x1_0000_0000_0000_0000_0000_0000_0000_0000int,
    {
        let prev: u128 = self.inner;
        self.inner = self.inner.wrapping_sub(count);
        prev
    }
}

impl Default for AtomicInt<u8> {
    /// A cell at zero.
    fn default() -> (r: Self)
        ensures
            r.inner == 0,
    {
        AtomicInt { inner: 0 }
    }
}

impl Default for AtomicInt<u16> {
    /// A cell at zero.
    fn default() -> (r: Self)
        ensures
            r.inner == 0,
    {
        AtomicInt { inner: 0 }
    }
}

impl Default for AtomicInt<u32> {
    /// A cell at zero.
    fn default() -> (r: Self)
        ensures
            r.inner == 0,
    {
        AtomicInt { inner: 0 }
    }
}

impl Default for AtomicInt<u64> {
    /// A cell at zero.
    fn default() -> (r: Self)
        ensures
            r.inner == 0,
    {
        AtomicInt { inner: 0 }
    }
}

impl Default for AtomicInt<u128> {
    /// A cell at zero.
    fn default() -> (r: Self)
        ensures
            r.inner == 0,
    {
        AtomicInt { inner: 0 }
    }
}

} // verus!
