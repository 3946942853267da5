//! Reduction of an architecture-width count to a cell's native width.
//!
//! Metrics wrap when their cells are at capacity instead of overflowing or
//! underflowing.  An abstract increment count is always supplied as a
//! `usize`; these helpers reduce it modulo the target width's range, so
//! that incrementing by `count` equals incrementing by one `count` times,
//! and so that for all `n` an `incr_by(n)` followed by a `decr_by(n)`
//! restores the original value.

use vstd::prelude::*;

verus! {

/// `count` reduced modulo the `u8` range.
pub(crate) fn wrap_u8(count: usize) -> (r: u8)
    ensures
        r == count as int % 0x100,
{
    (count % 0x100) as u8
}

/// `count` reduced modulo the `u16` range.
pub(crate) fn wrap_u16(count: usize) -> (r: u16)
    ensures
        r == count as int % 0x1_0000,
{
    (count % 0x1_0000) as u16
}

/// `count` reduced modulo the `u32` range.
pub(crate) fn wrap_u32(count: usize) -> (r: u32)
    ensures
        r == count as int % 0x1_0000_0000,
{
    ((count as u64) % 0x1_0000_0000) as u32
}

/// `count` reduced modulo the `u64` range; a `usize` already fits.
pub(crate) fn wrap_u64(count: usize) -> (r: u64)
    ensures
        r == count as int % 0x1_0000_0000_0000_0000,
{
    proof {
        vstd::arithmetic::div_mod::lemma_small_mod(count as nat, 0x1_0000_0000_0000_0000);
    }
    count as u64
}

/// `count` reduced modulo the `u128` range; a `usize` already fits.
pub(crate) fn wrap_u128(count: usize) -> (r: u128)
    ensures
        r == count as int % 0x1_0000_0000_0000_0000_0000_0000_0000_0000int,
{
    proof {
        vstd::arithmetic::div_mod::lemma_small_mod(
            count as nat,
            0x1_0000_0000_0000_0000_0000_0000_0000_0000int as nat,
        );
    }
    count as u128
}

} // verus!
