//! [`Counter`], [`Clear`] and [`Clearable`] implementations for
//! [`AtomicInt`] cells on the unsigned widths.

use vstd::prelude::*;
use vstd::arithmetic::div_mod::{lemma_add_mod_noop, lemma_small_mod};
use crate::atomic::AtomicInt;
use crate::clear::{Clear, Clearable};
use crate::metric::Counter;
use crate::num_wrapper::{wrap_u128, wrap_u16, wrap_u32, wrap_u64, wrap_u8};

verus! {

impl Clear for AtomicInt<u8> {
    open spec fn clear_ens(pre: Self, post: Self) -> bool {
        post.inner == 0
    }

    fn clear(&mut self) {
        self.set(0);
    }
}

impl Clearable for AtomicInt<u8> {
    open spec fn is_cleared_spec(&self) -> bool {
        self.inner == 0
    }

    fn is_cleared(&self) -> (r: bool) {
        self.inner == 0
    }
}

impl Counter for AtomicInt<u8> {
    open spec fn value_spec(&self) -> int {
        self.inner as int
    }

    open spec fn modulus() -> int {
        0x100
    }

    proof fn value_props(&self) {
    }

    fn incr(&mut self) {
        AtomicInt::<u8>::incr(self);
    }

    fn incr_by(&mut self, count: usize) {
        let ghost start: int = self.inner as int;
        let v: u8 = wrap_u8(count);
        AtomicInt::<u8>::incr_by(self, v);
        proof {
            lemma_small_mod(start as nat, 0x100);
            lemma_add_mod_noop(start, count as int, 0x100);
        }
    }
}

impl Clear for AtomicInt<u16> {
    open spec fn clear_ens(pre: Self, post: Self) -> bool {
        post.inner == 0
    }

    fn clear(&mut self) {
        self.set(0);
    }
}

impl Clearable for AtomicInt<u16> {
    open spec fn is_cleared_spec(&self) -> bool {
        self.inner == 0
    }

    fn is_cleared(&self) -> (r: bool) {
        self.inner == 0
    }
}

impl Counter for AtomicInt<u16> {
    open spec fn value_spec(&self) -> int {
        self.inner as int
    }

    open spec fn modulus() -> int {
        0x1_0000
    }

    proof fn value_props(&self) {
    }

    fn incr(&mut self) {
        AtomicInt::<u16>::incr(self);
    }

    fn incr_by(&mut self, count: usize) {
        let ghost start: int = self.inner as int;
        let v: u16 = wrap_u16(count);
        AtomicInt::<u16>::incr_by(self, v);
        proof {
            lemma_small_mod(start as nat, 0x1_0000);
            lemma_add_mod_noop(start, count as int, 0x1_0000);
        }
    }
}

impl Clear for AtomicInt<u32> {
    open spec fn clear_ens(pre: Self, post: Self) -> bool {
        post.inner == 0
    }

    fn clear(&mut self) {
        self.set(0);
    }
}

impl Clearable for AtomicInt<u32> {
    open spec fn is_cleared_spec(&self) -> bool {
        self.inner == 0
    }

    fn is_cleared(&self) -> (r: bool) {
        self.inner == 0
    }
}

impl Counter for AtomicInt<u32> {
    open spec fn value_spec(&self) -> int {
        self.inner as int
    }

    open spec fn modulus() -> int {
        0x1_0000_0000
    }

    proof fn value_props(&self) {
    }

    fn incr(&mut self) {
        AtomicInt::<u32>::incr(self);
    }

    fn incr_by(&mut self, count: usize) {
        let ghost start: int = self.inner as int;
        let v: u32 = wrap_u32(count);
        AtomicInt::<u32>::incr_by(self, v);
        proof {
            lemma_small_mod(start as nat, 0x1_0000_0000);
            lemma_add_mod_noop(start, count as int, 0x1_0000_0000);
        }
    }
}

impl Clear for AtomicInt<u64> {
    open spec fn clear_ens(pre: Self, post: Self) -> bool {
        post.inner == 0
    }

    fn clear(&mut self) {
        self.set(0);
    }
}

impl Clearable for AtomicInt<u64> {
    open spec fn is_cleared_spec(&self) -> bool {
        self.inner == 0
    }

    fn is_cleared(&self) -> (r: bool) {
        self.inner == 0
    }
}

impl Counter for AtomicInt<u64> {
    open spec fn value_spec(&self) -> int {
        self.inner as int
    }

    open spec fn modulus() -> int {
        0x1_0000_0000_0000_0000
    }

    proof fn value_props(&self) {
    }

    fn incr(&mut self) {
        AtomicInt::<u64>::incr(self);
    }

    fn incr_by(&mut self, count: usize) {
        let ghost start: int = self.inner as int;
        let v: u64 = wrap_u64(count);
        AtomicInt::<u64>::incr_by(self, v);
        proof {
            lemma_small_mod(start as nat, 0x1_0000_0000_0000_0000);
            lemma_add_mod_noop(start, count as int, 0x1_0000_0000_0000_0000);
        }
    }
}

impl Clear for AtomicInt<u128> {
    open spec fn clear_ens(pre: Self, post: Self) -> bool {
        post.inner == 0
    }

    fn clear(&mut self) {
        self.set(0);
    }
}

impl Clearable for AtomicInt<u128> {
    open spec fn is_cleared_spec(&self) -> bool {
        self.inner == 0
    }

    fn is_cleared(&self) -> (r: bool) {
        self.inner == 0
    }
}

impl Counter for AtomicInt<u128> {
    open spec fn value_spec(&self) -> int {
        self.inner as int
    }

    open spec fn modulus() -> int {
        0x1_0000_0000_0000_0000_0000_0000_0000_0000int
    }

    proof fn value_props(&self) {
    }

    fn incr(&mut self) {
        AtomicInt::<u128>::incr(self);
    }

    fn incr_by(&mut self, count: usize) {
        let ghost start: int = self.inner as int;
        let v: u128 = wrap_u128(count);
        AtomicInt::<u128>::incr_by(self, v);
        proof {
            lemma_small_mod(start as nat, 0x1_0000_0000_0000_0000_0000_0000_0000_0000int as nat);
            lemma_add_mod_noop(start, count as int, 0x1_0000_0000_0000_0000_0000_0000_0000_0000int);
        }
    }
}

} // verus!
