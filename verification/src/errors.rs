//! Per-error-variant counting: one counter per failure variant, with
//! recursive delegation for variants that wrap another classified error
//! type.

use vstd::prelude::*;
use crate::atomic::AtomicInt;
use crate::clear::{Clear, Clearable};
use crate::metric::{Advice, Counter, Metric};

verus! {

/// Identifies the per-variant counter struct that belongs to an error
/// enum, for a chosen counter backend.
pub trait ErrorBreakdown<C: Counter> {
    /// The per-variant counter struct.
    type ErrorCount;
}

/// The capability of counting one occurrence of an error, dispatching on
/// its variant.
///
/// Exactly one matching variant's counter advances per failure; a variant
/// that wraps another classified error type forwards the call to the
/// nested breakdown's own dispatch.
pub trait ErrorBreakdownIncr<E>: Sized {
    /// Relates the states around an [`ErrorBreakdownIncr::incr`] call.
    spec fn incr_ens(pre: Self, post: Self, e: E) -> bool;

    /// Increase the count for the given variant by 1.
    fn incr(&mut self, e: &E)
        ensures
            Self::incr_ens(*old(self), *final(self), *e),
    ;
}

/// A library-level failure with two variants.
#[derive(Clone, Copy, Debug, PartialEq, Eq, Structural)]
pub enum LibError {
    /// The operation failed outright.
    Failure,
    /// The operation rejected its input.
    BadInput,
}

/// A service-level failure: either a wrapped [`LibError`] or an
/// input/output failure of its own.
#[derive(Clone, Copy, Debug, PartialEq, Eq, Structural)]
pub enum BazError {
    /// A library failure, classified recursively.
    Lib(LibError),
    /// An input/output failure.
    Io,
}

impl From<LibError> for BazError {
    fn from(e: LibError) -> (r: BazError) {
        BazError::Lib(e)
    }
}

impl vstd::std_specs::convert::FromSpecImpl<LibError> for BazError {
    open spec fn obeys_from_spec() -> bool {
        true
    }

    open spec fn from_spec(e: LibError) -> BazError {
        BazError::Lib(e)
    }
}

/// One counter per [`LibError`] variant.
pub struct LibErrorCount<C: Counter = AtomicInt<u64>> {
    /// Occurrences of [`LibError::Failure`].
    pub failure: C,
    /// Occurrences of [`LibError::BadInput`].
    pub bad_input: C,
}

impl<C: Counter> ErrorBreakdown<C> for LibError {
    type ErrorCount = LibErrorCount<C>;
}

impl<C: Counter> ErrorBreakdownIncr<LibError> for LibErrorCount<C> {
    /// Exactly the matching variant's counter advances; the other stays.
    open spec fn incr_ens(pre: Self, post: Self, e: LibError) -> bool {
        match e {
            LibError::Failure => {
                &&& post.failure.value_spec() == (pre.failure.value_spec() + 1) % C::modulus()
                &&& post.bad_input == pre.bad_input
            },
            LibError::BadInput => {
                &&& post.bad_input.value_spec() == (pre.bad_input.value_spec() + 1) % C::modulus()
                &&& post.failure == pre.failure
            },
        }
    }

    fn incr(&mut self, e: &LibError) {
        match e {
            LibError::Failure => self.failure.incr(),
            LibError::BadInput => self.bad_input.incr(),
        }
    }
}

impl<C: Counter> Clear for LibErrorCount<C> {
    /// Clearing resets every variant's counter.
    open spec fn clear_ens(pre: Self, post: Self) -> bool {
        &&& <C as Clear>::clear_ens(pre.failure, post.failure)
        &&& <C as Clear>::clear_ens(pre.bad_input, post.bad_input)
    }

    fn clear(&mut self) {
        self.failure.clear();
        self.bad_input.clear();
    }
}

impl<C: Counter> Clearable for LibErrorCount<C> {
    /// Untouched exactly when every variant's counter is.
    open spec fn is_cleared_spec(&self) -> bool {
        self.failure.is_cleared_spec() && self.bad_input.is_cleared_spec()
    }

    fn is_cleared(&self) -> (r: bool) {
        self.failure.is_cleared() && self.bad_input.is_cleared()
    }
}

/// One counter per [`BazError`] variant, with the wrapped [`LibError`]
/// broken down recursively.
pub struct BazErrorCount<C: Counter = AtomicInt<u64>> {
    /// The nested breakdown of [`BazError::Lib`] failures.
    pub lib: LibErrorCount<C>,
    /// Occurrences of [`BazError::Io`].
    pub io: C,
}

impl<C: Counter> ErrorBreakdown<C> for BazError {
    type ErrorCount = BazErrorCount<C>;
}

impl<C: Counter> ErrorBreakdownIncr<BazError> for BazErrorCount<C> {
    /// A wrapped library failure forwards to the nested breakdown's
    /// dispatch; an input/output failure counts locally.  Either way,
    /// exactly one variant's counter advances.
    open spec fn incr_ens(pre: Self, post: Self, e: BazError) -> bool {
        match e {
            BazError::Lib(inner) => {
                &&& <LibErrorCount<C> as ErrorBreakdownIncr<LibError>>::incr_ens(
                    pre.lib,
                    post.lib,
                    inner,
                )
                &&& post.io == pre.io
            },
            BazError::Io => {
                &&& post.io.value_spec() == (pre.io.value_spec() + 1) % C::modulus()
                &&& post.lib == pre.lib
            },
        }
    }

    fn incr(&mut self, e: &BazError) {
        match e {
            BazError::Lib(inner) => self.lib.incr(inner),
            BazError::Io => self.io.incr(),
        }
    }
}

impl<C: Counter> Clear for BazErrorCount<C> {
    /// Clearing resets every variant's counter, recursively.
    open spec fn clear_ens(pre: Self, post: Self) -> bool {
        &&& <LibErrorCount<C> as Clear>::clear_ens(pre.lib, post.lib)
        &&& <C as Clear>::clear_ens(pre.io, post.io)
    }

    fn clear(&mut self) {
        self.lib.clear();
        self.io.clear();
    }
}

impl<C: Counter> Clearable for BazErrorCount<C> {
    /// Untouched exactly when every variant's counter is, recursively.
    open spec fn is_cleared_spec(&self) -> bool {
        self.lib.is_cleared_spec() && self.io.is_cleared_spec()
    }

    fn is_cleared(&self) -> (r: bool) {
        self.lib.is_cleared() && self.io.is_cleared()
    }
}

impl<C: Counter, T> Metric<Result<T, LibError>> for LibErrorCount<C> {
    type E = ();

    /// Entering leaves the state untouched.
    open spec fn enter_ens(pre: Self, post: Self, token: ()) -> bool {
        post == pre
    }

    /// A failure advances exactly its variant's counter; a success leaves
    /// the state untouched.
    open spec fn on_result_ens(pre: Self, post: Self, token: (), result: Result<T, LibError>) -> bool {
        match result {
            Ok(_) => post == pre,
            Err(e) => Self::incr_ens(pre, post, e),
        }
    }

    /// An abnormal exit produced no result to classify.
    open spec fn leave_ens(pre: Self, post: Self, token: ()) -> bool {
        post == pre
    }

    fn enter(&mut self) -> (token: ()) {
    }

    fn on_result(&mut self, token: (), result: &Result<T, LibError>) -> (a: Advice) {
        match result {
            Ok(_) => {
            },
            Err(e) => self.incr(e),
        }
        Advice::Return
    }

    fn leave_scope(&mut self, token: ()) {
    }
}

impl<C: Counter, T> Metric<Result<T, BazError>> for BazErrorCount<C> {
    type E = ();

    /// Entering leaves the state untouched.
    open spec fn enter_ens(pre: Self, post: Self, token: ()) -> bool {
        post == pre
    }

    /// A failure advances exactly its variant's counter, recursively; a
    /// success leaves the state untouched.
    open spec fn on_result_ens(pre: Self, post: Self, token: (), result: Result<T, BazError>) -> bool {
        match result {
            Ok(_) => post == pre,
            Err(e) => Self::incr_ens(pre, post, e),
        }
    }

    /// An abnormal exit produced no result to classify.
    open spec fn leave_ens(pre: Self, post: Self, token: ()) -> bool {
        post == pre
    }

    fn enter(&mut self) -> (token: ()) {
    }

    fn on_result(&mut self, token: (), result: &Result<T, BazError>) -> (a: Advice) {
        match result {
            Ok(_) => {
            },
            Err(e) => self.incr(e),
        }
        Advice::Return
    }

    fn leave_scope(&mut self, token: ()) {
    }
}

impl Default for LibErrorCount {
    /// A breakdown with every variant's counter at zero.
    fn default() -> (r: Self)
        ensures
            r.failure.inner == 0,
            r.bad_input.inner == 0,
    {
        LibErrorCount {
            failure: AtomicInt { inner: 0 },
            bad_input: AtomicInt { inner: 0 },
        }
    }
}

impl Default for BazErrorCount {
    /// A breakdown with every variant's counter at zero, recursively.
    fn default() -> (r: Self)
        ensures
            r.lib.failure.inner == 0,
            r.lib.bad_input.inner == 0,
            r.io.inner == 0,
    {
        BazErrorCount {
            lib: LibErrorCount::default(),
            io: AtomicInt { inner: 0 },
        }
    }
}

} // verus!
