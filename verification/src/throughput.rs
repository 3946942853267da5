//! The `Throughput` metric and its rolling per-second tracker.

use vstd::prelude::*;
use vstd::multiset::Multiset;
use core::marker::PhantomData;
use crate::clear::Clear;
use crate::hdr_histogram::{n_copies, saturated, HdrHistogram};
use crate::metric::{Advice, Metric};
use crate::time_source::{Instant, StdInstant};

verus! {

broadcast use vstd::multiset::group_multiset_axioms;

/// The bound of the rolling histogram: windows busier than this saturate.
pub const WINDOW_COUNT_BOUND: u64 = 100_000;

/// A rolling tracker of events per one-second window.
///
/// It keeps a start timestamp, a running count for the current window and
/// the index of the last window it accumulated into.  Windows close
/// lazily, on the next observed event: the just-closed window's count is
/// flushed into the histogram, fully skipped windows are recorded as
/// zero-count samples so trailing idle windows stay visible, and counting
/// restarts in the new window.
pub struct TxPerSec<T: Instant = StdInstant> {
    /// The histogram of closed windows' event counts.
    pub hdr_histogram: HdrHistogram,
    start_time: Option<T>,
    last_window: u64,
    count: u64,
}

impl<T: Instant> TxPerSec<T> {
    /// Whether a first event has set the start timestamp.
    pub closed spec fn started(&self) -> bool {
        self.start_time is Some
    }

    /// The index of the window currently being accumulated.
    pub closed spec fn window(&self) -> u64 {
        self.last_window
    }

    /// The running event count of the current window.
    pub closed spec fn pending(&self) -> u64 {
        self.count
    }

    /// The histogram of closed windows, as a spec value.
    pub closed spec fn histogram(&self) -> HdrHistogram {
        self.hdr_histogram
    }

    /// A tracker with no samples, no running count and no start time,
    /// bounded at [`WINDOW_COUNT_BOUND`] events per window.
    pub open spec fn is_fresh(&self) -> bool {
        &&& !self.started()
        &&& self.window() == 0
        &&& self.pending() == 0
        &&& self.histogram().bound() == WINDOW_COUNT_BOUND
        &&& self.histogram().samples() == Multiset::<u64>::empty()
    }

    /// Creates an empty tracker.
    pub fn new() -> (s: Self)
        ensures
            s.is_fresh(),
    {
        TxPerSec {
            hdr_histogram: HdrHistogram::with_bound(WINDOW_COUNT_BOUND),
            start_time: None,
            last_window: 0,
            count: 0,
        }
    }

    /// What clearing does: start timestamp, window index and running
    /// count reset, and the histogram empties while keeping its bound.
    pub open spec fn cleared_rel(pre: Self, post: Self) -> bool {
        &&& !post.started()
        &&& post.window() == 0
        &&& post.pending() == 0
        &&& post.histogram().samples() == Multiset::<u64>::empty()
        &&& post.histogram().bound() == pre.histogram().bound()
    }

    /// What one event at a given elapsed time does to the tracker.
    ///
    /// With `w` the window that `elapsed` falls in: inside the current
    /// window only the running count advances; in a later window the
    /// running count is flushed as one sample, each fully skipped window
    /// in between is recorded as a zero-count sample, and the new window
    /// starts with this event.
    pub open spec fn record_rel(pre: Self, post: Self, elapsed: u64) -> bool {
        let w = elapsed / T::one_sec_spec();
        let k = w - pre.window() - 1;
        &&& post.started() == pre.started()
        &&& post.histogram().bound() == pre.histogram().bound()
        &&& w <= pre.window() ==> {
            &&& post.window() == pre.window()
            &&& post.pending() == (pre.pending() + 1) % 0x1_0000_0000_0000_0000
            &&& post.histogram().samples() == pre.histogram().samples()
        }
        &&& w > pre.window() ==> {
            &&& post.window() == w
            &&& post.pending() == 1
            &&& pre.histogram().samples().len() + 1 + k < u64::MAX
                ==> post.histogram().samples() == pre.histogram().samples().insert(
                pre.histogram().equiv(
                    saturated(pre.histogram().bound(), pre.pending()),
                ),
            ).add(n_copies(0, k as nat))
            &&& pre.histogram().equiv_props_at(
                saturated(pre.histogram().bound(), pre.pending()),
            )
        }
    }

    /// Counts one event whose elapsed time since the tracker's start is
    /// given explicitly, closing windows as described by
    /// [`TxPerSec::record_rel`].
    pub fn record_elapsed(&mut self, elapsed: u64)
        ensures
            Self::record_rel(*old(self), *final(self), elapsed),
    {
        let one: u64 = T::one_sec();
        let w: u64 = elapsed / one;
        if w > self.last_window {
            let pending: u64 = self.count;
            self.hdr_histogram.record(pending);
            self.count = 0;
            let empty_windows: u64 = w - self.last_window - 1;
            if empty_windows > 0 {
                self.hdr_histogram.record_n(0, empty_windows);
            } else {
                proof {
                    assert(self.hdr_histogram.samples().add(n_copies(0, 0))
                        =~= self.hdr_histogram.samples());
                }
            }
            self.last_window = w;
        }
        self.count = self.count.wrapping_add(1);
    }

    /// Counts one event against the tracker's own clock: the first event
    /// only sets the start timestamp, every later one closes windows by
    /// the elapsed time since that start.
    pub fn on_result(&mut self)
        ensures
            old(self).started() ==> exists|elapsed: u64|
                Self::record_rel(*old(self), *final(self), elapsed),
            !old(self).started() ==> {
                &&& final(self).started()
                &&& final(self).window() == old(self).window()
                &&& final(self).pending() == (old(self).pending() + 1) % 0x1_0000_0000_0000_0000
                &&& final(self).histogram().samples() == old(self).histogram().samples()
                &&& final(self).histogram().bound() == old(self).histogram().bound()
            },
    {
        match &self.start_time {
            Some(start) => {
                let elapsed: u64 = start.elapsed_time();
                self.record_elapsed(elapsed);
                proof {
                    assert(Self::record_rel(*old(self), *self, elapsed));
                }
            },
            None => {
                self.start_time = Some(T::now());
                self.count = self.count.wrapping_add(1);
            },
        }
    }

    /// Clears the tracker: the start timestamp, window index and running
    /// count reset, and the histogram empties while keeping its bound.
    pub fn clear(&mut self)
        ensures
            Self::cleared_rel(*old(self), *final(self)),
    {
        self.hdr_histogram.clear();
        self.start_time = None;
        self.last_window = 0;
        self.count = 0;
    }
}

impl<T: Instant> Default for TxPerSec<T> {
    /// An empty tracker.
    fn default() -> (s: Self)
        ensures
            s.is_fresh(),
    {
        TxPerSec::new()
    }
}

/// The capability of counting one completed event into a throughput
/// tracker.
pub trait RecordThroughput: Sized {
    /// Relates the states around an [`RecordThroughput::on_result`] call.
    spec fn on_result_ens(pre: Self, post: Self) -> bool;

    /// Count one completed event.
    fn on_result(&mut self)
        ensures
            Self::on_result_ens(*old(self), *final(self)),
    ;
}

impl<T: Instant> RecordThroughput for TxPerSec<T> {
    /// One event was counted: against the tracker's clock once started,
    /// or starting the clock on the first event.
    open spec fn on_result_ens(pre: Self, post: Self) -> bool {
        &&& pre.started() ==> exists|elapsed: u64| Self::record_rel(pre, post, elapsed)
        &&& !pre.started() ==> {
            &&& post.started()
            &&& post.window() == pre.window()
            &&& post.pending() == (pre.pending() + 1) % 0x1_0000_0000_0000_0000
            &&& post.histogram().samples() == pre.histogram().samples()
            &&& post.histogram().bound() == pre.histogram().bound()
        }
    }

    fn on_result(&mut self) {
        TxPerSec::on_result(self);
    }
}

impl<T: Instant> Clear for TxPerSec<T> {
    /// Clearing empties the tracker while keeping the histogram's bound.
    open spec fn clear_ens(pre: Self, post: Self) -> bool {
        Self::cleared_rel(pre, post)
    }

    fn clear(&mut self) {
        TxPerSec::clear(self);
    }
}

/// A metric providing a transactions-per-second count backed by a
/// histogram.
///
/// Each completed call counts one event in the rolling tracker; the
/// histogram then holds one sample per closed one-second window, the
/// sample being that window's event count.  An abandoned call completed
/// nothing, so the fallback observation counts no event.
///
/// Because it reads the clock and maintains time windows, this is a
/// rather heavy-weight metric better applied at entry-points.
pub struct Throughput<T: Instant = StdInstant, P: RecordThroughput = TxPerSec<T>>(
    pub P,
    pub PhantomData<T>,
);

impl<T: Instant> Throughput<T, TxPerSec<T>> {
    /// Creates a throughput metric over an empty tracker.
    pub fn new() -> (s: Self)
        ensures
            s.0.is_fresh(),
    {
        Throughput(TxPerSec::new(), PhantomData)
    }
}

impl<T: Instant> Default for Throughput<T, TxPerSec<T>> {
    /// A throughput metric over an empty tracker.
    fn default() -> (s: Self)
        ensures
            s.0.is_fresh(),
    {
        Throughput::new()
    }
}

impl<T: Instant, P: RecordThroughput + Clear, R> Metric<R> for Throughput<T, P> {
    type E = ();

    /// Entering leaves the state untouched: only completions count.
    open spec fn enter_ens(pre: Self, post: Self, token: ()) -> bool {
        post == pre
    }

    /// Observing a result counts one completed event.
    open spec fn on_result_ens(pre: Self, post: Self, token: (), result: R) -> bool {
        P::on_result_ens(pre.0, post.0)
    }

    /// An abnormal exit completed no event: the tracker is untouched.
    open spec fn leave_ens(pre: Self, post: Self, token: ()) -> bool {
        post == pre
    }

    fn enter(&mut self) -> (token: ()) {
    }

    fn on_result(&mut self, token: (), result: &R) -> (a: Advice) {
        self.0.on_result();
        Advice::Return
    }

    fn leave_scope(&mut self, token: ()) {
    }
}

impl<T: Instant, P: RecordThroughput + Clear> Clear for Throughput<T, P> {
    /// Clearing resets the backing tracker.
    open spec fn clear_ens(pre: Self, post: Self) -> bool {
        <P as Clear>::clear_ens(pre.0, post.0)
    }

    fn clear(&mut self) {
        self.0.clear();
    }
}

} // verus!
