//! Small instrumented services, wired to the metric lifecycle by hand.
//!
//! These show the wrapping code the composition protocol asks for: each
//! measured method enters its metrics in attachment order by nesting
//! guards, and lets the result flow through the exit observations in
//! reverse attachment order before returning.

use vstd::prelude::*;
use crate::hit_count::HitCount;
use crate::metric::ExitGuard;
use crate::throughput::{Throughput, TxPerSec};
use crate::time_source::StdInstant;

verus! {

/// The registry of [`Boz`]: one hit counter per measured method.
pub struct BozMetrics {
    /// Hits of [`Boz::increment_once`].
    pub increment_once: HitCount,
    /// Hits of [`Boz::increment_twice`].
    pub increment_twice: HitCount,
}

/// A service holding a plain value, with every method measured by a hit
/// counter.
pub struct Boz {
    /// The instrumented state.
    pub inc: i32,
    /// The owned metric registry.
    pub metrics: BozMetrics,
}

impl Boz {
    /// A service with a zeroed value and untouched metrics.
    pub fn new() -> (r: Self)
        ensures
            r.inc == 0,
            r.metrics.increment_once.0.inner == 0,
            r.metrics.increment_twice.0.inner == 0,
    {
        Boz {
            inc: 0,
            metrics: BozMetrics {
                increment_once: HitCount(crate::atomic::AtomicInt { inner: 0 }),
                increment_twice: HitCount(crate::atomic::AtomicInt { inner: 0 }),
            },
        }
    }

    /// Adds one to the value; measured by its hit counter.
    pub fn increment_once(&mut self)
        requires
            old(self).inc < i32::MAX,
        ensures
            final(self).inc == old(self).inc + 1,
            final(self).metrics.increment_once.0.inner
                == (old(self).metrics.increment_once.0.inner + 1) % 0x1_0000_0000_0000_0000,
            final(self).metrics.increment_twice == old(self).metrics.increment_twice,
    {
        let mut guard = ExitGuard::new::<(), _>(&mut self.metrics.increment_once);
        self.inc = self.inc + 1;
        let r: () = ();
        guard.on_result(&mut self.metrics.increment_once, &r);
    }

    /// Adds two to the value by calling [`Boz::increment_once`] twice;
    /// measured by its own hit counter, so the inner method's counter
    /// advances twice per call.
    pub fn increment_twice(&mut self)
        requires
            old(self).inc < i32::MAX - 1,
        ensures
            final(self).inc == old(self).inc + 2,
            final(self).metrics.increment_once.0.inner
                == (old(self).metrics.increment_once.0.inner + 2) % 0x1_0000_0000_0000_0000,
            final(self).metrics.increment_twice.0.inner
                == (old(self).metrics.increment_twice.0.inner + 1) % 0x1_0000_0000_0000_0000,
    {
        let mut guard = ExitGuard::new::<(), _>(&mut self.metrics.increment_twice);
        self.increment_once();
        self.increment_once();
        let r: () = ();
        guard.on_result(&mut self.metrics.increment_twice, &r);
        proof {
            vstd::arithmetic::div_mod::lemma_add_mod_noop(
                old(self).metrics.increment_once.0.inner + 1,
                1,
                0x1_0000_0000_0000_0000,
            );
            vstd::arithmetic::div_mod::lemma_small_mod(
                1,
                0x1_0000_0000_0000_0000,
            );
        }
    }
}

/// The registry of [`Biz`]: a hit counter and a throughput tracker for
/// its one measured method.
pub struct BizMetrics {
    /// Hits of [`Biz::biz`].
    pub hit_count: HitCount,
    /// Completions of [`Biz::biz`] per one-second window.
    pub throughput: Throughput,
}

/// A service whose one method is measured by a hit counter and a
/// throughput tracker.
pub struct Biz {
    /// The owned metric registry.
    pub metrics: BizMetrics,
}

impl Biz {
    /// A service with untouched metrics.
    pub fn new() -> (r: Self)
        ensures
            r.metrics.hit_count.0.inner == 0,
            r.metrics.throughput.0.is_fresh(),
    {
        Biz {
            metrics: BizMetrics {
                hit_count: HitCount(crate::atomic::AtomicInt { inner: 0 }),
                throughput: Throughput::new(),
            },
        }
    }

    /// The measured operation: counts a hit on entry and one completed
    /// event in the throughput tracker on exit.
    pub fn biz(&mut self)
        ensures
            final(self).metrics.hit_count.0.inner
                == (old(self).metrics.hit_count.0.inner + 1) % 0x1_0000_0000_0000_0000,
            <TxPerSec<StdInstant> as crate::throughput::RecordThroughput>::on_result_ens(
                old(self).metrics.throughput.0,
                final(self).metrics.throughput.0,
            ),
    {
        let mut hit_guard = ExitGuard::new::<(), _>(&mut self.metrics.hit_count);
        let mut tp_guard = ExitGuard::new::<(), _>(&mut self.metrics.throughput);
        let r: () = ();
        tp_guard.on_result(&mut self.metrics.throughput, &r);
        hit_guard.on_result(&mut self.metrics.hit_count, &r);
    }
}

} // verus!
