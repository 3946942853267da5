//! The crate-wide laws of the wrapping counters and the rolling tracker,
//! stated over the same spec functions the metrics' contracts use.

use vstd::prelude::*;
use vstd::multiset::Multiset;
use vstd::arithmetic::div_mod::{lemma_add_mod_noop, lemma_small_mod, lemma_sub_mod_noop};
use crate::hdr_histogram::{n_copies, saturated};
use crate::in_flight::InFlight;
use crate::metric::{Counter, Gauge, Metric};
use crate::throughput::TxPerSec;
use crate::time_source::Instant;

verus! {

broadcast use vstd::multiset::group_multiset_axioms;

/// The value of a wrapping cell after `n` single increments.
pub open spec fn repeated_incr(start: int, n: nat, m: int) -> int
    decreases n,
{
    if n == 0 {
        start
    } else {
        (repeated_incr(start, (n - 1) as nat, m) + 1) % m
    }
}

/// Incrementing a wrapping cell by one, `n` times, leaves the same value
/// as one increment by `n`: `repeated_incr` lands on the value that
/// `incr_by`'s contract gives, whatever the width's modulus.
pub proof fn lemma_repeated_incr_equals_incr_by(start: int, n: nat, m: int)
    requires
        m > 1,
        0 <= start < m,
    ensures
        repeated_incr(start, n, m) == (start + n) % m,
    decreases n,
{
    if n == 0 {
        lemma_small_mod(start as nat, m as nat);
    } else {
        lemma_repeated_incr_equals_incr_by(start, (n - 1) as nat, m);
        lemma_add_mod_noop(start + (n - 1), 1, m);
        lemma_small_mod(1, m as nat);
        vstd::arithmetic::div_mod::lemma_mod_twice(start + (n - 1), m);
    }
}

/// Incrementing a wrapping cell by `n` and then decrementing it by `n`
/// restores the original value, for every `n` — including `n` beyond the
/// cell's range.
pub proof fn lemma_incr_then_decr_restores(start: int, n: int, m: int)
    requires
        m > 1,
        0 <= start < m,
        n >= 0,
    ensures
        ((start + n) % m - n) % m == start,
{
    let a = (start + n) % m;
    lemma_small_mod(a as nat, m as nat);
    lemma_sub_mod_noop(a, n, m);
    lemma_sub_mod_noop(start + n, n, m);
    lemma_small_mod(start as nat, m as nat);
}

/// The gauge-level guard law: a gauge entered once and left once — on any
/// exit path — is back at its pre-entry value, wraparound included.
pub proof fn lemma_gauge_enter_leave_balanced<G: Gauge>(pre: G, mid: G, post: G)
    requires
        mid.value_spec() == (pre.value_spec() + 1) % G::modulus(),
        post.value_spec() == (mid.value_spec() - 1) % G::modulus(),
    ensures
        post.value_spec() == pre.value_spec(),
{
    pre.value_props();
    lemma_incr_then_decr_restores(pre.value_spec(), 1, G::modulus());
}

/// The gauge-level batch law: `incr_by(n)` followed by `decr_by(n)`
/// restores the gauge, for any `n`.
pub proof fn lemma_gauge_incr_by_decr_by_balanced<G: Gauge>(pre: G, mid: G, post: G, n: usize)
    requires
        mid.value_spec() == (pre.value_spec() + n) % G::modulus(),
        post.value_spec() == (mid.value_spec() - n) % G::modulus(),
    ensures
        post.value_spec() == pre.value_spec(),
{
    pre.value_props();
    lemma_incr_then_decr_restores(pre.value_spec(), n as int, G::modulus());
}

/// The counter-level law behind repeated hits: `n` single increments of
/// any counter land on the value `incr_by(n)` gives.
pub proof fn lemma_counter_repeated_incr<C: Counter>(pre: C, n: nat)
    ensures
        repeated_incr(pre.value_spec(), n, C::modulus()) == (pre.value_spec() + n) % C::modulus(),
{
    pre.value_props();
    lemma_repeated_incr_equals_incr_by(pre.value_spec(), n, C::modulus());
}

/// How many of the observed outcomes were failures.
pub open spec fn count_errs(outcomes: Seq<bool>) -> int
    decreases outcomes.len(),
{
    if outcomes.len() == 0 {
        0
    } else {
        count_errs(outcomes.drop_last()) + if outcomes.last() {
            1int
        } else {
            0int
        }
    }
}

/// The error-counter value after observing a sequence of outcomes, each
/// failure advancing the wrapping counter by one.
pub open spec fn run_err_counter(start: int, outcomes: Seq<bool>, m: int) -> int
    decreases outcomes.len(),
{
    if outcomes.len() == 0 {
        start
    } else {
        let prev = run_err_counter(start, outcomes.drop_last(), m);
        if outcomes.last() {
            (prev + 1) % m
        } else {
            prev
        }
    }
}

/// No more failures than outcomes.
pub proof fn lemma_count_errs_le_len(outcomes: Seq<bool>)
    ensures
        0 <= count_errs(outcomes) <= outcomes.len(),
    decreases outcomes.len(),
{
    if outcomes.len() > 0 {
        lemma_count_errs_le_len(outcomes.drop_last());
    }
}

/// Observing a sequence of outcomes leaves the error counter at its
/// start plus the number of failures, modulo the width — exactly what
/// the hit counter's law gives for the total count.
pub proof fn lemma_run_err_counter(start: int, outcomes: Seq<bool>, m: int)
    requires
        m > 1,
        0 <= start < m,
    ensures
        run_err_counter(start, outcomes, m) == (start + count_errs(outcomes)) % m,
    decreases outcomes.len(),
{
    lemma_count_errs_le_len(outcomes);
    if outcomes.len() == 0 {
        lemma_small_mod(start as nat, m as nat);
    } else {
        lemma_run_err_counter(start, outcomes.drop_last(), m);
        lemma_count_errs_le_len(outcomes.drop_last());
        if outcomes.last() {
            lemma_add_mod_noop(start + count_errs(outcomes.drop_last()), 1, m);
            lemma_small_mod(1, m as nat);
            vstd::arithmetic::div_mod::lemma_mod_twice(
                start + count_errs(outcomes.drop_last()),
                m,
            );
        }
    }
}

/// The measured-run law: a scope measured by a hit counter and an error
/// counter, invoked over a sequence of outcomes with `M` failures among
/// `T` calls, ends with the hit counter advanced by `T` and the error
/// counter advanced by `M`, modulo the width.  Starting from zero with
/// fewer calls than the modulus, the counters read exactly `T` and `M`.
pub proof fn lemma_hit_and_error_counts(outcomes: Seq<bool>, m: int)
    requires
        m > 1,
        outcomes.len() < m,
    ensures
        repeated_incr(0, outcomes.len() as nat, m) == outcomes.len(),
        run_err_counter(0, outcomes, m) == count_errs(outcomes),
{
    lemma_repeated_incr_equals_incr_by(0, outcomes.len() as nat, m);
    lemma_run_err_counter(0, outcomes, m);
    lemma_count_errs_le_len(outcomes);
    lemma_small_mod(outcomes.len(), m as nat);
    lemma_small_mod(count_errs(outcomes) as nat, m as nat);
}

/// The sum of a multiset of window counts.
pub open spec fn msum(s: Multiset<u64>) -> int
    decreases s.len(),
{
    if s.len() == 0 {
        0
    } else {
        let v = s.choose();
        v + msum(s.remove(v))
    }
}

/// Removing a present element takes exactly its value out of the sum.
pub proof fn lemma_msum_remove(s: Multiset<u64>, v: u64)
    requires
        s.contains(v),
    ensures
        msum(s) == v + msum(s.remove(v)),
    decreases s.len(),
{
    let c = s.choose();
    if c == v {
    } else {
        assert(s.len() > 0);
        assert(s.contains(c));
        let s1 = s.remove(c);
        assert(s1.contains(v));
        lemma_msum_remove(s1, v);
        let s2 = s.remove(v);
        assert(s2.contains(c));
        lemma_msum_remove(s2, c);
        assert(s1.remove(v) =~= s2.remove(c));
    }
}

/// Inserting an element adds exactly its value to the sum.
pub proof fn lemma_msum_insert(s: Multiset<u64>, v: u64)
    ensures
        msum(s.insert(v)) == msum(s) + v,
{
    let t = s.insert(v);
    assert(t.contains(v));
    lemma_msum_remove(t, v);
    assert(t.remove(v) =~= s);
}

/// Zero-count samples do not change the sum.
pub proof fn lemma_msum_zero_copies(s: Multiset<u64>, k: nat)
    ensures
        msum(s.add(n_copies(0, k))) == msum(s),
    decreases k,
{
    if k == 0 {
        assert(s.add(n_copies(0, 0)) =~= s);
    } else {
        lemma_msum_zero_copies(s, (k - 1) as nat);
        assert(s.add(n_copies(0, k)) =~= s.add(n_copies(0, (k - 1) as nat)).insert(0));
        lemma_msum_insert(s.add(n_copies(0, (k - 1) as nat)), 0);
    }
}

/// The conservation law of the rolling tracker: as long as no window
/// grew past the histogram's exact range, one observed event raises the
/// sum of all recorded window counts plus the running count by exactly
/// one — so after any run, that total equals the number of events
/// observed since the start.
pub proof fn lemma_throughput_conserves_events<T: Instant>(
    pre: TxPerSec<T>,
    post: TxPerSec<T>,
    elapsed: u64,
)
    requires
        TxPerSec::<T>::record_rel(pre, post, elapsed),
        pre.pending() < 0x100,
        pre.pending() <= pre.histogram().bound(),
        pre.histogram().samples().len() + elapsed / T::one_sec_spec() + 2 < u64::MAX,
    ensures
        msum(post.histogram().samples()) + post.pending() == msum(pre.histogram().samples())
            + pre.pending() + 1,
{
    let w = elapsed / T::one_sec_spec();
    if w > pre.window() {
        let k = (w - pre.window() - 1) as nat;
        let b = pre.histogram().bound();
        let p = pre.pending();
        assert(saturated(b, p) == p);
        assert(pre.histogram().equiv(p) == p);
        let flushed = pre.histogram().samples().insert(p);
        assert(post.histogram().samples() =~= flushed.add(n_copies(0, k)));
        lemma_msum_insert(pre.histogram().samples(), p);
        lemma_msum_zero_copies(flushed, k);
    }
}

/// The in-flight guard law, over the metric's own contract: whatever the
/// exit path — a result observed, or the guard's fallback after an
/// abnormal exit — the gauge is back at its pre-entry value once the
/// entered scope has been left.
pub proof fn lemma_in_flight_balanced<G: Gauge, R>(pre: InFlight<G>, mid: InFlight<G>, post: InFlight<G>)
    requires
        <InFlight<G> as Metric<R>>::enter_ens(pre, mid, ()),
        <InFlight<G> as Metric<R>>::leave_ens(mid, post, ()),
    ensures
        post.0.value_spec() == pre.0.value_spec(),
{
    lemma_gauge_enter_leave_balanced(pre.0, mid.0, post.0);
}

/// The window-closure law of the rolling tracker: after exactly `r_count`
/// events inside one window, letting `k` whole windows pass with no
/// events and then observing one more event flushes one sample holding
/// `r_count` (rounded and saturated as the histogram tracks it) and `k`
/// zero-count samples, and starts the new window at one event.
pub proof fn lemma_idle_windows_recorded_as_zeros<T: Instant>(
    pre: TxPerSec<T>,
    post: TxPerSec<T>,
    elapsed: u64,
    r_count: u64,
    k: u64,
)
    requires
        TxPerSec::<T>::record_rel(pre, post, elapsed),
        pre.pending() == r_count,
        elapsed / T::one_sec_spec() == pre.window() + k + 1,
        pre.histogram().samples().len() + k + 2 < u64::MAX,
    ensures
        post.window() == pre.window() + k + 1,
        post.pending() == 1,
        post.histogram().samples() == pre.histogram().samples().insert(
            pre.histogram().equiv(saturated(pre.histogram().bound(), r_count)),
        ).add(n_copies(0, k as nat)),
{
}

} // verus!
