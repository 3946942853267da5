//! A bounded, saturating histogram, backed by the `hdrhistogram` crate.
//!
//! The histogram's contents are modelled as a multiset of sample values.
//! The backing store keeps values with a fixed relative precision (two
//! significant digits), so a recorded value is tracked as the lowest value
//! of its bucket: `hist_equiv` names that rounding.  Values at most 255
//! fall in width-one buckets and are tracked exactly.

use vstd::prelude::*;
use vstd::multiset::Multiset;
use crate::clear::Clear;
use crate::metric::Histogram;

verus! {

/// A bounded, saturating sample store with quantile-capable statistics.
///
/// Built with an explicit upper bound: recordings above the bound saturate
/// to the bound, which makes recording a total function over all `u64`
/// inputs.  For instance, a bound of `60 * 60 * 1000` allows recording
/// durations from 1 millisecond to 1 hour.
///
/// The backing store is reachable through the `histo` field for the
/// statistics the model does not track (mean, standard deviation,
/// quantiles).
#[verifier::external_body]
pub struct HdrHistogram {
    /// The backing store.
    pub histo: hdrhistogram::Histogram<u64>,
}

/// The contents of a histogram: one entry per recorded sample, each entry
/// being the lowest value of the bucket the sample fell in.
pub uninterp spec fn hist_samples(h: HdrHistogram) -> Multiset<u64>;

/// The highest trackable value a histogram was configured with.
pub uninterp spec fn hist_bound(h: HdrHistogram) -> u64;

/// The lowest value of the bucket that `value` falls in, for a histogram
/// bounded at `bound` with this crate's fixed precision.
pub uninterp spec fn hist_equiv(bound: u64, value: u64) -> u64;

/// A value clamped to the histogram's bound: recording saturates there.
pub open spec fn saturated(bound: u64, value: u64) -> u64 {
    if value > bound {
        bound
    } else {
        value
    }
}

/// The multiset holding `n` copies of `value`.
pub open spec fn n_copies(value: u64, n: nat) -> Multiset<u64>
    decreases n,
{
    if n == 0 {
        Multiset::empty()
    } else {
        n_copies(value, (n - 1) as nat).insert(value)
    }
}

/// The count and size of [`n_copies`]: `n` entries, all equal to `value`.
pub proof fn lemma_n_copies(value: u64, n: nat)
    ensures
        n_copies(value, n).len() == n,
        n_copies(value, n).count(value) == n,
        forall|x: u64| x != value ==> n_copies(value, n).count(x) == 0,
    decreases n,
{
    broadcast use vstd::multiset::group_multiset_axioms;

    if n > 0 {
        lemma_n_copies(value, (n - 1) as nat);
    }
}

/// The rounding facts that hold of every bucket's lowest value: it never
/// exceeds the value, is exact below 256, and keeps at least half of the
/// value.
pub open spec fn equiv_props(bound: u64, value: u64) -> bool {
    &&& hist_equiv(bound, value) <= value
    &&& value < 0x100 ==> hist_equiv(bound, value) == value
    &&& 2 * hist_equiv(bound, value) >= value
}

/// Relies on hdrhistogram's `Histogram::new_with_bounds`: with a lowest
/// discernible value of 1, two significant digits and a bound of at least
/// 2, construction always succeeds and yields an empty histogram with the
/// given highest trackable value.
#[verifier::external_body]
fn raw_new(bound: u64) -> (h: HdrHistogram)
    requires
        2 <= bound,
    ensures
        hist_bound(h) == bound,
        hist_samples(h) == Multiset::<u64>::empty(),
{
    HdrHistogram { histo: hdrhistogram::Histogram::new_with_bounds(1, bound, 2).unwrap() }
}

/// Relies on hdrhistogram's `Histogram::saturating_record`: a value within
/// the bound lands in the bucket whose lowest value `hist_equiv` names
/// (`(value >> k) << k` with `k` the bucket's scale, the identity below
/// 256), and the total count adds one, saturating at `u64::MAX`.
#[verifier::external_body]
fn raw_record(h: &mut HdrHistogram, value: u64)
    requires
        value <= hist_bound(*old(h)),
    ensures
        hist_bound(*final(h)) == hist_bound(*old(h)),
        hist_samples(*old(h)).len() < u64::MAX ==> hist_samples(*final(h))
            == hist_samples(*old(h)).insert(hist_equiv(hist_bound(*old(h)), value)),
        equiv_props(hist_bound(*old(h)), value),
{
    h.histo.saturating_record(value);
}

/// Relies on hdrhistogram's `Histogram::saturating_record_n`: like
/// `saturating_record`, with `count` copies added to the bucket in one
/// step.  A zero count is excluded: the backing store would still fold
/// the value into its min/max statistics without holding a sample of it.
#[verifier::external_body]
fn raw_record_n(h: &mut HdrHistogram, value: u64, count: u64)
    requires
        value <= hist_bound(*old(h)),
        count > 0,
    ensures
        hist_bound(*final(h)) == hist_bound(*old(h)),
        hist_samples(*old(h)).len() + count < u64::MAX ==> hist_samples(*final(h))
            == hist_samples(*old(h)).add(n_copies(hist_equiv(hist_bound(*old(h)), value), count as nat)),
        equiv_props(hist_bound(*old(h)), value),
{
    h.histo.saturating_record_n(value, count);
}

/// Relies on hdrhistogram's `Histogram::reset`: it empties the contents
/// and statistics while preserving the configuration.
#[verifier::external_body]
fn raw_reset(h: &mut HdrHistogram)
    ensures
        hist_bound(*final(h)) == hist_bound(*old(h)),
        hist_samples(*final(h)) == Multiset::<u64>::empty(),
{
    h.histo.reset();
}

/// Relies on hdrhistogram's `Histogram::len`: it returns the total number
/// of recorded samples, saturating at `u64::MAX`.
#[verifier::external_body]
fn raw_len(h: &HdrHistogram) -> (r: u64)
    ensures
        hist_samples(*h).len() < u64::MAX ==> r == hist_samples(*h).len(),
{
    h.histo.len()
}

/// Relies on hdrhistogram's `Histogram::min`: on a non-empty histogram it
/// returns the lowest tracked sample (zero when zeros were recorded, else
/// the lowest value of the smallest sample's bucket), and 0 when empty.
#[verifier::external_body]
fn raw_min(h: &HdrHistogram) -> (r: u64)
    ensures
        hist_samples(*h).len() == 0 ==> r == 0,
        hist_samples(*h).len() > 0 ==> hist_samples(*h).contains(r)
            && (forall|x: u64| hist_samples(*h).contains(x) ==> r <= x),
{
    h.histo.min()
}

/// Relies on hdrhistogram's `Histogram::max`: on a non-empty histogram it
/// returns the highest value of the largest sample's bucket (so its
/// bucket's lowest value is a tracked sample, and no tracked sample
/// exceeds it), and 0 when empty.
#[verifier::external_body]
fn raw_max(h: &HdrHistogram) -> (r: u64)
    ensures
        hist_samples(*h).len() == 0 ==> r == 0,
        hist_samples(*h).len() > 0 ==> hist_samples(*h).contains(hist_equiv(hist_bound(*h), r))
            && (forall|x: u64| hist_samples(*h).contains(x) ==> x <= r)
            && equiv_props(hist_bound(*h), r),
{
    h.histo.max()
}

/// Relies on hdrhistogram's `Histogram::high`: it returns the configured
/// highest trackable value.
#[verifier::external_body]
fn raw_bound(h: &HdrHistogram) -> (r: u64)
    ensures
        r == hist_bound(*h),
{
    h.histo.high()
}

/// Relies on hdrhistogram's derived `Histogram::clone`: the copy holds the
/// same configuration and contents.
#[verifier::external_body]
fn raw_clone(h: &HdrHistogram) -> (r: HdrHistogram)
    ensures
        hist_bound(r) == hist_bound(*h),
        hist_samples(r) == hist_samples(*h),
{
    HdrHistogram { histo: h.histo.clone() }
}

impl HdrHistogram {
    /// The contents: one entry per recorded sample, rounded to its
    /// bucket's lowest value and saturated at the bound.
    pub open spec fn samples(&self) -> Multiset<u64> {
        hist_samples(*self)
    }

    /// The configured highest trackable value.
    pub open spec fn bound(&self) -> u64 {
        hist_bound(*self)
    }

    /// The rounding a recorded value undergoes in this histogram.
    pub open spec fn equiv(&self, value: u64) -> u64 {
        hist_equiv(self.bound(), value)
    }

    /// The rounding facts of [`HdrHistogram::equiv`] at one value.
    pub open spec fn equiv_props_at(&self, value: u64) -> bool {
        equiv_props(self.bound(), value)
    }

    /// What recording one value does to the model: the bound stays, and
    /// the saturated, rounded value joins the contents.
    pub open spec fn record_rel(pre: Self, post: Self, value: u64) -> bool {
        &&& post.bound() == pre.bound()
        &&& pre.samples().len() < u64::MAX ==> post.samples()
            == pre.samples().insert(pre.equiv(saturated(pre.bound(), value)))
        &&& pre.equiv_props_at(saturated(pre.bound(), value))
    }

    /// Instantiates a new histogram with a highest trackable value.
    ///
    /// A bound below 2 cannot be tracked at the fixed precision and is
    /// rejected at construction time.
    pub fn with_bound(max_bound: u64) -> (s: Self)
        requires
            2 <= max_bound,
        ensures
            s.bound() == max_bound,
            s.samples() == Multiset::<u64>::empty(),
    {
        raw_new(max_bound)
    }

    /// Records a value to the histogram.
    ///
    /// This is a saturating record: if the value is higher than the bound,
    /// the bound is recorded instead.
    pub fn record(&mut self, value: u64)
        ensures
            Self::record_rel(*old(self), *final(self), value),
    {
        let bound: u64 = self.bound_value();
        let v: u64 = if value > bound {
            bound
        } else {
            value
        };
        raw_record(self, v);
    }

    /// Records multiple samples for a value to the histogram, saturating
    /// at the bound like [`HdrHistogram::record`].
    pub fn record_n(&mut self, value: u64, count: u64)
        ensures
            final(self).bound() == old(self).bound(),
            old(self).samples().len() + count < u64::MAX ==> final(self).samples()
                == old(self).samples().add(
                n_copies(old(self).equiv(saturated(old(self).bound(), value)), count as nat)),
            count > 0 ==> old(self).equiv_props_at(saturated(old(self).bound(), value)),
    {
        if count == 0 {
            proof {
                assert(old(self).samples().add(n_copies(old(self).equiv(saturated(old(self).bound(), value)), 0)) =~= old(self).samples());
            }
            return;
        }
        let bound: u64 = self.bound_value();
        let v: u64 = if value > bound {
            bound
        } else {
            value
        };
        raw_record_n(self, v, count);
    }

    /// Get the number of recorded values in the histogram.
    pub fn len(&self) -> (r: u64)
        ensures
            self.samples().len() < u64::MAX ==> r == self.samples().len(),
    {
        raw_len(self)
    }

    /// Get the lowest recorded value level in the histogram.
    /// If the histogram has no recorded values, the value returned will
    /// be 0.
    pub fn min(&self) -> (r: u64)
        ensures
            self.samples().len() == 0 ==> r == 0,
            self.samples().len() > 0 ==> self.samples().contains(r)
                && (forall|x: u64| self.samples().contains(x) ==> r <= x),
    {
        raw_min(self)
    }

    /// Get the highest recorded value level in the histogram: the top of
    /// the largest sample's bucket, or 0 if the histogram is empty.
    pub fn max(&self) -> (r: u64)
        ensures
            self.samples().len() == 0 ==> r == 0,
            self.samples().len() > 0 ==> self.samples().contains(self.equiv(r))
                && (forall|x: u64| self.samples().contains(x) ==> x <= r)
                && self.equiv_props_at(r),
    {
        raw_max(self)
    }

    /// The configured highest trackable value, as a runtime value.
    pub fn bound_value(&self) -> (r: u64)
        ensures
            r == self.bound(),
    {
        raw_bound(self)
    }

    /// Returns a cloned snapshot of the histogram.
    pub fn snapshot(&self) -> (r: Self)
        ensures
            r.bound() == self.bound(),
            r.samples() == self.samples(),
    {
        raw_clone(self)
    }
}

impl Clear for HdrHistogram {
    /// Clearing empties the contents and keeps the configuration.
    open spec fn clear_ens(pre: Self, post: Self) -> bool {
        &&& post.bound() == pre.bound()
        &&& post.samples() == Multiset::<u64>::empty()
    }

    /// Clears the values of the histogram.
    fn clear(&mut self) {
        raw_reset(self);
    }
}

impl Histogram for HdrHistogram {
    open spec fn new_ens(max_value: u64, post: Self) -> bool {
        &&& post.bound() == max_value
        &&& post.samples() == Multiset::<u64>::empty()
    }

    open spec fn record_ens(pre: Self, post: Self, value: u64) -> bool {
        Self::record_rel(pre, post, value)
    }

    fn with_bound(max_value: u64) -> (s: Self) {
        HdrHistogram::with_bound(max_value)
    }

    fn record(&mut self, value: u64) {
        HdrHistogram::record(self, value);
    }
}

/// Saturation idempotence: recording a value at or above the bound has,
/// in the model, exactly the effect of recording the bound itself, so
/// every statistic derived from the model agrees between the two.
pub proof fn lemma_saturation_idempotence(pre: HdrHistogram, post: HdrHistogram, value: u64)
    requires
        pre.bound() <= value,
    ensures
        HdrHistogram::record_rel(pre, post, value) == HdrHistogram::record_rel(pre, post, pre.bound()),
{
    assert(saturated(pre.bound(), value) == saturated(pre.bound(), pre.bound()));
}

/// After a clear, the histogram's model is exactly that of a freshly
/// constructed histogram with the same bound: the sample count is 0 and
/// every query behaves as on a new histogram.
pub proof fn lemma_clear_like_fresh(pre: HdrHistogram, post: HdrHistogram)
    requires
        <HdrHistogram as Clear>::clear_ens(pre, post),
    ensures
        <HdrHistogram as Histogram>::new_ens(pre.bound(), post),
{
}

} // verus!
