use vstd::prelude::*;
use crate::difference::{
    diff_function, difference, effective_max, sq_diff, window_len, window_sum,
};
use crate::normalize::{cmndf, normalized, running_sum};
use crate::ratio::Ratio;
use crate::search::{compute_diff_min, descend, first_crossing, found_lag};

verus! {

/// The single failure of an estimate: no lag qualified as a pitch period.
#[derive(Clone, Copy, Debug, PartialEq, Eq, Structural)]
pub struct UnknownPitch;

/// `sample_rate / period` Hz, or nothing for the "no lag" period 0.
pub open spec fn frequency_of(period: usize, sample_rate: usize) -> Option<Ratio> {
    if period == 0 {
        None
    } else {
        Some(Ratio { num: sample_rate as u128, den: period as u128 })
    }
}

/// The frequency that the whole pipeline gives for a buffer.
pub open spec fn sample_frequency(
    s: Seq<i16>,
    tau_min: usize,
    tau_max: usize,
    sample_rate: usize,
    threshold: Ratio,
) -> Option<Ratio> {
    match found_lag(normalized(difference(s, tau_max as nat)), tau_min as int, tau_max as int, threshold) {
        Some(t) => frequency_of(t, sample_rate),
        None => None,
    }
}

/// Maps a detected lag to `sample_rate / sample_period`; period 0 means
/// that no lag was found and gives no frequency. The difference function and
/// its length are not consulted.
pub fn convert_to_frequency(
    diff_fn: &[u64],
    max_tau: usize,
    sample_period: usize,
    sample_rate: usize,
) -> (r: Option<Ratio>)
    ensures
        r == frequency_of(sample_period, sample_rate),
        sample_period == 0 ==> r is None,
{
    if sample_period == 0 {
        None
    } else {
        Some(Ratio { num: sample_rate as u128, den: sample_period as u128 })
    }
}

/// Runs the difference function, its normalization, the lag search over
/// `[tau_min, tau_max)` and the conversion to Hz.
pub fn compute_sample_frequency(
    audio_sample: &[i16],
    tau_min: usize,
    tau_max: usize,
    sample_rate: usize,
    threshold: Ratio,
) -> (r: Option<Ratio>)
    requires
        audio_sample@.len() <= u32::MAX,
    ensures
        r == sample_frequency(audio_sample@, tau_min, tau_max, sample_rate, threshold),
{
    let diff_fn = diff_function(audio_sample, tau_max);
    let normalized_fn = cmndf(&diff_fn);
    let period = compute_diff_min(&normalized_fn, tau_min, tau_max, threshold);
    let sample_period: usize = match period {
        Some(t) => t,
        None => 0,
    };
    convert_to_frequency(&diff_fn, tau_max, sample_period, sample_rate)
}

/// A reusable estimator: threshold, lag bounds and sample rate.
#[derive(Clone, Copy, Debug)]
pub struct Yin32 {
    pub threshold: Ratio,
    pub tau_max: usize,
    pub tau_min: usize,
    pub sample_rate: usize,
}

impl Yin32 {
    /// Derives the lag bounds from the frequency range:
    /// `tau_max = sample_rate / freq_min`, `tau_min = sample_rate / freq_max`.
    pub fn init(threshold: Ratio, freq_min: usize, freq_max: usize, sample_rate: usize) -> (r: Yin32)
        requires
            freq_min > 0,
            freq_max > 0,
        ensures
            r.threshold == threshold,
            r.tau_max == sample_rate / freq_min,
            r.tau_min == sample_rate / freq_max,
            r.sample_rate == sample_rate,
            freq_min <= freq_max ==> r.tau_min <= r.tau_max,
    {
        let tau_max = sample_rate / freq_min;
        let tau_min = sample_rate / freq_max;
        proof {
            if freq_min <= freq_max {
                vstd::arithmetic::div_mod::lemma_div_is_ordered_by_denominator(
                    sample_rate as int,
                    freq_min as int,
                    freq_max as int,
                );
            }
        }
        Yin32 { threshold, tau_max, tau_min, sample_rate }
    }

    /// What `estimate_freq` gives for a buffer.
    pub open spec fn estimate(&self, s: Seq<i16>) -> Result<Ratio, UnknownPitch> {
        match sample_frequency(s, self.tau_min, self.tau_max, self.sample_rate, self.threshold) {
            Some(f) => Ok(f),
            None => Err(UnknownPitch),
        }
    }

    /// Estimates the pitch of a buffer, or fails with `UnknownPitch` when no
    /// lag qualifies.
    pub fn estimate_freq(&self, audio_sample: &[i16]) -> (r: Result<Ratio, UnknownPitch>)
        requires
            audio_sample@.len() <= u32::MAX,
        ensures
            r == self.estimate(audio_sample@),
    {
        match compute_sample_frequency(
            audio_sample,
            self.tau_min,
            self.tau_max,
            self.sample_rate,
            self.threshold,
        ) {
            Some(f) => Ok(f),
            None => Err(UnknownPitch),
        }
    }
}

proof fn lemma_silent_window_sum(s: Seq<i16>, tau: int, n: nat)
    requires
        0 <= tau,
        n + tau <= s.len(),
        forall|i: int| 0 <= i < s.len() ==> s[i] == 0,
    ensures
        window_sum(s, tau, n) == 0,
    decreases n,
{
    if n > 0 {
        lemma_silent_window_sum(s, tau, (n - 1) as nat);
        assert(s[n - 1] == 0 && s[n - 1 + tau] == 0);
        assert(sq_diff(s, n - 1, tau) == 0);
    }
}

proof fn lemma_zero_running_sum(d: Seq<u64>, t: int)
    requires
        t < d.len(),
        forall|i: int| 0 <= i < d.len() ==> d[i] == 0,
    ensures
        running_sum(d, t) == 0,
    decreases t,
{
    if t > 0 {
        lemma_zero_running_sum(d, t - 1);
    }
}

proof fn lemma_no_crossing_when_undefined(c: Seq<Ratio>, thr: Ratio, lo: int, hi: int)
    requires
        1 <= lo,
        hi <= c.len(),
        forall|t: int| 1 <= t < c.len() ==> c[t].den == 0,
    ensures
        first_crossing(c, thr, lo, hi) is None,
    decreases hi - lo,
{
    if lo < hi {
        lemma_no_crossing_when_undefined(c, thr, lo + 1, hi);
    }
}

/// A silent buffer (all samples 0) has no pitch, whatever the lag range,
/// sample rate and threshold: every running sum stays 0, so no normalized
/// value is defined, and the scan never finds a crossing past lag 0.
pub proof fn lemma_silence_has_no_pitch(
    s: Seq<i16>,
    tau_min: usize,
    tau_max: usize,
    sample_rate: usize,
    threshold: Ratio,
)
    requires
        forall|i: int| 0 <= i < s.len() ==> s[i] == 0,
    ensures
        sample_frequency(s, tau_min, tau_max, sample_rate, threshold) is None,
{
    let d = difference(s, tau_max as nat);
    let c = normalized(d);
    assert forall|i: int| 0 <= i < d.len() implies d[i] == 0 by {
        if 1 <= i < effective_max(s.len(), tau_max as nat) {
            lemma_silent_window_sum(s, i, window_len(s.len(), tau_max as nat));
        }
    }
    assert forall|t: int| 1 <= t < c.len() implies c[t].den == 0 by {
        lemma_zero_running_sum(d, t);
    }
    if tau_min >= tau_max {
        assert(first_crossing(c, threshold, tau_min as int, tau_max as int) is None);
    } else if tau_min == 0 {
        lemma_no_crossing_when_undefined(c, threshold, 1, tau_max as int);
        assert(descend(c, 0, tau_max as int) == 0);
    } else {
        lemma_no_crossing_when_undefined(c, threshold, tau_min as int, tau_max as int);
    }
}

/// Estimating is repeatable: equal configurations and equal buffers give
/// equal results, so no call changes what a later call returns.
pub proof fn lemma_estimate_repeatable(a: Yin32, b: Yin32, s: Seq<i16>, t: Seq<i16>)
    requires
        a.threshold == b.threshold,
        a.tau_min == b.tau_min,
        a.tau_max == b.tau_max,
        a.sample_rate == b.sample_rate,
        s == t,
    ensures
        a.estimate(s) == b.estimate(t),
{
}

} // verus!
