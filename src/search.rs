use vstd::prelude::*;
use crate::ratio::{Ratio, ratio_lt};

verus! {

/// The first lag in `[lo, hi)` whose value is below `thr`.
pub open spec fn first_crossing(c: Seq<Ratio>, thr: Ratio, lo: int, hi: int) -> Option<int>
    decreases hi - lo,
{
    if lo >= hi {
        None
    } else if ratio_lt(c[lo], thr) {
        Some(lo)
    } else {
        first_crossing(c, thr, lo + 1, hi)
    }
}

/// Starting at `t`, steps forward while the next lag is below `hi` and its
/// value is strictly smaller: the nearest local minimum after `t`.
pub open spec fn descend(c: Seq<Ratio>, t: int, hi: int) -> int
    decreases hi - t,
{
    if t + 1 < hi && ratio_lt(c[t + 1], c[t]) {
        descend(c, t + 1, hi)
    } else {
        t
    }
}

/// The lag picked in `[lo, hi)`: the local minimum reached from the first
/// crossing of `thr`, or 0 when nothing crosses.
pub open spec fn search_lag(c: Seq<Ratio>, lo: int, hi: int, thr: Ratio) -> int {
    match first_crossing(c, thr, lo, hi) {
        Some(t) => descend(c, t, hi),
        None => 0,
    }
}

/// The search's outcome with "no candidate" made explicit: lag 0 is never a
/// pitch period.
pub open spec fn found_lag(c: Seq<Ratio>, lo: int, hi: int, thr: Ratio) -> Option<usize> {
    let t = search_lag(c, lo, hi, thr);
    if t == 0 {
        None
    } else {
        Some(t as usize)
    }
}

proof fn lemma_first_crossing_range(c: Seq<Ratio>, thr: Ratio, lo: int, hi: int)
    ensures
        first_crossing(c, thr, lo, hi) matches Some(t) ==> lo <= t < hi,
    decreases hi - lo,
{
    if lo < hi && !ratio_lt(c[lo], thr) {
        lemma_first_crossing_range(c, thr, lo + 1, hi);
    }
}

proof fn lemma_descend_range(c: Seq<Ratio>, t: int, hi: int)
    requires
        t < hi,
    ensures
        t <= descend(c, t, hi) < hi,
    decreases hi - t,
{
    if t + 1 < hi && ratio_lt(c[t + 1], c[t]) {
        lemma_descend_range(c, t + 1, hi);
    }
}

/// A picked lag is 0 or lies in `[lo, hi)`.
pub proof fn lemma_search_lag_range(c: Seq<Ratio>, lo: int, hi: int, thr: Ratio)
    ensures
        search_lag(c, lo, hi, thr) == 0 || lo <= search_lag(c, lo, hi, thr) < hi,
{
    lemma_first_crossing_range(c, thr, lo, hi);
    if let Some(t) = first_crossing(c, thr, lo, hi) {
        lemma_descend_range(c, t, hi);
    }
}

/// Scans `[min_tau, max_tau)` for the first lag whose value is below
/// `harm_threshold`, then descends to the nearest local minimum. Returns
/// `None` when no lag crosses, or when the scan stops at lag 0.
pub fn compute_diff_min(diff_fn: &[Ratio], min_tau: usize, max_tau: usize, harm_threshold: Ratio) -> (r:
    Option<usize>)
    requires
        max_tau <= diff_fn@.len(),
    ensures
        r == found_lag(diff_fn@, min_tau as int, max_tau as int, harm_threshold),
        r matches Some(t) ==> 1 <= t && min_tau <= t < max_tau,
{
    let ghost c = diff_fn@;
    proof {
        lemma_search_lag_range(c, min_tau as int, max_tau as int, harm_threshold);
    }
    let mut tau = min_tau;
    while tau < max_tau
        invariant
            c == diff_fn@,
            max_tau <= c.len(),
            min_tau <= tau,
            first_crossing(c, harm_threshold, min_tau as int, max_tau as int)
                == first_crossing(c, harm_threshold, tau as int, max_tau as int),
        decreases max_tau - tau,
    {
        if diff_fn[tau].lt(&harm_threshold) {
            let ghost start = tau;
            assert(first_crossing(c, harm_threshold, tau as int, max_tau as int) == Some(tau as int));
            loop
                invariant
                    c == diff_fn@,
                    max_tau <= c.len(),
                    start <= tau < max_tau,
                    descend(c, start as int, max_tau as int) == descend(c, tau as int, max_tau as int),
                ensures
                    start <= tau < max_tau,
                    descend(c, start as int, max_tau as int) == tau,
                decreases max_tau - tau,
            {
                if tau + 1 < max_tau && diff_fn[tau + 1].lt(&diff_fn[tau]) {
                    tau = tau + 1;
                } else {
                    break;
                }
            }
            if tau == 0 {
                return None;
            } else {
                return Some(tau);
            }
        }
        tau = tau + 1;
    }
    None
}

} // verus!
