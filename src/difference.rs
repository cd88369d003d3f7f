use vstd::prelude::*;

verus! {

/// The largest value of `(x - y)^2` for two 16-bit samples.
pub const MAX_SQUARE: u64 = 4294836225;

/// Squared difference between sample `j` and sample `j + tau`.
pub open spec fn sq_diff(s: Seq<i16>, j: int, tau: int) -> int {
    (s[j] - s[j + tau]) * (s[j] - s[j + tau])
}

/// `sum_{0 <= j < n} (s[j] - s[j + tau])^2`.
pub open spec fn window_sum(s: Seq<i16>, tau: int, n: nat) -> int
    decreases n,
{
    if n == 0 {
        0
    } else {
        window_sum(s, tau, (n - 1) as nat) + sq_diff(s, n - 1, tau)
    }
}

/// The lags actually compared: `min(len(s), tau_max)`.
pub open spec fn effective_max(len: nat, tau_max: nat) -> nat {
    if len < tau_max {
        len
    } else {
        tau_max
    }
}

/// Number of sample positions summed for every lag: the buffer shortened by
/// the largest compared lag, so that `j + tau` stays inside the buffer.
pub open spec fn window_len(len: nat, tau_max: nat) -> nat {
    (len - effective_max(len, tau_max)) as nat
}

/// The difference function: entry `tau` sums the squared differences over one
/// fixed window shared by all lags; entry 0, and every lag at or past the
/// buffer length, stays 0.
pub open spec fn difference(s: Seq<i16>, tau_max: nat) -> Seq<u64> {
    Seq::new(
        tau_max,
        |tau: int|
            if 1 <= tau < effective_max(s.len(), tau_max) {
                window_sum(s, tau, window_len(s.len(), tau_max)) as u64
            } else {
                0u64
            },
    )
}

proof fn lemma_sq_diff_bounds(x: i16, y: i16)
    ensures
        0 <= (x - y) * (x - y) <= MAX_SQUARE,
{
    let d: int = x - y;
    assert(-65535 <= d <= 65535);
    assert(0 <= d * d <= 65535 * 65535) by (nonlinear_arith)
        requires -65535 <= d <= 65535;
}

proof fn lemma_window_sum_bounds(s: Seq<i16>, tau: int, n: nat)
    requires
        0 <= tau,
        n + tau <= s.len(),
    ensures
        0 <= window_sum(s, tau, n) <= n * MAX_SQUARE,
    decreases n,
{
    if n > 0 {
        lemma_window_sum_bounds(s, tau, (n - 1) as nat);
        lemma_sq_diff_bounds(s[n - 1], s[n - 1 + tau]);
        assert(n * MAX_SQUARE == (n - 1) * MAX_SQUARE + MAX_SQUARE) by (nonlinear_arith);
    }
}

/// Squared difference of two samples, exactly.
fn square_of_difference(x: i16, y: i16) -> (r: u64)
    ensures
        r == (x - y) * (x - y),
        r <= MAX_SQUARE,
{
    proof {
        lemma_sq_diff_bounds(x, y);
    }
    let d: i64 = x as i64 - y as i64;
    assert(-65535 <= d <= 65535);
    assert(0 <= d * d <= 65535 * 65535) by (nonlinear_arith)
        requires -65535 <= d <= 65535;
    (d * d) as u64
}

/// Computes the difference function for lags `0 .. tau_max`.
///
/// Every lag is summed over the same window of `len - min(len, tau_max)`
/// positions. Entry 0 is 0, and so is every entry when the buffer holds
/// fewer than two samples.
pub fn diff_function(audio_sample: &[i16], tau_max: usize) -> (r: Vec<u64>)
    requires
        audio_sample@.len() <= u32::MAX,
    ensures
        r@ == difference(audio_sample@, tau_max as nat),
        r@.len() == tau_max,
        tau_max > 0 ==> r@[0] == 0,
{
    let ghost s = audio_sample@;
    let len = audio_sample.len();
    let eff: usize = if len < tau_max {
        len
    } else {
        tau_max
    };
    let window: usize = len - eff;
    let mut out: Vec<u64> = Vec::new();
    for tau in 0..tau_max
        invariant
            s == audio_sample@,
            len == s.len(),
            len <= u32::MAX,
            eff == effective_max(len as nat, tau_max as nat),
            window == window_len(len as nat, tau_max as nat),
            out@.len() == tau,
            forall|i: int| 0 <= i < tau ==> out@[i] == difference(s, tau_max as nat)[i],
    {
        if 1 <= tau && tau < eff {
            let mut acc: u64 = 0;
            for j in 0..window
                invariant
                    s == audio_sample@,
                    len == s.len(),
                    len <= u32::MAX,
                    1 <= tau < eff,
                    window + eff == len,
                    acc == window_sum(s, tau as int, j as nat),
                    acc <= j * MAX_SQUARE,
            {
                let t = square_of_difference(audio_sample[j], audio_sample[j + tau]);
                assert(j * MAX_SQUARE + MAX_SQUARE <= u64::MAX) by (nonlinear_arith)
                    requires j < len, len <= u32::MAX;
                assert((j + 1) * MAX_SQUARE == j * MAX_SQUARE + MAX_SQUARE) by (nonlinear_arith);
                acc = acc + t;
            }
            out.push(acc);
        } else {
            out.push(0);
        }
    }
    assert(out@ =~= difference(s, tau_max as nat));
    out
}

} // verus!
