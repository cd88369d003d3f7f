use vstd::prelude::*;
use crate::ratio::Ratio;

verus! {

/// `d[1] + d[2] + ... + d[t]`; entry 0 never counts.
pub open spec fn running_sum(d: Seq<u64>, t: int) -> int
    decreases t,
{
    if t <= 0 {
        0
    } else {
        running_sum(d, t - 1) + d[t]
    }
}

/// The value that stands at index 0 of the normalized function: exactly 0.
pub open spec fn sentinel() -> Ratio {
    Ratio { num: 0, den: 1 }
}

/// The cumulative mean normalized difference function: entry `t >= 1` is
/// `d[t] * t / (d[1] + ... + d[t])`, undefined where that sum is 0.
pub open spec fn normalized(d: Seq<u64>) -> Seq<Ratio> {
    Seq::new(
        d.len(),
        |t: int|
            if t == 0 {
                sentinel()
            } else {
                Ratio { num: (d[t] * t) as u128, den: running_sum(d, t) as u128 }
            },
    )
}

proof fn lemma_running_sum_bounds(d: Seq<u64>, t: int)
    requires
        0 <= t < d.len(),
    ensures
        0 <= running_sum(d, t) <= t * u64::MAX,
    decreases t,
{
    if t > 0 {
        lemma_running_sum_bounds(d, t - 1);
    }
}

/// Normalizes a difference function by its running mean. The output has the
/// input's length; index 0 holds the sentinel 0, and an entry whose running
/// sum is 0 is undefined.
pub fn cmndf(raw_diff: &[u64]) -> (r: Vec<Ratio>)
    ensures
        r@ == normalized(raw_diff@),
        r@.len() == raw_diff@.len(),
        raw_diff@.len() > 0 ==> r@[0] == sentinel(),
{
    let ghost d = raw_diff@;
    let len = raw_diff.len();
    let mut out: Vec<Ratio> = Vec::new();
    if len == 0 {
        assert(out@ =~= normalized(d));
        return out;
    }
    out.push(Ratio { num: 0, den: 1 });
    let mut running: u128 = 0;
    for index in 1..len
        invariant
            d == raw_diff@,
            len == d.len(),
            out@.len() == index,
            running == running_sum(d, index - 1),
            forall|i: int| 0 <= i < index ==> out@[i] == normalized(d)[i],
    {
        proof {
            lemma_running_sum_bounds(d, index as int);
            assert(index < 0x1_0000_0000_0000_0000) by {
                assert(len <= usize::MAX);
            }
            assert(index * u64::MAX < 0x1_0000_0000_0000_0000_0000_0000_0000_0000) by (nonlinear_arith)
                requires index < 0x1_0000_0000_0000_0000;
            assert(d[index as int] * index <= u64::MAX * index) by (nonlinear_arith)
                requires d[index as int] <= u64::MAX, index >= 0;
        }
        let value = raw_diff[index];
        running = running + value as u128;
        let num = value as u128 * index as u128;
        out.push(Ratio { num, den: running });
    }
    assert(out@ =~= normalized(d));
    out
}

} // verus!
