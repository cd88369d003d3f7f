use vstd::prelude::*;

verus! {

/// A non-negative fraction `num / den`. A zero denominator stands for an
/// undefined value (what `0 / 0` gives in floating point): it compares as
/// neither smaller nor larger than anything.
#[derive(Clone, Copy, Debug, PartialEq, Eq, Structural)]
pub struct Ratio {
    pub num: u128,
    pub den: u128,
}

/// `a < b` as real numbers, and false when either side is undefined.
pub open spec fn ratio_lt(a: Ratio, b: Ratio) -> bool {
    a.den > 0 && b.den > 0 && a.num * b.den < b.num * a.den
}

proof fn lemma_quotients_decide(a: int, b: int, c: int, d: int, q1: int, r1: int, q2: int, r2: int)
    by (nonlinear_arith)
    requires
        b > 0,
        d > 0,
        a == q1 * b + r1,
        0 <= r1 < b,
        c == q2 * d + r2,
        0 <= r2 < d,
        q1 < q2,
    ensures
        a * d < c * b,
{
    assert(a < (q1 + 1) * b);
    assert(q1 + 1 <= q2);
    assert(a * d < (q1 + 1) * b * d);
    assert((q1 + 1) * b * d <= q2 * b * d);
    assert(q2 * d <= c);
    assert(q2 * d * b <= c * b);
}

proof fn lemma_equal_quotients(a: int, b: int, c: int, d: int, q: int, r1: int, r2: int)
    by (nonlinear_arith)
    requires
        a == q * b + r1,
        c == q * d + r2,
    ensures
        (a * d < c * b) == (r1 * d < r2 * b),
{
    assert(a * d == q * b * d + r1 * d);
    assert(c * b == q * d * b + r2 * b);
}

/// Decides `a / b < c / d` for positive denominators without forming the
/// products, so that no intermediate value can overflow.
pub fn less_frac(a: u128, b: u128, c: u128, d: u128) -> (r: bool)
    requires
        b > 0,
        d > 0,
    ensures
        r == (a * d < c * b),
    decreases b + d,
{
    let q1 = a / b;
    let q2 = c / d;
    let r1 = a % b;
    let r2 = c % d;
    proof {
        vstd::arithmetic::div_mod::lemma_fundamental_div_mod(a as int, b as int);
        vstd::arithmetic::div_mod::lemma_fundamental_div_mod(c as int, d as int);
    }
    if q1 < q2 {
        proof {
            lemma_quotients_decide(a as int, b as int, c as int, d as int, q1 as int, r1 as int, q2 as int, r2 as int);
        }
        true
    } else if q2 < q1 {
        proof {
            lemma_quotients_decide(c as int, d as int, a as int, b as int, q2 as int, r2 as int, q1 as int, r1 as int);
        }
        false
    } else {
        proof {
            lemma_equal_quotients(a as int, b as int, c as int, d as int, q1 as int, r1 as int, r2 as int);
            assert(r1 * d >= 0 && r2 * b >= 0) by (nonlinear_arith)
                requires r1 >= 0, r2 >= 0, b > 0, d > 0;
        }
        if r1 == 0 {
            proof {
                assert(r2 > 0 ==> r2 * b > 0) by (nonlinear_arith) requires b > 0;
            }
            r2 > 0
        } else if r2 == 0 {
            false
        } else {
            proof {
                assert(r1 * d == d * r1 && r2 * b == b * r2) by (nonlinear_arith);
            }
            less_frac(d, r2, b, r1)
        }
    }
}

impl Ratio {
    /// `self < other`, false when either side is undefined.
    pub fn lt(&self, other: &Ratio) -> (r: bool)
        ensures
            r == ratio_lt(*self, *other),
    {
        if self.den == 0 || other.den == 0 {
            false
        } else {
            less_frac(self.num, self.den, other.num, other.den)
        }
    }
}

} // verus!
