use vstd::prelude::*;

verus! {

/// Division rounding toward negative infinity, as `int` division does in specs.
pub fn floor_div(n: i64, d: i64) -> (r: i64)
    requires
        d > 0,
        n > i64::MIN,
    ensures
        r == n / d,
{
    if n >= 0 {
        n / d
    } else {
        let m: i64 = -n;
        let q: i64 = m / d;
        let rem: i64 = m % d;
        proof {
            assert(m == q * d + rem) by (nonlinear_arith)
                requires q == m / d, rem == m % d, d > 0;
        }
        if rem == 0 {
            proof {
                assert(n == (-q) * d) by (nonlinear_arith) requires n == -m, m == q * d, d > 0;
                vstd::arithmetic::div_mod::lemma_fundamental_div_mod_converse(
                    n as int, d as int, (-q) as int, 0);
            }
            -q
        } else {
            proof {
                assert(n == (-q - 1) * d + (d - rem)) by (nonlinear_arith)
                    requires n == -m, m == q * d + rem, d > 0;
                vstd::arithmetic::div_mod::lemma_fundamental_div_mod_converse(
                    n as int, d as int, (-q - 1) as int, (d - rem) as int);
            }
            -q - 1
        }
    }
}

/// `v * num / den`, rounded toward zero, for a non-negative factor `num / den`.
pub open spec fn scale_toward_zero(v: int, num: int, den: int) -> int {
    if v >= 0 {
        v * num / den
    } else {
        -((-v) * num / den)
    }
}

pub fn scale(v: i64, num: i64, den: i64) -> (r: i64)
    requires
        den > 0,
        num >= 0,
        -1_000_000_000 <= v <= 1_000_000_000,
        num <= 1_000_000_000,
    ensures
        r == scale_toward_zero(v as int, num as int, den as int),
        den >= 1_000_000 ==> -1_000_000_000_000 <= r <= 1_000_000_000_000,
{
    if v >= 0 {
        proof {
            assert(v * num <= 1_000_000_000 * 1_000_000_000) by (nonlinear_arith)
                requires 0 <= v <= 1_000_000_000, 0 <= num <= 1_000_000_000;
            assert(v * num >= 0) by (nonlinear_arith) requires v >= 0, num >= 0;
            if den >= 1_000_000 {
                let (a, n, d) = (v as int, num as int, den as int);
                assert(a * n / d <= 1_000_000_000_000) by (nonlinear_arith)
                    requires 0 <= a <= 1_000_000_000, 0 <= n <= 1_000_000_000, d >= 1_000_000;
            }
        }
        v * num / den
    } else {
        let w: i64 = -v;
        proof {
            assert(w * num <= 1_000_000_000 * 1_000_000_000) by (nonlinear_arith)
                requires 0 <= w <= 1_000_000_000, 0 <= num <= 1_000_000_000;
            assert(w * num >= 0) by (nonlinear_arith) requires w >= 0, num >= 0;
            if den >= 1_000_000 {
                let (a, n, d) = (w as int, num as int, den as int);
                assert(a * n / d <= 1_000_000_000_000) by (nonlinear_arith)
                    requires 0 <= a <= 1_000_000_000, 0 <= n <= 1_000_000_000, d >= 1_000_000;
                assert(a * n / d >= 0) by (nonlinear_arith)
                    requires 0 <= a, 0 <= n, d > 0;
            }
        }
        -(w * num / den)
    }
}

/// The floor of the square root of `n`.
pub open spec fn sqrt_floor(n: int) -> int {
    choose|r: int| #[trigger] is_sqrt_floor(n, r)
}

pub open spec fn is_sqrt_floor(n: int, r: int) -> bool {
    r >= 0 && r * r <= n < (r + 1) * (r + 1)
}

pub proof fn lemma_sqrt_unique(n: int, r: int, s: int)
    requires
        r >= 0 && r * r <= n < (r + 1) * (r + 1),
        s >= 0 && s * s <= n < (s + 1) * (s + 1),
    ensures
        r == s,
{
    if r < s {
        assert((r + 1) * (r + 1) <= s * s) by (nonlinear_arith) requires 0 <= r < s;
    } else if s < r {
        assert((s + 1) * (s + 1) <= r * r) by (nonlinear_arith) requires 0 <= s < r;
    }
}

pub proof fn lemma_sqrt_zero()
    ensures
        sqrt_floor(0) == 0,
{
    assert(is_sqrt_floor(0, 0));
    lemma_sqrt_unique(0, 0, sqrt_floor(0));
}

/// Floor of the square root.
pub fn isqrt(n: u64) -> (r: u64)
    requires
        n <= 4_000_000_000_000_000_000,
    ensures
        r * r <= n < (r + 1) * (r + 1),
        r == sqrt_floor(n as int),
{
    let mut lo: u64 = 0;
    let mut hi: u64 = 2_000_000_001;
    proof {
        assert(n < 2_000_000_001 * 2_000_000_001) by (nonlinear_arith)
            requires n <= 4_000_000_000_000_000_000u64;
    }
    while lo + 1 < hi
        invariant
            lo < hi <= 2_000_000_001,
            lo * lo <= n,
            n < hi * hi,
        decreases hi - lo,
    {
        let mid: u64 = lo + (hi - lo) / 2;
        proof {
            assert(mid * mid <= 2_000_000_001 * 2_000_000_001) by (nonlinear_arith)
                requires mid <= 2_000_000_001;
        }
        if mid * mid <= n {
            lo = mid;
        } else {
            hi = mid;
        }
    }
    proof {
        let w = lo as int;
        assert(is_sqrt_floor(n as int, w));
        let c = sqrt_floor(n as int);
        lemma_sqrt_unique(n as int, w, c);
    }
    lo
}

} // verus!
