//! Integer facts the pool arithmetic rests on: the floor square root, and
//! how floor division behaves under products.

use vstd::prelude::*;

verus! {

/// `r` is the floor of the square root of `n`.
pub open spec fn is_floor_sqrt(n: int, r: int) -> bool {
    &&& 0 <= r
    &&& r * r <= n
    &&& n < (r + 1) * (r + 1)
}

/// The floor of the square root of `n`: the `r` for which
/// `is_floor_sqrt(n, r)` holds (there is one for every `n >= 0`, and only
/// one).
pub open spec fn floor_sqrt(n: int) -> int {
    choose|r: int| is_floor_sqrt(n, r)
}

/// The largest `r` with `r * r <= n`, for any `n` that fits in 128 bits.
pub fn isqrt(n: u128) -> (r: u64)
    ensures
        is_floor_sqrt(n as int, r as int),
        r == floor_sqrt(n as int),
{
    let mut lo: u128 = 0;
    let mut hi: u128 = 0x1_0000_0000_0000_0000;
    assert(n < hi * hi) by (nonlinear_arith)
        requires
            hi == 0x1_0000_0000_0000_0000u128,
            n <= u128::MAX,
    ;
    while hi - lo > 1
        invariant
            lo < hi <= 0x1_0000_0000_0000_0000u128,
            lo * lo <= n,
            n < hi * hi,
        decreases hi - lo,
    {
        let mid = lo + (hi - lo) / 2;
        assert(lo < mid < hi);
        assert(mid * mid <= u128::MAX) by (nonlinear_arith)
            requires
                mid < 0x1_0000_0000_0000_0000u128,
        ;
        if mid * mid <= n {
            lo = mid;
        } else {
            hi = mid;
        }
    }
    assert(hi == lo + 1);
    proof {
        assert(is_floor_sqrt(n as int, lo as int));
        lemma_floor_sqrt_unique(n as int, lo as int, floor_sqrt(n as int));
    }
    lo as u64
}

/// A floor square root is unique.
pub proof fn lemma_floor_sqrt_unique(n: int, r: int, s: int)
    requires
        is_floor_sqrt(n, r),
        is_floor_sqrt(n, s),
    ensures
        r == s,
{
    if r < s {
        assert((r + 1) * (r + 1) <= s * s) by (nonlinear_arith)
            requires
                0 <= r,
                r + 1 <= s,
        ;
    } else if s < r {
        assert((s + 1) * (s + 1) <= r * r) by (nonlinear_arith)
            requires
                0 <= s,
                s + 1 <= r,
        ;
    }
}

/// Every `n >= 0` has a floor square root.
proof fn lemma_floor_sqrt_witness(n: int) -> (r: int)
    requires
        0 <= n,
    ensures
        is_floor_sqrt(n, r),
    decreases n,
{
    if n == 0 {
        assert(is_floor_sqrt(0, 0));
        0
    } else {
        let s = lemma_floor_sqrt_witness(n - 1);
        if (s + 1) * (s + 1) <= n {
            assert(n < (s + 2) * (s + 2)) by (nonlinear_arith)
                requires
                    n - 1 < (s + 1) * (s + 1),
                    0 <= s,
            ;
            assert(is_floor_sqrt(n, s + 1));
            s + 1
        } else {
            assert(s * s <= n);
            assert(is_floor_sqrt(n, s));
            s
        }
    }
}

/// `floor_sqrt(n)` is the floor square root of `n`, and it fits in 64 bits
/// when `n` is a product of two 64-bit values.
pub proof fn lemma_floor_sqrt(n: int)
    requires
        0 <= n,
    ensures
        is_floor_sqrt(n, floor_sqrt(n)),
        n <= u64::MAX * u64::MAX ==> floor_sqrt(n) <= u64::MAX,
{
    let w = lemma_floor_sqrt_witness(n);
    let r = floor_sqrt(n);
    assert(is_floor_sqrt(n, r));
    if n <= u64::MAX * u64::MAX && r > u64::MAX {
        assert(r * r > u64::MAX * u64::MAX) by (nonlinear_arith)
            requires
                r > u64::MAX,
        ;
    }
}

/// Floor division by a positive divisor: `q * d <= n < (q + 1) * d`.
pub proof fn lemma_floor_div_bounds(n: int, d: int)
    requires
        0 <= n,
        0 < d,
    ensures
        (n / d) * d <= n,
        n < (n / d + 1) * d,
        0 <= n / d,
{
    vstd::arithmetic::div_mod::lemma_fundamental_div_mod(n, d);
    assert(n == d * (n / d) + n % d);
    assert((n / d) * d == d * (n / d)) by (nonlinear_arith);
    assert((n / d + 1) * d == d * (n / d) + d) by (nonlinear_arith);
    vstd::arithmetic::div_mod::lemma_div_pos_is_pos(n, d);
}

/// If `q * d <= n` then `q` is at most `n / d`.
pub proof fn lemma_le_floor_div(q: int, n: int, d: int)
    requires
        0 <= n,
        0 < d,
        q * d <= n,
    ensures
        q <= n / d,
{
    lemma_floor_div_bounds(n, d);
    if q > n / d {
        assert(q * d >= (n / d + 1) * d) by (nonlinear_arith)
            requires
                q >= n / d + 1,
                d > 0,
        ;
    }
}

/// If `n < q * d` then `n / d` is below `q`.
pub proof fn lemma_floor_div_lt(q: int, n: int, d: int)
    requires
        0 <= n,
        0 < d,
        n < q * d,
    ensures
        n / d < q,
{
    lemma_floor_div_bounds(n, d);
    if n / d >= q {
        assert((n / d) * d >= q * d) by (nonlinear_arith)
            requires
                n / d >= q,
                d > 0,
        ;
    }
}

/// Comparing quotients through cross products: if `n1 * d2 <= n2 * d1` then
/// `n1 / d1 <= n2 / d2`.
pub proof fn lemma_floor_div_cross(n1: int, d1: int, n2: int, d2: int)
    requires
        0 <= n1,
        0 <= n2,
        0 < d1,
        0 < d2,
        n1 * d2 <= n2 * d1,
    ensures
        n1 / d1 <= n2 / d2,
{
    let q = n1 / d1;
    lemma_floor_div_bounds(n1, d1);
    assert(q * d2 * d1 <= n2 * d1) by (nonlinear_arith)
        requires
            q * d1 <= n1,
            n1 * d2 <= n2 * d1,
            0 <= q,
            0 < d2,
    ;
    assert(q * d2 <= n2) by (nonlinear_arith)
        requires
            q * d2 * d1 <= n2 * d1,
            0 < d1,
    ;
    lemma_le_floor_div(q, n2, d2);
}

} // verus!
