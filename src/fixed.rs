//! Integer fixed-point helpers: division that rounds toward zero and the
//! rounded-up integer square root used to renormalise vectors and rotations.
use vstd::prelude::*;

verus! {

/// One unit of a rotation component or of a unit vector component.
pub const UNIT: i64 = 65536;

/// Division of `x` by a positive `d`, rounding toward zero as Rust does.
pub open spec fn trunc_div(x: int, d: int) -> int {
    if x >= 0 {
        x / d
    } else {
        -((-x) / d)
    }
}

pub open spec fn abs(x: int) -> int {
    if x >= 0 {
        x
    } else {
        -x
    }
}

/// `n` is the square root of `m` rounded up.
pub open spec fn is_ceil_sqrt(n: int, m: int) -> bool {
    &&& 0 <= n
    &&& m <= n * n
    &&& (n == 0 || (n - 1) * (n - 1) < m)
}

/// The square root of a non-negative `m`, rounded up.
pub open spec fn ceil_sqrt(m: int) -> int {
    choose|n: int| is_ceil_sqrt(n, m)
}

pub proof fn lemma_square_monotone(a: int, b: int)
    requires
        0 <= a <= b,
    ensures
        a * a <= b * b,
{
    assert(a * a <= b * b) by (nonlinear_arith)
        requires
            0 <= a <= b,
    ;
}

/// Only one value is the rounded-up square root of `m`.
pub proof fn lemma_ceil_sqrt_unique(a: int, b: int, m: int)
    requires
        is_ceil_sqrt(a, m),
        is_ceil_sqrt(b, m),
    ensures
        a == b,
{
    if a < b {
        lemma_square_monotone(a, b - 1);
    } else if b < a {
        lemma_square_monotone(b, a - 1);
    }
}

/// A numerator bounded by `bound * d` gives a quotient bounded by `bound`.
pub proof fn lemma_trunc_div_le(x: int, d: int, bound: int)
    requires
        d > 0,
        abs(x) <= bound * d,
    ensures
        abs(trunc_div(x, d)) <= bound,
{
    let ax = abs(x);
    assert(ax / d <= bound) by (nonlinear_arith)
        requires
            0 <= ax <= bound * d,
            d > 0,
    ;
}

/// A product is bounded by the product of its factors' bounds.
pub proof fn lemma_mul_abs_le(a: int, b: int, ba: int, bb: int)
    requires
        abs(a) <= ba,
        abs(b) <= bb,
    ensures
        abs(a * b) <= ba * bb,
        -(ba * bb) <= a * b <= ba * bb,
{
    assert(abs(a * b) == abs(a) * abs(b)) by (nonlinear_arith);
    assert(abs(a) * abs(b) <= ba * bb) by (nonlinear_arith)
        requires
            0 <= abs(a) <= ba,
            0 <= abs(b) <= bb,
    ;
}

/// A value whose square is at most `n * n` lies within `n` of zero.
pub proof fn lemma_abs_le_of_square_le(e: int, n: int)
    requires
        n >= 0,
        e * e <= n * n,
    ensures
        abs(e) <= n,
{
    if abs(e) > n {
        lemma_square_monotone(n + 1, abs(e));
        assert(abs(e) * abs(e) == e * e) by (nonlinear_arith);
        assert((n + 1) * (n + 1) > n * n) by (nonlinear_arith)
            requires
                n >= 0,
        ;
    }
}

/// Division rounding toward zero.
pub fn div_toward_zero(x: i128, d: i128) -> (r: i128)
    requires
        d > 0,
        x > i128::MIN,
    ensures
        r == trunc_div(x as int, d as int),
{
    if x >= 0 {
        x / d
    } else {
        -((-x) / d)
    }
}

/// The square root of `m` rounded up, by bisection.
pub fn ceil_sqrt_exec(m: u128) -> (n: u128)
    requires
        m <= 0x4000_0000_0000_0000_0000_0000_0000_0000u128,
    ensures
        is_ceil_sqrt(n as int, m as int),
        n as int == ceil_sqrt(m as int),
        n <= 0x8000_0000_0000_0000u128,
{
    if m == 0 {
        proof {
            assert(is_ceil_sqrt(0, 0));
            lemma_ceil_sqrt_unique(0, ceil_sqrt(0), 0);
        }
        return 0;
    }
    let mut lo: u128 = 0;
    let mut hi: u128 = 0x8000_0000_0000_0000u128;
    assert(hi * hi == 0x4000_0000_0000_0000_0000_0000_0000_0000u128);
    while hi - lo > 1
        invariant
            lo < hi <= 0x8000_0000_0000_0000u128,
            lo * lo < m,
            m <= hi * hi,
            hi * hi <= 0x4000_0000_0000_0000_0000_0000_0000_0000u128,
        decreases hi - lo,
    {
        let mid: u128 = lo + (hi - lo) / 2;
        proof {
            lemma_square_monotone(mid as int, hi as int);
        }
        if mid * mid < m {
            lo = mid;
        } else {
            hi = mid;
        }
    }
    proof {
        assert(hi == lo + 1);
        assert(is_ceil_sqrt(hi as int, m as int));
        lemma_ceil_sqrt_unique(hi as int, ceil_sqrt(m as int), m as int);
    }
    hi
}

} // verus!
