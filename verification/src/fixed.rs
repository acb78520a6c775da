//! Fixed-point scalars.
//!
//! Every quantity of the simulation (coordinates, speeds, weights, time steps)
//! is an integer count of millionths: the real number `r` is stored as
//! `r * SCALE`. Products and quotients round toward zero, so that negating an
//! operand negates the result and the flock rules stay mirror-symmetric.

use vstd::prelude::*;

verus! {

/// Number of stored units per real unit: `1.0` is stored as `SCALE`.
pub const SCALE: i64 = 1_000_000;

/// Absolute value of an integer.
pub open spec fn magnitude(a: int) -> int {
    if a >= 0 {
        a
    } else {
        -a
    }
}

/// Quotient of `a` by a positive `b`, rounded toward zero.
pub open spec fn trunc_div(a: int, b: int) -> int
    recommends
        b > 0,
{
    if a >= 0 {
        a / b
    } else {
        -((-a) / b)
    }
}

/// Fixed-point product: the stored form of `(a / SCALE) * (w / SCALE)`.
pub open spec fn scaled_product(a: int, w: int) -> int {
    trunc_div(a * w, SCALE as int)
}

/// `r` is the integer square root of `n`: the largest natural number whose
/// square does not exceed `n`.
pub open spec fn is_integer_sqrt(n: int, r: int) -> bool {
    0 <= r && r * r <= n && n < (r + 1) * (r + 1)
}

/// The integer square root of `n` (meaningful for `n >= 0`).
pub open spec fn integer_sqrt(n: int) -> int {
    choose|r: int| is_integer_sqrt(n, r)
}

/// A quotient rounded toward zero is no larger in magnitude than `m` when the
/// dividend is no larger in magnitude than `m * b`.
pub proof fn lemma_trunc_div_bound(a: int, b: int, m: int)
    requires
        b > 0,
        m >= 0,
        magnitude(a) <= m * b,
    ensures
        magnitude(trunc_div(a, b)) <= m,
        trunc_div(-a, b) == -trunc_div(a, b),
{
    let x = magnitude(a);
    assert(0 <= x / b <= m) by (nonlinear_arith)
        requires
            0 <= x <= m * b,
            b > 0,
    ;
    assert(0int / b == 0) by (nonlinear_arith)
        requires
            b > 0,
    ;
}

/// A quotient rounded toward zero lies between `low` and `high` when the
/// dividend lies between `low * b` and `high * b`.
pub proof fn lemma_trunc_div_between(a: int, b: int, low: int, high: int)
    requires
        b > 0,
        low <= 0 <= high,
        low * b <= a <= high * b,
    ensures
        low <= trunc_div(a, b) <= high,
{
    if a >= 0 {
        assert(0 <= a / b <= high) by (nonlinear_arith)
            requires
                0 <= a <= high * b,
                b > 0,
        ;
    } else {
        let x = -a;
        assert((-low) * b == -(low * b)) by (nonlinear_arith);
        assert(0 <= x / b <= -low) by (nonlinear_arith)
            requires
                0 <= x <= (-low) * b,
                b > 0,
        ;
    }
}

/// The magnitude of a product is bounded by the product of the bounds.
pub proof fn lemma_product_bound(a: int, w: int, a_max: int, w_max: int)
    requires
        magnitude(a) <= a_max,
        magnitude(w) <= w_max,
    ensures
        magnitude(a * w) <= a_max * w_max,
{
    assert(magnitude(a * w) <= a_max * w_max) by (nonlinear_arith)
        requires
            -a_max <= a <= a_max,
            -w_max <= w <= w_max,
            magnitude(a * w) == a * w || magnitude(a * w) == -(a * w),
    ;
}

/// Squares grow with the magnitude.
pub proof fn lemma_square_monotonic(a: int, b: int)
    requires
        0 <= a <= b,
    ensures
        a * a <= b * b,
{
    assert(a * a <= b * b) by (nonlinear_arith)
        requires
            0 <= a <= b,
    ;
}

/// At most one number is the integer square root of `n`.
pub proof fn lemma_integer_sqrt_unique(n: int, r: int)
    requires
        is_integer_sqrt(n, r),
    ensures
        integer_sqrt(n) == r,
{
    let s = integer_sqrt(n);
    assert(is_integer_sqrt(n, s));
    if s < r {
        lemma_square_monotonic(s + 1, r);
    } else if r < s {
        lemma_square_monotonic(r + 1, s);
    }
}

/// Every natural number has an integer square root.
pub proof fn lemma_integer_sqrt_exists(n: int)
    requires
        n >= 0,
    ensures
        is_integer_sqrt(n, integer_sqrt(n)),
    decreases n,
{
    if n == 0 {
        assert(is_integer_sqrt(0, 0));
    } else {
        lemma_integer_sqrt_exists(n - 1);
        let r = integer_sqrt(n - 1);
        if n < (r + 1) * (r + 1) {
            assert(is_integer_sqrt(n, r));
        } else {
            assert((r + 2) * (r + 2) == (r + 1) * (r + 1) + 2 * r + 3) by (nonlinear_arith);
            assert(is_integer_sqrt(n, r + 1));
        }
    }
}

/// The integer square root of a sum of two squares is at least the magnitude
/// of either term, and is zero only when both terms are.
pub proof fn lemma_integer_sqrt_dominates(x: int, y: int)
    ensures
        magnitude(x) <= integer_sqrt(x * x + y * y),
        magnitude(y) <= integer_sqrt(x * x + y * y),
        integer_sqrt(x * x + y * y) == 0 <==> (x == 0 && y == 0),
{
    let n = x * x + y * y;
    assert(x * x >= 0 && y * y >= 0) by (nonlinear_arith);
    assert(magnitude(x) * magnitude(x) == x * x) by (nonlinear_arith)
        requires
            magnitude(x) == x || magnitude(x) == -x,
    ;
    assert(magnitude(y) * magnitude(y) == y * y) by (nonlinear_arith)
        requires
            magnitude(y) == y || magnitude(y) == -y,
    ;
    lemma_integer_sqrt_exists(n);
    let r = integer_sqrt(n);
    if r < magnitude(x) {
        lemma_square_monotonic(r + 1, magnitude(x));
    }
    if r < magnitude(y) {
        lemma_square_monotonic(r + 1, magnitude(y));
    }
    if x == 0 && y == 0 {
        assert(n == 0);
        lemma_integer_sqrt_unique(0, 0);
    }
}

/// Fixed-point product of two stored values.
pub fn mul_scaled(a: i64, w: i64) -> (p: i64)
    requires
        i64::MIN <= scaled_product(a as int, w as int) <= i64::MAX,
    ensures
        p == scaled_product(a as int, w as int),
{
    let q: i128 = widening_product(a, w) / (SCALE as i128);
    q as i64
}

/// The exact product of two 64-bit values.
pub fn widening_product(a: i64, b: i64) -> (p: i128)
    ensures
        p == a * b,
{
    let x: i128 = a as i128;
    let y: i128 = b as i128;
    assert(-0x4000_0000_0000_0000_0000_0000_0000_0000 <= x * y
        <= 0x4000_0000_0000_0000_0000_0000_0000_0000) by (nonlinear_arith)
        requires
            -0x8000_0000_0000_0000 <= x <= 0x8000_0000_0000_0000,
            -0x8000_0000_0000_0000 <= y <= 0x8000_0000_0000_0000,
    ;
    x * y
}

/// Integer square root by bisection.
pub fn isqrt(n: u128) -> (r: u64)
    ensures
        is_integer_sqrt(n as int, r as int),
        r == integer_sqrt(n as int),
{
    let mut low: u128 = 0;
    let mut high: u128 = 0x1_0000_0000_0000_0000;
    assert(n < high * high) by {
        assert(0x1_0000_0000_0000_0000int * 0x1_0000_0000_0000_0000int
            == 0x1_0000_0000_0000_0000_0000_0000_0000_0000int) by (nonlinear_arith);
    }
    while high - low > 1
        invariant
            low < high <= 0x1_0000_0000_0000_0000,
            low * low <= n,
            n < high * high,
        decreases high - low,
    {
        let mid: u128 = low + (high - low) / 2;
        proof {
            lemma_square_monotonic(mid as int, 0xffff_ffff_ffff_ffff);
            assert(0xffff_ffff_ffff_ffffint * 0xffff_ffff_ffff_ffffint
                == 0xffff_ffff_ffff_fffe_0000_0000_0000_0001int) by (nonlinear_arith);
        }
        if mid * mid <= n {
            low = mid;
        } else {
            high = mid;
        }
    }
    proof {
        lemma_integer_sqrt_unique(n as int, low as int);
    }
    low as u64
}

} // verus!
