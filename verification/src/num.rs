//! Small arithmetic helpers shared by the planners.

use vstd::arithmetic::mul::{lemma_mul_inequality, lemma_mul_nonnegative};
use vstd::prelude::*;

verus! {

/// `a / b` rounded up.
pub open spec fn ceil_div(a: int, b: int) -> int {
    (a + b - 1) / b
}

/// The larger of two integers.
pub open spec fn imax(a: int, b: int) -> int {
    if a >= b { a } else { b }
}

/// The smaller of two integers.
pub open spec fn imin(a: int, b: int) -> int {
    if a <= b { a } else { b }
}

pub proof fn lemma_ceil_div(a: int, b: int)
    requires
        a >= 0,
        b > 0,
    ensures
        ceil_div(a, b) * b >= a,
        ceil_div(a, b) * b < a + b,
        ceil_div(a, b) >= 0,
        ceil_div(a, b) <= a,
        a > 0 ==> ceil_div(a, b) > 0,
        a % b == 0 ==> ceil_div(a, b) == a / b,
        a % b != 0 ==> ceil_div(a, b) == a / b + 1,
{
    let q = a / b;
    let r = a % b;
    vstd::arithmetic::div_mod::lemma_fundamental_div_mod(a, b);
    assert(0 <= r < b);
    let c = (a + b - 1) / b;
    vstd::arithmetic::div_mod::lemma_fundamental_div_mod(a + b - 1, b);
    let s = (a + b - 1) % b;
    assert(0 <= s < b);
    assert(q >= 0) by (nonlinear_arith)
        requires
            a == b * q + r,
            r < b,
            a >= 0,
            b > 0,
    ;
    if r == 0 {
        assert(c == q) by (nonlinear_arith)
            requires
                b * q + b - 1 == b * c + s,
                0 <= s < b,
                b > 0,
        ;
    } else {
        assert(c == q + 1) by (nonlinear_arith)
            requires
                b * q + r + b - 1 == b * c + s,
                0 <= s < b,
                0 < r < b,
                b > 0,
        ;
    }
    assert(c * b == a + b - 1 - s) by (nonlinear_arith)
        requires
            a + b - 1 == b * c + s,
    ;
    assert(c <= a) by (nonlinear_arith)
        requires
            c * b < a + b,
            a >= 0,
            b > 0,
            a == 0 ==> c == 0,
    ;
    assert(a > 0 ==> c > 0) by (nonlinear_arith)
        requires
            c * b >= a,
            b > 0,
    ;
}

/// `a / b` rounded up, for 32-bit extents.
pub fn div_ceil(a: u32, b: u32) -> (r: u32)
    requires
        b > 0,
    ensures
        r == ceil_div(a as int, b as int),
{
    proof {
        lemma_ceil_div(a as int, b as int);
    }
    if a % b == 0 {
        a / b
    } else {
        a / b + 1
    }
}

/// `a / b` rounded up, for sizes.
pub fn div_ceil_usize(a: usize, b: usize) -> (r: usize)
    requires
        b > 0,
    ensures
        r == ceil_div(a as int, b as int),
{
    proof {
        lemma_ceil_div(a as int, b as int);
    }
    if a % b == 0 {
        a / b
    } else {
        a / b + 1
    }
}

pub proof fn lemma_span_mono(a: int, b: int, w: int, e: int)
    requires
        0 <= a <= b,
        0 <= w,
        0 <= e,
    ensures
        0 <= a * w <= b * w,
        0 <= a * w * e <= b * w * e,
{
    lemma_mul_nonnegative(a, w);
    lemma_mul_inequality(a, b, w);
    lemma_mul_nonnegative(a * w, e);
    lemma_mul_inequality(a * w, b * w, e);
}

/// The byte count `count * width * elem`.
pub fn span(count: usize, width: usize, elem: usize) -> (r: usize)
    requires
        elem > 0 || count * width <= usize::MAX,
        count * width * elem <= usize::MAX,
    ensures
        r == count * width * elem,
{
    proof {
        lemma_mul_nonnegative(count as int, width as int);
        if elem > 0 {
            assert(count * width <= count * width * elem) by (nonlinear_arith)
                requires
                    count * width >= 0,
                    elem > 0,
            ;
        }
    }
    count * width * elem
}

/// The byte count `count * rows * width * elem`.
pub fn span4(count: usize, rows: usize, width: usize, elem: usize) -> (r: usize)
    requires
        elem > 0,
        count * rows <= usize::MAX,
        count * rows * width * elem <= usize::MAX,
    ensures
        r == count * rows * width * elem,
{
    proof {
        lemma_mul_nonnegative(count as int, rows as int);
        lemma_mul_nonnegative(count * rows, width as int);
        assert(count * rows * width <= count * rows * width * elem) by (nonlinear_arith)
            requires
                count * rows * width >= 0,
                elem > 0,
        ;
    }
    count * rows * width * elem
}

pub proof fn lemma_span4_mono(a: int, b: int, x: int, y: int, e: int)
    requires
        0 <= a <= b,
        0 <= x,
        0 <= y,
        0 <= e,
    ensures
        0 <= a * x <= b * x,
        0 <= a * x * y <= b * x * y,
        0 <= a * x * y * e <= b * x * y * e,
{
    lemma_span_mono(a, b, x, y);
    lemma_mul_nonnegative(a * x * y, e);
    lemma_mul_inequality(a * x * y, b * x * y, e);
}

} // verus!
