//! Small arithmetic helpers and a type-name probe.

use vstd::prelude::*;

verus! {

use vstd::arithmetic::div_mod::lemma_div_basics;
use vstd::arithmetic::div_mod::lemma_div_is_ordered;
use vstd::arithmetic::div_mod::lemma_div_is_ordered_by_denominator;
use vstd::arithmetic::div_mod::lemma_div_nonincreasing;

/// The magnitude of a mathematical integer.
pub open spec fn abs_of(x: int) -> int {
    if x < 0 {
        -x
    } else {
        x
    }
}

/// Division rounding toward zero, the rounding that machine integer
/// division performs: the magnitudes are divided and the sign of the
/// quotient follows the signs of the operands.
pub open spec fn div_trunc(x: int, y: int) -> int {
    if (x < 0) == (y < 0) {
        abs_of(x) / abs_of(y)
    } else {
        -(abs_of(x) / abs_of(y))
    }
}

/// Sum of two machine integers; the caller guarantees the sum fits.
pub fn add(x: i32, y: i32) -> (r: i32)
    requires
        i32::MIN <= x + y <= i32::MAX,
    ensures
        r == x + y,
{
    x + y
}

/// Quotient of two machine integers, rounded toward zero. The divisor
/// must not be zero, and the one overflowing combination is excluded.
pub fn divide(x: i32, y: i32) -> (r: i32)
    requires
        y != 0,
        !(x == i32::MIN && y == -1),
    ensures
        r == div_trunc(x as int, y as int),
{
    let xa: i64 = if x < 0 { -(x as i64) } else { x as i64 };
    let ya: i64 = if y < 0 { -(y as i64) } else { y as i64 };
    let q: i64 = xa / ya;
    proof {
        lemma_div_nonincreasing(xa as int, ya as int);
        if ya >= 2 {
            lemma_div_is_ordered(xa as int, 0x8000_0000, ya as int);
            lemma_div_is_ordered_by_denominator(0x8000_0000, 2, ya as int);
        } else {
            lemma_div_basics(xa as int);
        }
    }
    if (x < 0) == (y < 0) {
        q as i32
    } else {
        (-q) as i32
    }
}

} // verus!
