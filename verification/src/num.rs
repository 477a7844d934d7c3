//! Integer helpers with exact specifications.

use vstd::prelude::*;

verus! {

/// `a - b` clamped to `i64`'s range (`i64::saturating_sub`).
pub open spec fn sat_sub(a: int, b: int) -> int {
    let d = a - b;
    if d < i64::MIN { i64::MIN as int } else if d > i64::MAX { i64::MAX as int } else { d }
}

/// `a - b` clamped to `i64`'s range.
pub fn saturating_sub_i64(a: i64, b: i64) -> (r: i64)
    ensures
        r as int == sat_sub(a as int, b as int),
{
    let d: i128 = a as i128 - b as i128;
    if d < i64::MIN as i128 {
        i64::MIN
    } else if d > i64::MAX as i128 {
        i64::MAX
    } else {
        d as i64
    }
}

/// `a * b` clamped to `i64`'s range (`i64::saturating_mul`).
pub open spec fn sat_mul(a: int, b: int) -> int {
    let d = a * b;
    if d < i64::MIN { i64::MIN as int } else if d > i64::MAX { i64::MAX as int } else { d }
}

/// `a * b` clamped to `i64`'s range.
pub fn saturating_mul_i64(a: i64, b: i64) -> (r: i64)
    ensures
        r as int == sat_mul(a as int, b as int),
{
    proof {
        let ai = a as int;
        let bi = b as int;
        assert(-85070591730234615865843651857942052864 <= ai * bi <= 85070591730234615865843651857942052864) by (nonlinear_arith)
            requires
                -9223372036854775808 <= ai <= 9223372036854775807,
                -9223372036854775808 <= bi <= 9223372036854775807,
        ;
    }
    let d: i128 = a as i128 * b as i128;
    if d < i64::MIN as i128 {
        i64::MIN
    } else if d > i64::MAX as i128 {
        i64::MAX
    } else {
        d as i64
    }
}

/// The larger of two integers.
pub open spec fn max_i(a: int, b: int) -> int {
    if a >= b { a } else { b }
}

/// The smaller of two integers.
pub open spec fn min_i(a: int, b: int) -> int {
    if a <= b { a } else { b }
}

/// `a + b` clamped to `i64`'s range (`i64::saturating_add`).
pub open spec fn sat_add(a: int, b: int) -> int {
    let d = a + b;
    if d < i64::MIN { i64::MIN as int } else if d > i64::MAX { i64::MAX as int } else { d }
}

/// `a + b` clamped to `i64`'s range.
pub fn saturating_add_i64(a: i64, b: i64) -> (r: i64)
    ensures
        r as int == sat_add(a as int, b as int),
{
    let d: i128 = a as i128 + b as i128;
    if d < i64::MIN as i128 {
        i64::MIN
    } else if d > i64::MAX as i128 {
        i64::MAX
    } else {
        d as i64
    }
}

} // verus!
