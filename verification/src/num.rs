//! Arithmetic on pixel coordinates.
//!
//! Coordinates are `i32`. Sums and products are formed in `i64`, where they
//! cannot overflow, and a result that leaves the `i32` range stops at its end.

use vstd::prelude::*;

verus! {

/// The `i32` closest to `v`.
pub open spec fn sat(v: int) -> i32 {
    if v < i32::MIN {
        i32::MIN
    } else if v > i32::MAX {
        i32::MAX
    } else {
        v as i32
    }
}

/// The larger of two numbers.
pub open spec fn larger(a: int, b: int) -> int {
    if a >= b {
        a
    } else {
        b
    }
}

/// The smaller of two numbers.
pub open spec fn smaller(a: int, b: int) -> int {
    if a <= b {
        a
    } else {
        b
    }
}

/// `v` kept between `lo` and `hi`.
pub open spec fn within(v: int, lo: int, hi: int) -> int {
    if v < lo {
        lo
    } else if v > hi {
        hi
    } else {
        v
    }
}

/// `a / b` rounded toward zero, for a positive `b`.
pub open spec fn quot(a: int, b: int) -> int {
    if a >= 0 {
        a / b
    } else {
        -((-a) / b)
    }
}

/// The distance of `a` from zero.
pub open spec fn magnitude(a: int) -> int {
    if a >= 0 {
        a
    } else {
        -a
    }
}

/// Narrows to `i32`, stopping at the ends of its range.
pub fn to_i32(v: i64) -> (r: i32)
    ensures
        r == sat(v as int),
{
    if v < i32::MIN as i64 {
        i32::MIN
    } else if v > i32::MAX as i64 {
        i32::MAX
    } else {
        v as i32
    }
}

pub fn max_i32(a: i32, b: i32) -> (r: i32)
    ensures
        r == larger(a as int, b as int),
{
    if a >= b {
        a
    } else {
        b
    }
}

pub fn min_i32(a: i32, b: i32) -> (r: i32)
    ensures
        r == smaller(a as int, b as int),
{
    if a <= b {
        a
    } else {
        b
    }
}

pub fn max_i64(a: i64, b: i64) -> (r: i64)
    ensures
        r == larger(a as int, b as int),
{
    if a >= b {
        a
    } else {
        b
    }
}

pub fn min_i64(a: i64, b: i64) -> (r: i64)
    ensures
        r == smaller(a as int, b as int),
{
    if a <= b {
        a
    } else {
        b
    }
}

pub fn clamp_i64(v: i64, lo: i64, hi: i64) -> (r: i64)
    ensures
        r == within(v as int, lo as int, hi as int),
{
    if v < lo {
        lo
    } else if v > hi {
        hi
    } else {
        v
    }
}

pub fn abs_i64(v: i64) -> (r: i64)
    requires
        v > i64::MIN,
    ensures
        r == magnitude(v as int),
{
    if v >= 0 {
        v
    } else {
        -v
    }
}

} // verus!
