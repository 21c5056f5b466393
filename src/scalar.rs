use vstd::prelude::*;

verus! {

/// Coordinates are 64-bit integers; every operation on them saturates at the
/// ends of the `i64` range, so layout arithmetic is total.
pub open spec fn sat(v: int) -> i64 {
    if v < i64::MIN {
        i64::MIN
    } else if v > i64::MAX {
        i64::MAX
    } else {
        v as i64
    }
}

pub open spec fn abs_i(a: int) -> int {
    if a < 0 { -a } else { a }
}

/// Division truncating towards zero, as Rust's `/` does; zero on a zero divisor.
pub open spec fn div_trunc(a: int, b: int) -> int {
    if b == 0 {
        0
    } else if (a >= 0) == (b > 0) {
        abs_i(a) / abs_i(b)
    } else {
        -(abs_i(a) / abs_i(b))
    }
}

pub open spec fn max_i(a: int, b: int) -> int {
    if a >= b { a } else { b }
}

pub open spec fn min_i(a: int, b: int) -> int {
    if a <= b { a } else { b }
}

pub fn add_sat(a: i64, b: i64) -> (r: i64)
    ensures
        r == sat(a + b),
{
    let s: i128 = a as i128 + b as i128;
    if s < i64::MIN as i128 {
        i64::MIN
    } else if s > i64::MAX as i128 {
        i64::MAX
    } else {
        s as i64
    }
}

pub fn sub_sat(a: i64, b: i64) -> (r: i64)
    ensures
        r == sat(a - b),
{
    let s: i128 = a as i128 - b as i128;
    if s < i64::MIN as i128 {
        i64::MIN
    } else if s > i64::MAX as i128 {
        i64::MAX
    } else {
        s as i64
    }
}

pub fn mul_sat(a: i64, b: i64) -> (r: i64)
    ensures
        r == sat(a * b),
{
    let x: i128 = a as i128;
    let y: i128 = b as i128;
    assert(-0x4000_0000_0000_0000_0000_0000_0000_0000 <= x * y <= 0x4000_0000_0000_0000_0000_0000_0000_0000)
        by (nonlinear_arith)
        requires
            -0x8000_0000_0000_0000 <= x < 0x8000_0000_0000_0000,
            -0x8000_0000_0000_0000 <= y < 0x8000_0000_0000_0000,
    ;
    let s: i128 = x * y;
    if s < i64::MIN as i128 {
        i64::MIN
    } else if s > i64::MAX as i128 {
        i64::MAX
    } else {
        s as i64
    }
}

pub fn div_sat(a: i64, b: i64) -> (r: i64)
    ensures
        r == sat(div_trunc(a as int, b as int)),
{
    if b == 0 {
        return 0;
    }
    let x: i128 = if a < 0 { -(a as i128) } else { a as i128 };
    let y: i128 = if b < 0 { -(b as i128) } else { b as i128 };
    let q: i128 = x / y;
    assert(0 <= q <= x) by (nonlinear_arith)
        requires x >= 0, y >= 1, q == x / y;
    let s: i128 = if (a >= 0) == (b > 0) { q } else { -q };
    if s > i64::MAX as i128 {
        i64::MAX
    } else {
        s as i64
    }
}

pub fn max_of(a: i64, b: i64) -> (r: i64)
    ensures
        r == max_i(a as int, b as int),
{
    if a >= b { a } else { b }
}

pub fn min_of(a: i64, b: i64) -> (r: i64)
    ensures
        r == min_i(a as int, b as int),
{
    if a <= b { a } else { b }
}

} // verus!
