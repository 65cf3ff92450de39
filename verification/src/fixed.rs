//! Real quantities as signed fixed-point numbers.
//!
//! A real number `r` is carried as the integer `r * UNIT`, so that heights,
//! scales and coordinates stay within exact integer arithmetic. Quotients are
//! rounded toward zero, and a result that leaves the 64-bit range is pinned
//! to the nearest end of it.

use vstd::prelude::*;

verus! {

/// The fixed-point image of the real number one.
pub const UNIT: i64 = 1_000_000;

/// The nearest value to `v` that a 64-bit signed integer can hold.
pub open spec fn saturate(v: int) -> int {
    if v < i64::MIN {
        i64::MIN as int
    } else if v > i64::MAX {
        i64::MAX as int
    } else {
        v
    }
}

/// The quotient of `n` by a positive `d`, rounded toward zero.
pub open spec fn toward_zero(n: int, d: int) -> int {
    if n >= 0 {
        n / d
    } else {
        -((-n) / d)
    }
}

/// The fixed-point sum of `a` and `b`.
pub open spec fn sum(a: int, b: int) -> int {
    saturate(a + b)
}

/// The fixed-point product of `a` and `b`.
pub open spec fn product(a: int, b: int) -> int {
    saturate(toward_zero(a * b, UNIT as int))
}

/// The fixed-point quotient of `a` by a positive `b`.
pub open spec fn ratio(a: int, b: int) -> int {
    saturate(toward_zero(a * UNIT, b))
}

/// The fixed-point `n`-th power of `base`, multiplied out one factor at a time.
pub open spec fn power(base: int, n: nat) -> int
    decreases n,
{
    if n == 0 {
        UNIT as int
    } else {
        product(power(base, (n - 1) as nat), base)
    }
}

/// Brings a wide intermediate result back into 64 bits.
pub fn narrow(v: i128) -> (r: i64)
    ensures
        r == saturate(v as int),
{
    if v < i64::MIN as i128 {
        i64::MIN
    } else if v > i64::MAX as i128 {
        i64::MAX
    } else {
        v as i64
    }
}

/// Adds two fixed-point numbers.
pub fn add_fixed(a: i64, b: i64) -> (r: i64)
    ensures
        r == sum(a as int, b as int),
{
    narrow(a as i128 + b as i128)
}

/// Multiplies two fixed-point numbers.
pub fn mul_fixed(a: i64, b: i64) -> (r: i64)
    ensures
        r == product(a as int, b as int),
{
    assert(-0x4000_0000_0000_0000_0000_0000_0000_0000 <= a * b
        <= 0x4000_0000_0000_0000_0000_0000_0000_0000) by (nonlinear_arith)
        requires
            -0x8000_0000_0000_0000 <= a <= 0x7fff_ffff_ffff_ffff,
            -0x8000_0000_0000_0000 <= b <= 0x7fff_ffff_ffff_ffff,
    ;
    let wide: i128 = a as i128 * b as i128;
    narrow(wide / UNIT as i128)
}

/// Divides a fixed-point number by a positive one.
pub fn div_fixed(a: i64, b: i64) -> (r: i64)
    requires
        b > 0,
    ensures
        r == ratio(a as int, b as int),
{
    let wide: i128 = a as i128 * 1_000_000;
    assert(wide == a * UNIT) by (nonlinear_arith)
        requires
            wide == a * 1_000_000,
            UNIT == 1_000_000,
    ;
    narrow(wide / b as i128)
}

} // verus!
