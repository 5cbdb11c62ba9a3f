//! Integer arithmetic that the modules share.

use vstd::prelude::*;

verus! {

/// The quotient of `a` by a positive `b`, rounded toward zero.
pub open spec fn quotient_toward_zero(a: int, b: int) -> int
    recommends
        b > 0,
{
    if a >= 0 {
        a / b
    } else {
        -((-a) / b)
    }
}

/// The quotient of `a` by a positive `b`, rounded toward zero.
pub fn div_toward_zero(a: i64, b: i64) -> (r: i64)
    requires
        b > 0,
    ensures
        r == quotient_toward_zero(a as int, b as int),
{
    if a >= 0 {
        a / b
    } else {
        let wide: i128 = -(a as i128);
        let q: i128 = wide / (b as i128);
        assert(q <= wide) by (nonlinear_arith)
            requires
                q == wide / (b as i128),
                wide >= 0,
                b > 0,
        ;
        (-q) as i64
    }
}

/// The value of a `u64` reinterpreted as an `i64` of the same bits.
pub open spec fn as_signed(u: u64) -> i64 {
    if u <= i64::MAX {
        u as i64
    } else {
        (u - 0x1_0000_0000_0000_0000) as i64
    }
}

/// Reinterprets a `u64` as the `i64` of the same bits.
pub fn to_signed(u: u64) -> (r: i64)
    ensures
        r == as_signed(u),
{
    if u <= 0x7fff_ffff_ffff_ffff {
        u as i64
    } else {
        ((u - 0x8000_0000_0000_0000) as i64) + i64::MIN
    }
}

/// The smaller of two numbers.
pub open spec fn at_most(a: int, b: int) -> int {
    if a <= b {
        a
    } else {
        b
    }
}

/// The product of a number of kibibytes and 1024, at most the largest `u64`.
pub open spec fn kib_to_bytes(kib: u64) -> u64 {
    if kib * 1024 <= u64::MAX {
        (kib * 1024) as u64
    } else {
        u64::MAX
    }
}

/// The difference `a - b`, or 0 where `b` is larger.
pub open spec fn minus_or_zero(a: u64, b: u64) -> u64 {
    if a >= b {
        (a - b) as u64
    } else {
        0
    }
}

/// A number of kibibytes in bytes, at most the largest `u64`.
pub fn to_bytes(kib: u64) -> (r: u64)
    ensures
        r == kib_to_bytes(kib),
{
    match kib.checked_mul(1024) {
        Some(bytes) => bytes,
        None => u64::MAX,
    }
}

/// The difference `a - b`, or 0 where `b` is larger.
pub fn saturating_minus(a: u64, b: u64) -> (r: u64)
    ensures
        r == minus_or_zero(a, b),
{
    if a >= b {
        a - b
    } else {
        0
    }
}

/// The sum of two sizes, at most the largest `u64`.
pub open spec fn plus_capped(a: u64, b: u64) -> u64 {
    if a + b <= u64::MAX {
        (a + b) as u64
    } else {
        u64::MAX
    }
}

/// The sum of two sizes, at most the largest `u64`.
pub fn add_capped(a: u64, b: u64) -> (r: u64)
    ensures
        r == plus_capped(a, b),
{
    match a.checked_add(b) {
        Some(sum) => sum,
        None => u64::MAX,
    }
}

} // verus!
