//! Fixed-point arithmetic in thousandths, saturating at the ends of the
//! 64-bit range.

use vstd::prelude::*;

verus! {

/// The nearest `u64` to `x`.
pub open spec fn clamp_u64(x: int) -> u64 {
    if x < 0 {
        0
    } else if x > u64::MAX {
        u64::MAX
    } else {
        x as u64
    }
}

/// The nearest `i64` to `x`.
pub open spec fn clamp_i64(x: int) -> i64 {
    if x < i64::MIN {
        i64::MIN
    } else if x > i64::MAX {
        i64::MAX
    } else {
        x as i64
    }
}

/// The product of a quantity and a fixed-point factor, rounded down.
pub open spec fn scaled(amount: int, factor: int) -> int {
    amount * factor / 1000
}

/// The absolute value of `x`.
pub open spec fn magnitude(x: int) -> int {
    if x < 0 {
        -x
    } else {
        x
    }
}

/// The product of a signed quantity and a fixed-point factor, rounded toward
/// zero.
pub open spec fn scaled_signed(amount: int, factor: int) -> int {
    if amount < 0 {
        -scaled(-amount, factor)
    } else {
        scaled(amount, factor)
    }
}

/// The smaller of two integers.
pub open spec fn smaller(a: int, b: int) -> int {
    if a <= b {
        a
    } else {
        b
    }
}

/// `value + 1`, unless that leaves the range of `u32`.
pub open spec fn next_u32(value: u32) -> u32 {
    if value < u32::MAX {
        (value + 1) as u32
    } else {
        value
    }
}

/// `a + b`, unless that leaves the range of `u64`.
pub open spec fn sum_u64(a: u64, b: u64) -> u64 {
    if a + b > u64::MAX {
        u64::MAX
    } else {
        (a + b) as u64
    }
}

/// Multiplies `amount` by the fixed-point `factor`, rounding down.
pub fn scale(amount: u64, factor: u64) -> (r: u64)
    ensures
        r == clamp_u64(scaled(amount as int, factor as int)),
{
    assert(amount * factor <= 0xffff_ffff_ffff_ffff * 0xffff_ffff_ffff_ffff) by (nonlinear_arith)
        requires
            amount <= 0xffff_ffff_ffff_ffff,
            factor <= 0xffff_ffff_ffff_ffff,
    ;
    let wide: u128 = (amount as u128) * (factor as u128) / 1000;
    if wide > u64::MAX as u128 {
        u64::MAX
    } else {
        wide as u64
    }
}

/// Multiplies the signed `amount` by the fixed-point `factor`, rounding toward
/// zero.
pub fn scale_signed(amount: i64, factor: u64) -> (r: i64)
    ensures
        r == clamp_i64(scaled_signed(amount as int, factor as int)),
{
    if amount < 0 {
        let size: u64 = if amount == i64::MIN {
            0x8000_0000_0000_0000
        } else {
            (-amount) as u64
        };
        assert(size * factor <= 0xffff_ffff_ffff_ffff * 0xffff_ffff_ffff_ffff) by (nonlinear_arith)
            requires
                size <= 0xffff_ffff_ffff_ffff,
                factor <= 0xffff_ffff_ffff_ffff,
        ;
        let wide: u128 = (size as u128) * (factor as u128) / 1000;
        if wide >= 0x8000_0000_0000_0000 {
            i64::MIN
        } else {
            -(wide as i64)
        }
    } else {
        let size: u64 = amount as u64;
        assert(size * factor <= 0xffff_ffff_ffff_ffff * 0xffff_ffff_ffff_ffff) by (nonlinear_arith)
            requires
                size <= 0xffff_ffff_ffff_ffff,
                factor <= 0xffff_ffff_ffff_ffff,
        ;
        let wide: u128 = (size as u128) * (factor as u128) / 1000;
        if wide > i64::MAX as u128 {
            i64::MAX
        } else {
            wide as i64
        }
    }
}

/// Adds an unsigned amount to a signed quantity.
pub fn raise(value: i64, amount: u64) -> (r: i64)
    ensures
        r == clamp_i64(value + amount),
{
    let wide: i128 = value as i128 + amount as i128;
    if wide > i64::MAX as i128 {
        i64::MAX
    } else {
        wide as i64
    }
}

/// Takes an unsigned amount from a signed quantity.
pub fn lower(value: i64, amount: u64) -> (r: i64)
    ensures
        r == clamp_i64(value - amount),
{
    let wide: i128 = value as i128 - amount as i128;
    if wide < i64::MIN as i128 {
        i64::MIN
    } else {
        wide as i64
    }
}

/// Adds two signed quantities.
pub fn shift(value: i64, delta: i64) -> (r: i64)
    ensures
        r == clamp_i64(value + delta),
{
    let wide: i128 = value as i128 + delta as i128;
    if wide < i64::MIN as i128 {
        i64::MIN
    } else if wide > i64::MAX as i128 {
        i64::MAX
    } else {
        wide as i64
    }
}

/// The size of the difference of two signed quantities.
pub fn gap(a: i64, b: i64) -> (r: u64)
    ensures
        r == magnitude(a - b),
{
    let wide: i128 = a as i128 - b as i128;
    if wide < 0 {
        (-wide) as u64
    } else {
        wide as u64
    }
}

/// The larger of two quantities.
pub fn greatest(a: u64, b: u64) -> (r: u64)
    ensures
        r == if a >= b { a } else { b },
{
    if a >= b {
        a
    } else {
        b
    }
}

} // verus!
