//! The difficulty curve: how many enemies a wave holds, how strong they are
//! and how quickly they arrive, as functions of the wave number.
//!
//! The enemy count grows geometrically. It is computed exactly: the product
//! `base × scaling^n` is kept as an integer part and a growing list of base-1000
//! digits behind the point, so that the rounding at the end sees the true value.

use crate::fixed::{clamp_u64, greatest};
use vstd::arithmetic::div_mod::lemma_fundamental_div_mod_converse;
use vstd::arithmetic::power::pow;
use vstd::prelude::*;

verus! {

/// The quotient `n / m` rounded to the nearest integer, halves upward.
pub open spec fn rounded_ratio(n: int, m: int) -> int {
    (2 * n + m) / (2 * m)
}

/// `base × (scaling / 1000)^exponent`, rounded to the nearest integer.
pub open spec fn scaled_count(base: nat, scaling: nat, exponent: nat) -> int {
    rounded_ratio(base * pow(scaling as int, exponent), pow(1000, exponent))
}

/// The number of enemies of wave `wave`: the base count multiplied by the
/// scaling factor once for every wave after the first, rounded, and held to
/// the range of `u32`.
pub open spec fn enemies_for_wave(base: u32, scaling: u64, wave: u32) -> u32 {
    let exponent = if wave >= 1 { (wave - 1) as nat } else { 0 };
    let exact = scaled_count(base as nat, scaling as nat, exponent);
    if exact > u32::MAX {
        u32::MAX
    } else {
        exact as u32
    }
}

/// The strength multiplier of wave `wave`: one, plus `step` for every wave
/// after the first.
pub open spec fn difficulty_for_wave(step: u64, wave: u32) -> u64 {
    let waves_before = if wave >= 1 { wave - 1 } else { 0 };
    clamp_u64(1000 + waves_before * step)
}

/// The spawn interval that follows `interval`: shorter by `reduction`, but
/// never below `floor`.
pub open spec fn next_spawn_interval(interval: u64, reduction: u64, floor: u64) -> u64 {
    if interval - reduction >= floor {
        (interval - reduction) as u64
    } else {
        floor
    }
}

/// The number that a list of base-1000 digits stands for, least significant
/// digit first.
spec fn digits_value(digits: Seq<u32>) -> int
    decreases digits.len(),
{
    if digits.len() == 0 {
        0
    } else {
        digits_value(digits.drop_last()) + digits.last() * pow(1000, (digits.len() - 1) as nat)
    }
}

/// Every digit is below 1000.
spec fn digits_in_range(digits: Seq<u32>) -> bool {
    forall|i: int| 0 <= i < digits.len() ==> digits[i] < 1000
}

/// A power is its base times the power one lower.
proof fn lemma_pow_step(b: int, e: nat)
    ensures
        pow(b, e + 1) == b * pow(b, e),
        pow(b, 0) == 1,
{
    reveal(pow);
}

/// Powers of a base that is not negative are not negative, and those of a
/// positive base are positive.
proof fn lemma_pow_nonnegative(b: int, e: nat)
    requires
        b >= 0,
    ensures
        pow(b, e) >= 0,
        b > 0 ==> pow(b, e) > 0,
    decreases e,
{
    lemma_pow_step(b, 0);
    if e > 0 {
        lemma_pow_nonnegative(b, (e - 1) as nat);
        lemma_pow_step(b, (e - 1) as nat);
        let p = pow(b, (e - 1) as nat);
        assert(b * p >= 0 && (b > 0 && p > 0 ==> b * p > 0)) by (nonlinear_arith)
            requires
                b >= 0,
                p >= 0,
        ;
    }
}

/// A digit put behind a list of digits counts at the place of its position.
proof fn lemma_value_push(digits: Seq<u32>, digit: u32)
    ensures
        digits_value(digits.push(digit)) == digits_value(digits) + digit * pow(
            1000,
            digits.len(),
        ),
{
    assert(digits.push(digit).drop_last() =~= digits);
}

/// A list of `k` digits stands for a number below `1000^k`.
proof fn lemma_value_bound(digits: Seq<u32>)
    requires
        digits_in_range(digits),
    ensures
        0 <= digits_value(digits) < pow(1000, digits.len()),
    decreases digits.len(),
{
    lemma_pow_step(1000, 0);
    if digits.len() > 0 {
        let rest = digits.drop_last();
        let k = rest.len();
        lemma_value_bound(rest);
        lemma_pow_step(1000, k);
        lemma_pow_nonnegative(1000, k);
        let p = pow(1000, k);
        let top = digits.last() as int;
        assert(0 <= top * p && top * p + p <= 1000 * p) by (nonlinear_arith)
            requires
                0 <= top < 1000,
                p > 0,
        ;
    }
}

/// One step of the multiplication of a list of digits: the digit `d` at the
/// place `p` is multiplied, the carry `c` is taken in, the new digit `r` is put
/// down and `q` is carried on.
proof fn lemma_digit_step(v: int, c: int, p: int, a: int, d: int, s: int, t: int, q: int, r: int)
    by (nonlinear_arith)
    requires
        v + c * p == a * s,
        t == d * s + c,
        t == q * 1000 + r,
    ensures
        (v + r * p) + q * (1000 * p) == (a + d * p) * s,
{
}

/// What is carried out of a digit is at most the factor.
proof fn lemma_carry_bound(d: int, s: int, c: int, t: int)
    by (nonlinear_arith)
    requires
        0 <= d < 1000,
        0 <= c <= s,
        t == d * s + c,
    ensures
        0 <= t <= 1000 * s,
        t / 1000 <= s,
        0 <= t / 1000,
{
}

/// One step of the whole computation: the value `whole + f / m` is
/// multiplied by `s / 1000`, which moves one digit behind the point.
proof fn lemma_whole_step(
    whole: int,
    m: int,
    f: int,
    n: int,
    fresh: int,
    c: int,
    s: int,
    total: int,
    next: int,
    digit: int,
)
    by (nonlinear_arith)
    requires
        whole * m + f == n,
        fresh + c * m == f * s,
        total == whole * s + c,
        total == next * 1000 + digit,
    ensures
        next * (1000 * m) + (fresh + digit * m) == n * s,
{
}

/// The integer part times the factor fits the machine, and a factor below
/// one does not let the integer part grow.
proof fn lemma_total_bound(whole: int, s: int, c: int)
    by (nonlinear_arith)
    requires
        0 <= whole <= 0xffff_ffff,
        0 <= c <= s,
        0 <= s <= 0xffff_ffff_ffff_ffff,
    ensures
        0 <= whole * s + c <= 0x1_0000_0000 * 0xffff_ffff_ffff_ffff,
        s < 1000 ==> (whole * s + c) / 1000 <= whole,
{
}

/// Rounding looks at the first digit behind the point only: from five
/// hundred on the value is rounded up.
proof fn lemma_rounding(n: int, whole: int, m: int, p: int, low: int, top: int)
    requires
        n == whole * m + low + top * p,
        m == 1000 * p,
        p > 0,
        0 <= low < p,
        0 <= top < 1000,
    ensures
        rounded_ratio(n, m) == whole + if top >= 500 { 1int } else { 0int },
        2 * (low + top * p) < m <==> top < 500,
{
    let f = low + top * p;
    assert(top >= 500 ==> 2 * f >= m && 2 * f < 2 * m) by (nonlinear_arith)
        requires
            f == low + top * p,
            m == 1000 * p,
            p > 0,
            0 <= low < p,
            0 <= top < 1000,
    ;
    assert(top < 500 ==> 0 <= 2 * f < m) by (nonlinear_arith)
        requires
            f == low + top * p,
            m == 1000 * p,
            p > 0,
            0 <= low < p,
            0 <= top < 1000,
    ;
    if top >= 500 {
        assert(2 * n + m == (whole + 1) * (2 * m) + (2 * f - m)) by (nonlinear_arith)
            requires
                n == whole * m + f,
        ;
        lemma_fundamental_div_mod_converse(2 * n + m, 2 * m, whole + 1, 2 * f - m);
    } else {
        assert(2 * n + m == whole * (2 * m) + (2 * f + m)) by (nonlinear_arith)
            requires
                n == whole * m + f,
        ;
        lemma_fundamental_div_mod_converse(2 * n + m, 2 * m, whole, 2 * f + m);
    }
}

/// With a factor of one the count stays at its base.
proof fn lemma_unit_scaling(base: nat, exponent: nat)
    ensures
        scaled_count(base, 1000, exponent) == base,
{
    let m = pow(1000, exponent);
    lemma_pow_nonnegative(1000, exponent);
    assert(2 * (base * m) + m == base * (2 * m) + m) by (nonlinear_arith);
    lemma_fundamental_div_mod_converse(2 * ((base as int) * m) + m, 2 * m, base as int, m);
}

/// With no wave before it the count is its base.
proof fn lemma_first_wave(base: nat, scaling: nat)
    ensures
        scaled_count(base, scaling, 0) == base,
{
    lemma_pow_step(scaling as int, 0);
    lemma_pow_step(1000, 0);
    assert(base * 1 == base) by (nonlinear_arith);
    lemma_fundamental_div_mod_converse(2 * (base as int) + 1, 2, base as int, 1);
}

/// Rounding picks the nearest integer, and of two equally near the larger:
/// the quotient lies at most one half below the rounded value and less than
/// one half above it.
pub proof fn lemma_rounded_ratio_is_nearest(n: int, m: int)
    requires
        m > 0,
    ensures
        2 * (rounded_ratio(n, m) * m) - m <= 2 * n < 2 * (rounded_ratio(n, m) * m) + m,
{
    let q = rounded_ratio(n, m);
    vstd::arithmetic::div_mod::lemma_fundamental_div_mod(2 * n + m, 2 * m);
    vstd::arithmetic::div_mod::lemma_mod_bound(2 * n + m, 2 * m);
    assert((2 * m) * q == 2 * (q * m)) by (nonlinear_arith);
}

/// The first wave holds the base count of enemies at the base strength,
/// whatever the scaling.
pub proof fn lemma_first_wave_is_base(base: u32, scaling: u64, step: u64)
    ensures
        enemies_for_wave(base, scaling, 1) == base,
        difficulty_for_wave(step, 1) == 1000,
{
    lemma_first_wave(base as nat, scaling as nat);
    assert(0 * step == 0) by (nonlinear_arith);
}

/// For every wave from the first on, the number of enemies is the base count
/// times the scaling factor to the power of the waves before it, rounded to
/// the nearest integer, and the strength multiplier is one plus the step for
/// each wave before it; each as long as it fits its machine type.
pub proof fn lemma_wave_formulas(base: u32, scaling: u64, step: u64, wave: u32)
    requires
        wave >= 1,
    ensures
        scaled_count(base as nat, scaling as nat, (wave - 1) as nat) <= u32::MAX
            ==> enemies_for_wave(base, scaling, wave) == rounded_ratio(
            base * pow(scaling as int, (wave - 1) as nat),
            pow(1000, (wave - 1) as nat),
        ),
        scaled_count(base as nat, scaling as nat, (wave - 1) as nat) > u32::MAX
            ==> enemies_for_wave(base, scaling, wave) == u32::MAX,
        1000 + (wave - 1) * step <= u64::MAX ==> difficulty_for_wave(step, wave) == 1000 + (wave
            - 1) * step,
        1000 + (wave - 1) * step > u64::MAX ==> difficulty_for_wave(step, wave) == u64::MAX,
        scaled_count(base as nat, scaling as nat, (wave - 1) as nat) >= 0,
{
    let e = (wave - 1) as nat;
    lemma_pow_nonnegative(scaling as int, e);
    lemma_pow_nonnegative(1000, e);
    let n = base * pow(scaling as int, e);
    let m = pow(1000, e);
    assert(n >= 0) by (nonlinear_arith)
        requires
            n == base * pow(scaling as int, e),
            base >= 0,
            pow(scaling as int, e) >= 0,
    ;
    assert((wave - 1) * step >= 0) by (nonlinear_arith)
        requires
            wave >= 1,
            step >= 0,
    ;
    vstd::arithmetic::div_mod::lemma_div_pos_is_pos(2 * n + m, 2 * m);
}

/// Once the value is at least `bound` and the factor is at least one, it
/// stays at least `bound`.
proof fn lemma_stays_large(base: nat, scaling: nat, k: nat, e: nat, bound: int)
    requires
        scaling >= 1000,
        k <= e,
        bound >= 0,
        base * pow(scaling as int, k) >= bound * pow(1000, k),
    ensures
        scaled_count(base, scaling, e) >= bound,
    decreases e - k,
{
    let n = base * pow(scaling as int, k);
    let m = pow(1000, k);
    lemma_pow_nonnegative(1000, k);
    lemma_pow_nonnegative(scaling as int, k);
    if k == e {
        assert(2 * n + m >= bound * (2 * m)) by (nonlinear_arith)
            requires
                n >= bound * m,
                m > 0,
        ;
        vstd::arithmetic::div_mod::lemma_div_is_ordered(bound * (2 * m), 2 * n + m, 2 * m);
        vstd::arithmetic::div_mod::lemma_div_by_multiple(bound, 2 * m);
    } else {
        lemma_pow_step(scaling as int, k);
        lemma_pow_step(1000, k);
        let sk = pow(scaling as int, k);
        assert(base * (scaling * sk) >= bound * (1000 * m)) by (nonlinear_arith)
            requires
                base * sk >= bound * m,
                scaling >= 1000,
                bound >= 0,
                m > 0,
                sk >= 0,
                base >= 0,
        ;
        lemma_stays_large(base, scaling, k + 1, e, bound);
    }
}

/// Once the value is below one half and the factor is at most one, it
/// stays below one half.
proof fn lemma_stays_small(base: nat, scaling: nat, k: nat, e: nat)
    requires
        scaling <= 1000,
        k <= e,
        2 * (base * pow(scaling as int, k)) < pow(1000, k),
    ensures
        scaled_count(base, scaling, e) == 0,
    decreases e - k,
{
    let n = base * pow(scaling as int, k);
    let m = pow(1000, k);
    lemma_pow_nonnegative(1000, k);
    lemma_pow_nonnegative(scaling as int, k);
    let sk = pow(scaling as int, k);
    assert(base * sk >= 0) by (nonlinear_arith)
        requires
            base >= 0,
            sk >= 0,
    ;
    if k == e {
        lemma_fundamental_div_mod_converse(2 * n + m, 2 * m, 0, 2 * n + m);
    } else {
        lemma_pow_step(scaling as int, k);
        lemma_pow_step(1000, k);
        assert(2 * (base * (scaling * sk)) < 1000 * m) by (nonlinear_arith)
            requires
                2 * (base * sk) < m,
                0 <= scaling <= 1000,
                base * sk >= 0,
        ;
        lemma_stays_small(base, scaling, k + 1, e);
    }
}

/// Multiplies a list of digits by `scaling`. The digits of the product up to
/// the length of the list are returned with what is carried out of them.
fn multiply_digits(digits: &Vec<u32>, scaling: u64) -> (out: (Vec<u32>, u64))
    requires
        digits_in_range(digits@),
    ensures
        digits_in_range(out.0@),
        out.0@.len() == digits@.len(),
        out.1 <= scaling,
        digits_value(out.0@) + out.1 * pow(1000, digits@.len()) == digits_value(digits@)
            * scaling,
{
    let mut fresh: Vec<u32> = Vec::new();
    let mut carry: u64 = 0;
    let mut i: usize = 0;
    proof {
        assert(digits@.take(0) =~= Seq::<u32>::empty());
        lemma_pow_step(1000, 0);
    }
    while i < digits.len()
        invariant
            i <= digits@.len(),
            digits_in_range(digits@),
            digits_in_range(fresh@),
            fresh@.len() == i,
            carry <= scaling,
            digits_value(fresh@) + carry * pow(1000, i as nat) == digits_value(
                digits@.take(i as int),
            ) * scaling,
        decreases digits@.len() - i,
    {
        let digit: u32 = digits[i];
        proof {
            lemma_carry_bound(
                digit as int,
                scaling as int,
                carry as int,
                digit * scaling + carry,
            );
        }
        let total: u128 = (digit as u128) * (scaling as u128) + (carry as u128);
        let low: u32 = (total % 1000) as u32;
        let high: u64 = (total / 1000) as u64;
        proof {
            let prefix = digits@.take(i as int);
            assert(digits@.take(i + 1) =~= prefix.push(digit));
            lemma_value_push(prefix, digit);
            lemma_value_push(fresh@, low);
            lemma_pow_step(1000, i as nat);
            lemma_digit_step(
                digits_value(fresh@),
                carry as int,
                pow(1000, i as nat),
                digits_value(prefix),
                digit as int,
                scaling as int,
                total as int,
                high as int,
                low as int,
            );
        }
        fresh.push(low);
        carry = high;
        i += 1;
    }
    proof {
        assert(digits@.take(digits@.len() as int) =~= digits@);
    }
    (fresh, carry)
}

/// Computes `base × (scaling / 1000)^exponent`, rounded to the nearest
/// integer and held to the range of `u32`.
pub fn geometric_count(base: u32, scaling: u64, exponent: u32) -> (r: u32)
    ensures
        scaled_count(base as nat, scaling as nat, exponent as nat) > u32::MAX ==> r == u32::MAX,
        scaled_count(base as nat, scaling as nat, exponent as nat) <= u32::MAX ==> r
            == scaled_count(base as nat, scaling as nat, exponent as nat),
{
    proof {
        lemma_unit_scaling(base as nat, exponent as nat);
        lemma_first_wave(base as nat, scaling as nat);
    }
    if scaling == 1000 || exponent == 0 {
        return base;
    }
    let mut whole: u64 = base as u64;
    let mut digits: Vec<u32> = Vec::new();
    let mut k: u32 = 0;
    proof {
        lemma_pow_step(1000, 0);
        lemma_pow_step(scaling as int, 0);
        assert(base * 1 == base) by (nonlinear_arith);
        assert(whole * 1 == whole) by (nonlinear_arith);
    }
    while k < exponent
        invariant
            k <= exponent,
            scaling != 1000,
            digits_in_range(digits@),
            digits@.len() == k,
            whole <= u32::MAX,
            whole * pow(1000, k as nat) + digits_value(digits@) == base * pow(
                scaling as int,
                k as nat,
            ),
        decreases exponent - k,
    {
        let ghost m = pow(1000, k as nat);
        let ghost n = base * pow(scaling as int, k as nat);
        let ghost f = digits_value(digits@);
        proof {
            lemma_value_bound(digits@);
            lemma_pow_nonnegative(1000, k as nat);
        }
        // A value below one half that shrinks from wave to wave rounds to zero
        // from here on.
        if scaling < 1000 && whole == 0 {
            let fading: bool = if k == 0 {
                true
            } else {
                digits[(k - 1) as usize] < 500
            };
            if fading {
                proof {
                    if k > 0 {
                        let rest = digits@.drop_last();
                        lemma_value_bound(rest);
                        lemma_pow_step(1000, (k - 1) as nat);
                        lemma_pow_nonnegative(1000, (k - 1) as nat);
                        lemma_rounding(
                            n,
                            0,
                            m,
                            pow(1000, (k - 1) as nat),
                            digits_value(rest),
                            digits@.last() as int,
                        );
                    }
                    lemma_stays_small(base as nat, scaling as nat, k as nat, exponent as nat);
                }
                return 0;
            }
        }
        // Multiply by the factor, then move the point one digit to the left.
        let (fresh, carry) = multiply_digits(&digits, scaling);
        proof {
            lemma_total_bound(whole as int, scaling as int, carry as int);
        }
        let total: u128 = (whole as u128) * (scaling as u128) + (carry as u128);
        let digit: u32 = (total % 1000) as u32;
        let next: u128 = total / 1000;
        proof {
            lemma_pow_step(1000, k as nat);
            lemma_pow_step(scaling as int, k as nat);
            lemma_whole_step(
                whole as int,
                m,
                f,
                n,
                digits_value(fresh@),
                carry as int,
                scaling as int,
                total as int,
                next as int,
                digit as int,
            );
            lemma_value_push(fresh@, digit);
            let sk = pow(scaling as int, k as nat);
            assert(base * (scaling * sk) == (base * sk) * scaling) by (nonlinear_arith);
        }
        let mut grown = fresh;
        grown.push(digit);
        // A value beyond the range of the count that grows from wave to wave
        // stays beyond it.
        if next > u32::MAX as u128 {
            proof {
                lemma_value_bound(grown@);
                let m2 = pow(1000, (k + 1) as nat);
                let n2 = base * pow(scaling as int, (k + 1) as nat);
                assert(n2 >= 0x1_0000_0000 * m2) by (nonlinear_arith)
                    requires
                        next * m2 + digits_value(grown@) == n2,
                        digits_value(grown@) >= 0,
                        next >= 0x1_0000_0000,
                        m2 >= 0,
                ;
                lemma_stays_large(
                    base as nat,
                    scaling as nat,
                    (k + 1) as nat,
                    exponent as nat,
                    0x1_0000_0000,
                );
            }
            return u32::MAX;
        }
        whole = next as u64;
        digits = grown;
        k += 1;
    }
    // The first digit behind the point decides the rounding.
    let top: u32 = digits[(k - 1) as usize];
    proof {
        let rest = digits@.drop_last();
        lemma_value_bound(rest);
        lemma_pow_step(1000, (k - 1) as nat);
        lemma_pow_nonnegative(1000, (k - 1) as nat);
        let p = pow(1000, (k - 1) as nat);
        lemma_rounding(
            base * pow(scaling as int, k as nat),
            whole as int,
            pow(1000, k as nat),
            p,
            digits_value(rest),
            top as int,
        );
    }
    let rounded: u64 = if top >= 500 {
        whole + 1
    } else {
        whole
    };
    if rounded > u32::MAX as u64 {
        u32::MAX
    } else {
        rounded as u32
    }
}

/// The number of enemies of wave `wave`.
pub fn enemies_to_spawn(base: u32, scaling: u64, wave: u32) -> (r: u32)
    ensures
        r == enemies_for_wave(base, scaling, wave),
{
    let exponent: u32 = if wave >= 1 {
        wave - 1
    } else {
        0
    };
    geometric_count(base, scaling, exponent)
}

/// The strength multiplier of wave `wave`.
pub fn difficulty_multiplier(step: u64, wave: u32) -> (r: u64)
    ensures
        r == difficulty_for_wave(step, wave),
{
    let waves_before: u32 = if wave >= 1 {
        wave - 1
    } else {
        0
    };
    assert(waves_before * step <= 0xffff_ffff * 0xffff_ffff_ffff_ffff) by (nonlinear_arith)
        requires
            waves_before <= 0xffff_ffff,
            step <= 0xffff_ffff_ffff_ffff,
    ;
    let wide: u128 = 1000 + (waves_before as u128) * (step as u128);
    if wide > u64::MAX as u128 {
        u64::MAX
    } else {
        wide as u64
    }
}

/// The spawn interval of the wave after one whose interval was `interval`.
pub fn lowered_spawn_interval(interval: u64, reduction: u64, floor: u64) -> (r: u64)
    ensures
        r == next_spawn_interval(interval, reduction, floor),
{
    greatest(interval.saturating_sub(reduction), floor)
}

} // verus!
