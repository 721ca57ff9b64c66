//! Rounded quotients: gibibytes to two decimals, and percentages.
//!
//! All of it is exact integer arithmetic. A size in bytes is shown in
//! hundredths of a gibibyte, and a share in whole percent, each rounded to the
//! nearest value.

use vstd::arithmetic::div_mod::{lemma_fundamental_div_mod, lemma_fundamental_div_mod_converse};
use vstd::prelude::*;

verus! {

/// Bytes to the gibibyte.
pub const GIB: u64 = 0x4000_0000;

/// `num / den` rounded to the nearest whole number, a tie to the even one.
pub open spec fn round_half_even(num: nat, den: nat) -> nat
    recommends
        den > 0,
{
    let q = num / den;
    let r = num % den;
    if 2 * r < den || (2 * r == den && q % 2 == 0) {
        q
    } else {
        q + 1
    }
}

/// `num / den` rounded to the nearest whole number, a tie upwards.
pub open spec fn round_half_up(num: nat, den: nat) -> nat
    recommends
        den > 0,
{
    let q = num / den;
    let r = num % den;
    if 2 * r < den {
        q
    } else {
        q + 1
    }
}

/// The hundredths of a gibibyte in `bytes`, a tie rounded to the even one.
pub open spec fn gib_hundredths(bytes: nat) -> nat {
    round_half_even(bytes * 100, GIB as nat)
}

/// `part` of `whole` in percent, a tie rounded to the even one; 0 of nothing.
pub open spec fn percent_half_even(part: nat, whole: nat) -> nat {
    if whole == 0 {
        0
    } else {
        round_half_even(100 * part, whole)
    }
}

/// `part` of `whole` in percent, a tie rounded upwards; 0 of nothing, and 0
/// where the part is not positive.
pub open spec fn percent_half_up(part: int, whole: nat) -> nat {
    if whole == 0 || part <= 0 {
        0
    } else {
        round_half_up((100 * part) as nat, whole)
    }
}

/// A rounded quotient lies within one of the quotient, on either rounding.
pub proof fn lemma_rounding_is_near(num: nat, den: nat)
    requires
        den > 0,
    ensures
        num / den <= round_half_even(num, den) <= num / den + 1,
        num / den <= round_half_up(num, den) <= num / den + 1,
        num % den == 0 ==> round_half_even(num, den) == num / den && round_half_up(num, den) == num
            / den,
{
}

/// Quotient and remainder of a fraction whose numerator and denominator are
/// both multiplied by `k`.
proof fn lemma_scaled_division(num: nat, den: nat, k: nat)
    requires
        den > 0,
        k > 0,
    ensures
        den * k > 0,
        (num * k) / (den * k) == num / den,
        (num * k) % (den * k) == (num % den) * k,
{
    let q = (num / den) as int;
    let r = (num % den) as int;
    lemma_fundamental_div_mod(num as int, den as int);
    assert(den * k > 0) by (nonlinear_arith)
        requires
            den > 0,
            k > 0,
    ;
    assert(num * k == q * (den * k) + r * k) by (nonlinear_arith)
        requires
            num == den * q + r,
    ;
    assert(0 <= r * k < den * k) by (nonlinear_arith)
        requires
            0 <= r < den,
            k > 0,
    ;
    lemma_fundamental_div_mod_converse((num * k) as int, (den * k) as int, q, r * k);
}

/// Rounding sees only the ratio: a common factor changes nothing.
pub proof fn lemma_rounding_ignores_scale(num: nat, den: nat, k: nat)
    requires
        den > 0,
        k > 0,
    ensures
        round_half_even(num * k, den * k) == round_half_even(num, den),
        round_half_up(num * k, den * k) == round_half_up(num, den),
{
    lemma_scaled_division(num, den, k);
    let r = num % den;
    assert(2 * (r * k) < den * k <==> 2 * r < den) by (nonlinear_arith)
        requires
            k > 0,
    ;
    assert(2 * (r * k) == den * k <==> 2 * r == den) by (nonlinear_arith)
        requires
            k > 0,
    ;
}

/// A part that does not exceed the whole is at most 100 percent of it.
pub proof fn lemma_percent_at_most_100(part: nat, whole: nat)
    requires
        part <= whole,
    ensures
        percent_half_even(part, whole) <= 100,
        percent_half_up(part as int, whole) <= 100,
{
    if whole > 0 {
        let q = (100 * part) / whole;
        let r = (100 * part) % whole;
        lemma_fundamental_div_mod((100 * part) as int, whole as int);
        assert(q < 100 || (q == 100 && r == 0)) by (nonlinear_arith)
            requires
                100 * part == whole * q + r,
                0 <= r < whole,
                part <= whole,
        ;
    }
}

/// The whole is exactly 100 percent of itself, and nothing is 0 percent.
pub proof fn lemma_percent_ends(whole: nat)
    requires
        whole > 0,
    ensures
        percent_half_even(whole, whole) == 100,
        percent_half_up(whole as int, whole) == 100,
        percent_half_even(0, whole) == 0,
        percent_half_up(0, whole) == 0,
{
    lemma_fundamental_div_mod_converse((100 * whole) as int, whole as int, 100, 0);
    lemma_fundamental_div_mod_converse(0, whole as int, 0, 0);
}

/// Computes `num / den` rounded to the nearest whole number, a tie to the
/// even one.
pub fn rounded_half_even(num: u128, den: u128) -> (rounded: u128)
    requires
        den > 0,
    ensures
        rounded == round_half_even(num as nat, den as nat),
{
    let q: u128 = num / den;
    let r: u128 = num % den;
    if r < den - r || (r == den - r && q % 2 == 0) {
        q
    } else {
        proof {
            lemma_fundamental_div_mod(num as int, den as int);
            assert(q < u128::MAX) by (nonlinear_arith)
                requires
                    num == den * q + r,
                    r > 0,
                    den > 0,
                    num <= u128::MAX,
            ;
        }
        q + 1
    }
}

/// Computes `num / den` rounded to the nearest whole number, a tie upwards.
pub fn rounded_half_up(num: u128, den: u128) -> (rounded: u128)
    requires
        den > 0,
    ensures
        rounded == round_half_up(num as nat, den as nat),
{
    let q: u128 = num / den;
    let r: u128 = num % den;
    if r < den - r {
        q
    } else {
        proof {
            lemma_fundamental_div_mod(num as int, den as int);
            assert(q < u128::MAX) by (nonlinear_arith)
                requires
                    num == den * q + r,
                    r > 0,
                    den > 0,
                    num <= u128::MAX,
            ;
        }
        q + 1
    }
}

/// Computes the hundredths of a gibibyte in `bytes`.
pub fn hundredths_of_gib(bytes: u128) -> (hundredths: u128)
    ensures
        hundredths == gib_hundredths(bytes as nat),
{
    let gib: u128 = GIB as u128;
    let whole: u128 = bytes / gib;
    let rest: u128 = bytes % gib;
    let scaled: u128 = rest * 100;
    let q: u128 = scaled / gib;
    let r: u128 = scaled % gib;
    let base: u128 = whole * 100 + q;
    proof {
        lemma_fundamental_div_mod_converse((bytes * 100) as int, gib as int, base as int, r as int);
    }
    if 2 * r < gib || (2 * r == gib && base % 2 == 0) {
        base
    } else {
        base + 1
    }
}

} // verus!
