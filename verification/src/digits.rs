//! Parsing decimal and hexadecimal digit strings into exact integers.
//!
//! Precision-decimal values arrive as digit strings with a scale; they are
//! parsed here into the mantissa of a [`Decimal`], with every digit checked
//! and overflow of the 38-digit mantissa rejected.

use vstd::prelude::*;
use vstd::arithmetic::div_mod::{lemma_fundamental_div_mod, lemma_mod_division_less_than_divisor};
use vstd::arithmetic::mul::lemma_mul_inequality;
use crate::values::{Decimal, DECIMAL_MAX_MANTISSA, DECIMAL_MAX_SCALE};

verus! {

/// Numeric value of one ASCII digit: `0`..`9`, `A`..`F`, `a`..`f`; any
/// other byte maps to 16, above every digit of either radix.
pub open spec fn digit_value(b: u8) -> int {
    if 48 <= b <= 57 {
        b - 48
    } else if 65 <= b <= 70 {
        b - 55
    } else if 97 <= b <= 102 {
        b - 87
    } else {
        16
    }
}

/// Whether every byte of `s` is a digit under `radix`.
pub open spec fn all_digits(s: Seq<u8>, radix: u8) -> bool {
    forall|i: int| 0 <= i < s.len() ==> digit_value(s[i]) < radix
}

/// The integer a digit string denotes under `radix`, most significant digit
/// first.
pub open spec fn int_of_digits(s: Seq<u8>, radix: u8) -> int
    decreases s.len(),
{
    if s.len() == 0 {
        0
    } else {
        int_of_digits(s.drop_last(), radix) * radix + digit_value(s.last())
    }
}

proof fn lemma_int_of_digits_nonneg(s: Seq<u8>, radix: u8)
    requires
        radix >= 1,
    ensures
        int_of_digits(s, radix) >= 0,
    decreases s.len(),
{
    if s.len() > 0 {
        lemma_int_of_digits_nonneg(s.drop_last(), radix);
        let v: int = int_of_digits(s.drop_last(), radix);
        assert(v * radix >= 0) by (nonlinear_arith)
            requires
                v >= 0,
                radix >= 1,
        ;
    }
}

/// The value of a digit string is at least the value of any of its
/// prefixes: appending digits never shrinks it.
proof fn lemma_prefix_le(s: Seq<u8>, radix: u8, i: int)
    requires
        radix >= 1,
        0 <= i <= s.len(),
    ensures
        int_of_digits(s.subrange(0, i), radix) <= int_of_digits(s, radix),
    decreases s.len() - i,
{
    if i == s.len() {
        assert(s.subrange(0, i) =~= s);
    } else {
        let p: Seq<u8> = s.subrange(0, i);
        let q: Seq<u8> = s.subrange(0, i + 1);
        assert(q.drop_last() =~= p);
        lemma_int_of_digits_nonneg(p, radix);
        let v: int = int_of_digits(p, radix);
        assert(v * radix >= v) by (nonlinear_arith)
            requires
                v >= 0,
                radix >= 1,
        ;
        lemma_prefix_le(s, radix, i + 1);
    }
}

/// Executable twin of [`digit_value`].
pub fn digit_of(b: u8) -> (d: u8)
    ensures
        d as int == digit_value(b),
{
    if 48 <= b && b <= 57 {
        b - 48
    } else if 65 <= b && b <= 70 {
        b - 55
    } else if 97 <= b && b <= 102 {
        b - 87
    } else {
        16
    }
}

/// Parses an unsigned digit string under `radix` into an exact integer.
///
/// Returns the denoted integer exactly when the string is non-empty, every
/// byte is a digit under `radix`, and the value fits the 38-digit mantissa
/// bound; otherwise returns nothing.
pub fn parse_int(digits: &[u8], radix: u8) -> (r: Option<i128>)
    requires
        radix == 10 || radix == 16,
    ensures
        r matches Some(n) ==> digits@.len() > 0 && all_digits(digits@, radix) && n
            == int_of_digits(digits@, radix) && 0 <= n <= DECIMAL_MAX_MANTISSA,
        r is None ==> digits@.len() == 0 || !all_digits(digits@, radix) || int_of_digits(
            digits@,
            radix,
        ) > DECIMAL_MAX_MANTISSA,
{
    if digits.len() == 0 {
        return None;
    }
    let bound: u128 = DECIMAL_MAX_MANTISSA as u128;
    let ru: u128 = radix as u128;
    let mut acc: u128 = 0;
    let mut i: usize = 0;
    while i < digits.len()
        invariant
            radix == 10 || radix == 16,
            ru == radix as u128,
            bound == DECIMAL_MAX_MANTISSA as u128,
            i <= digits@.len(),
            all_digits(digits@.subrange(0, i as int), radix),
            acc as int == int_of_digits(digits@.subrange(0, i as int), radix),
            acc <= bound,
        decreases digits@.len() - i,
    {
        let b: u8 = digits[i];
        let d: u8 = digit_of(b);
        if d >= radix {
            proof {
                assert(digit_value(digits@[i as int]) >= radix);
            }
            return None;
        }
        let du: u128 = d as u128;
        proof {
            assert(digits@.subrange(0, i as int + 1).drop_last() =~= digits@.subrange(
                0,
                i as int,
            ));
        }
        let ghost m: int = DECIMAL_MAX_MANTISSA as int;
        let ghost q: int = (m - d) / (radix as int);
        if acc > (bound - du) / ru {
            proof {
                lemma_fundamental_div_mod(m - d, radix as int);
                lemma_mod_division_less_than_divisor(m - d, radix as int);
                lemma_mul_inequality(q + 1, acc as int, radix as int);
                assert((q + 1) * radix == q * radix + radix) by (nonlinear_arith);
                assert(acc as int * radix + d > m);
                assert(int_of_digits(digits@.subrange(0, i as int + 1), radix) > m);
                lemma_prefix_le(digits@, radix, i as int + 1);
            }
            return None;
        }
        proof {
            lemma_fundamental_div_mod(m - d, radix as int);
            lemma_mod_division_less_than_divisor(m - d, radix as int);
            lemma_mul_inequality(acc as int, q, radix as int);
            assert(acc as int * radix + d <= m);
        }
        acc = acc * ru + du;
        i += 1;
    }
    proof {
        assert(digits@.subrange(0, i as int) =~= digits@);
    }
    Some(acc as i128)
}

/// Parses a digit string with a scale into an exact decimal, the way a
/// precision decimal parameter is written: the digits give the mantissa,
/// the scale the digits right of the point.
pub fn parse_decimal(digits: &[u8], radix: u8, scale: u8) -> (r: Option<Decimal>)
    requires
        radix == 10 || radix == 16,
    ensures
        r matches Some(dec) ==> digits@.len() > 0 && all_digits(digits@, radix) && dec.mantissa
            == int_of_digits(digits@, radix) && dec.scale == scale && dec.valid(),
        r is None ==> digits@.len() == 0 || !all_digits(digits@, radix) || int_of_digits(
            digits@,
            radix,
        ) > DECIMAL_MAX_MANTISSA || scale > DECIMAL_MAX_SCALE,
        digits@.len() > 0 && all_digits(digits@, radix) && int_of_digits(digits@, radix)
            <= DECIMAL_MAX_MANTISSA && scale <= DECIMAL_MAX_SCALE ==> r is Some,
{
    match parse_int(digits, radix) {
        Some(n) => Decimal::new(n, scale),
        None => None,
    }
}

} // verus!
