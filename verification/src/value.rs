//! The number that a run of digits stands for.

use crate::digit::{digit_of, digit_value, lemma_digit_below_base, Radix};
use vstd::arithmetic::power2::{lemma2_to64, lemma_pow2_adds, pow2};
use vstd::prelude::*;

verus! {

/// The number written by `digits` in the given base, most significant digit
/// first. The empty run stands for 0.
pub open spec fn radix_value(digits: Seq<u8>, base: nat) -> nat
    decreases digits.len(),
{
    if digits.len() == 0 {
        0
    } else {
        radix_value(digits.drop_last(), base) * base + digit_value(digits.last())
    }
}

/// Whether every byte of `digits` is a digit of `radix`.
pub open spec fn all_digits(digits: Seq<u8>, radix: Radix) -> bool {
    forall|i: int| 0 <= i < digits.len() ==> radix.accepts(#[trigger] digits[i])
}

/// A run never stands for less than any of its prefixes.
pub proof fn lemma_value_grows(digits: Seq<u8>, base: nat, k: int)
    requires
        base >= 1,
        0 <= k <= digits.len(),
    ensures
        radix_value(digits.take(k), base) <= radix_value(digits, base),
    decreases digits.len() - k,
{
    if k == digits.len() {
        assert(digits.take(k) =~= digits);
    } else {
        let front = digits.drop_last();
        lemma_value_grows(front, base, k);
        assert(front.take(k) =~= digits.take(k));
        let v = radix_value(front, base);
        assert(v <= v * base) by (nonlinear_arith)
            requires
                base >= 1,
        ;
    }
}

/// A run of `n` digits stands for a number below two to the power of `n`
/// times the bits that one digit carries.
pub proof fn lemma_value_below_power(digits: Seq<u8>, radix: Radix)
    requires
        all_digits(digits, radix),
    ensures
        radix_value(digits, radix.base()) < pow2(radix.digit_bits() * digits.len()),
    decreases digits.len(),
{
    let bits = radix.digit_bits();
    let base = radix.base();
    lemma2_to64();
    if digits.len() == 0 {
        assert(bits * 0 == 0);
    } else {
        let front = digits.drop_last();
        assert forall|i: int| 0 <= i < front.len() implies radix.accepts(#[trigger] front[i]) by {
            assert(front[i] == digits[i]);
        }
        lemma_value_below_power(front, radix);
        lemma_digit_below_base(radix, digits.last());
        let high = pow2(bits * front.len());
        let v = radix_value(front, base);
        assert(bits * digits.len() == bits * front.len() + bits) by (nonlinear_arith)
            requires
                digits.len() == front.len() + 1,
        ;
        lemma_pow2_adds(bits * front.len(), bits);
        assert(pow2(bits) == base);
        assert(v * base + base <= high * base) by (nonlinear_arith)
            requires
                v + 1 <= high,
        ;
    }
}

/// Decodes `digits` in the base of `radix`, as long as the number stays
/// within `limit`.
pub fn decode(digits: &[u8], radix: Radix, limit: u64) -> (r: Option<u64>)
    ensures
        r == if radix_value(digits@, radix.base()) <= limit {
            Some(radix_value(digits@, radix.base()) as u64)
        } else {
            None
        },
{
    let base: u8 = radix.base_of();
    let mut acc: u64 = 0;
    let mut i: usize = 0;
    while i < digits.len()
        invariant
            i <= digits.len(),
            base == radix.base(),
            acc == radix_value(digits@.take(i as int), radix.base()),
            acc <= limit,
        decreases digits.len() - i,
    {
        let d: u8 = digit_of(digits[i]);
        assert(acc * base <= 0xffff_ffff_ffff_ffff * 16) by (nonlinear_arith)
            requires
                acc <= 0xffff_ffff_ffff_ffff,
                base <= 16,
        ;
        let next: u128 = acc as u128 * base as u128 + d as u128;
        proof {
            let upto = digits@.take(i + 1);
            assert(upto.drop_last() =~= digits@.take(i as int));
            assert(upto.last() == digits@[i as int]);
            assert(next == radix_value(upto, radix.base()));
            lemma_value_grows(digits@, radix.base(), i + 1);
        }
        if next > limit as u128 {
            return None;
        }
        acc = next as u64;
        i += 1;
    }
    assert(digits@.take(i as int) =~= digits@);
    Some(acc)
}

} // verus!
