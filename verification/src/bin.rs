//! Parsers for binary literals, `0b` followed by digits `0` and `1`.

use crate::digit::Radix;
use crate::laws::law_roomy_target_never_overflows;
use crate::outcome::{Outcome, Parsed, Reason};
use crate::parse::{parse, parse_spec};
use vstd::arithmetic::power2::lemma2_to64;
use vstd::prelude::*;

verus! {

/// Reads a `0b` literal of at most 64 binary digits into a `u64`.
#[inline(always)]
pub fn parse_bool_u64(i: &[u8]) -> (r: Outcome<'_, u64>)
    ensures
        r@ == parse_spec(i@, Radix::Bin, 64, u64::MAX as nat),
        r@ != (Parsed::Malformed { reason: Reason::NumericOverflow }),
{
    proof {
        lemma2_to64();
        law_roomy_target_never_overflows(i@, Radix::Bin, 64, u64::MAX as nat);
    }
    parse(i, Radix::Bin, 64)
}

/// Reads a `0b` literal of at most 32 binary digits into a `u32`.
#[inline(always)]
pub fn parse_bool_u32(i: &[u8]) -> (r: Outcome<'_, u32>)
    ensures
        r@ == parse_spec(i@, Radix::Bin, 32, u32::MAX as nat),
        r@ != (Parsed::Malformed { reason: Reason::NumericOverflow }),
{
    proof {
        lemma2_to64();
        law_roomy_target_never_overflows(i@, Radix::Bin, 32, u32::MAX as nat);
    }
    parse(i, Radix::Bin, 32)
}

/// Reads a `0b` literal of at most 16 binary digits into a `u16`.
#[inline(always)]
pub fn parse_bool_u16(i: &[u8]) -> (r: Outcome<'_, u16>)
    ensures
        r@ == parse_spec(i@, Radix::Bin, 16, u16::MAX as nat),
        r@ != (Parsed::Malformed { reason: Reason::NumericOverflow }),
{
    proof {
        lemma2_to64();
        law_roomy_target_never_overflows(i@, Radix::Bin, 16, u16::MAX as nat);
    }
    parse(i, Radix::Bin, 16)
}

/// Reads a `0b` literal of at most 8 binary digits into an `u8`.
#[inline(always)]
pub fn parse_bool_u8(i: &[u8]) -> (r: Outcome<'_, u8>)
    ensures
        r@ == parse_spec(i@, Radix::Bin, 8, u8::MAX as nat),
        r@ != (Parsed::Malformed { reason: Reason::NumericOverflow }),
{
    proof {
        lemma2_to64();
        law_roomy_target_never_overflows(i@, Radix::Bin, 8, u8::MAX as nat);
    }
    parse(i, Radix::Bin, 8)
}

/// Reads a `0b` literal of at most 64 binary digits into a `i64`.
/// A number above `i64::MAX` is an overflow.
#[inline(always)]
pub fn parse_bool_i64(i: &[u8]) -> (r: Outcome<'_, i64>)
    ensures
        r@ == parse_spec(i@, Radix::Bin, 64, i64::MAX as nat),
{
    parse(i, Radix::Bin, 64)
}

/// Reads a `0b` literal of at most 32 binary digits into a `i32`.
/// A number above `i32::MAX` is an overflow.
#[inline(always)]
pub fn parse_bool_i32(i: &[u8]) -> (r: Outcome<'_, i32>)
    ensures
        r@ == parse_spec(i@, Radix::Bin, 32, i32::MAX as nat),
{
    parse(i, Radix::Bin, 32)
}

/// Reads a `0b` literal of at most 16 binary digits into a `i16`.
/// A number above `i16::MAX` is an overflow.
#[inline(always)]
pub fn parse_bool_i16(i: &[u8]) -> (r: Outcome<'_, i16>)
    ensures
        r@ == parse_spec(i@, Radix::Bin, 16, i16::MAX as nat),
{
    parse(i, Radix::Bin, 16)
}

/// Reads a `0b` literal of at most 8 binary digits into an `i8`.
/// A number above `i8::MAX` is an overflow.
#[inline(always)]
pub fn parse_bool_i8(i: &[u8]) -> (r: Outcome<'_, i8>)
    ensures
        r@ == parse_spec(i@, Radix::Bin, 8, i8::MAX as nat),
{
    parse(i, Radix::Bin, 8)
}

} // verus!
