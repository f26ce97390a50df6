//! Parsers for octal literals, `0o` followed by digits `0-7`.

use crate::digit::Radix;
use crate::laws::law_roomy_target_never_overflows;
use crate::outcome::{Outcome, Parsed, Reason};
use crate::parse::{parse, parse_spec};
use vstd::arithmetic::power2::{lemma2_to64, lemma2_to64_rest};
use vstd::prelude::*;

verus! {

/// Reads a `0o` literal of at most 21 octal digits, 63 bits, into a `u64`.
#[inline(always)]
pub fn parse_oct_u64(i: &[u8]) -> (r: Outcome<'_, u64>)
    ensures
        r@ == parse_spec(i@, Radix::Oct, 21, u64::MAX as nat),
        r@ != (Parsed::Malformed { reason: Reason::NumericOverflow }),
{
    proof {
        lemma2_to64();
        lemma2_to64_rest();
        law_roomy_target_never_overflows(i@, Radix::Oct, 21, u64::MAX as nat);
    }
    parse(i, Radix::Oct, 21)
}

/// Reads a `0o` literal of at most 12 octal digits, 36 bits, into a `u64`.
#[inline(always)]
pub fn parse_oct_u36(i: &[u8]) -> (r: Outcome<'_, u64>)
    ensures
        r@ == parse_spec(i@, Radix::Oct, 12, u64::MAX as nat),
        r@ != (Parsed::Malformed { reason: Reason::NumericOverflow }),
{
    proof {
        lemma2_to64();
        lemma2_to64_rest();
        law_roomy_target_never_overflows(i@, Radix::Oct, 12, u64::MAX as nat);
    }
    parse(i, Radix::Oct, 12)
}

/// Reads a `0o` literal of at most 10 octal digits, 30 bits, into a `u32`.
#[inline(always)]
pub fn parse_oct_u32(i: &[u8]) -> (r: Outcome<'_, u32>)
    ensures
        r@ == parse_spec(i@, Radix::Oct, 10, u32::MAX as nat),
        r@ != (Parsed::Malformed { reason: Reason::NumericOverflow }),
{
    proof {
        lemma2_to64();
        law_roomy_target_never_overflows(i@, Radix::Oct, 10, u32::MAX as nat);
    }
    parse(i, Radix::Oct, 10)
}

/// Reads a `0o` literal of at most 8 octal digits, 24 bits, into a `u32`.
#[inline(always)]
pub fn parse_oct_u24(i: &[u8]) -> (r: Outcome<'_, u32>)
    ensures
        r@ == parse_spec(i@, Radix::Oct, 8, u32::MAX as nat),
        r@ != (Parsed::Malformed { reason: Reason::NumericOverflow }),
{
    proof {
        lemma2_to64();
        law_roomy_target_never_overflows(i@, Radix::Oct, 8, u32::MAX as nat);
    }
    parse(i, Radix::Oct, 8)
}

/// Reads a `0o` literal of at most 5 octal digits, 15 bits, into a `u16`.
#[inline(always)]
pub fn parse_oct_u16(i: &[u8]) -> (r: Outcome<'_, u16>)
    ensures
        r@ == parse_spec(i@, Radix::Oct, 5, u16::MAX as nat),
        r@ != (Parsed::Malformed { reason: Reason::NumericOverflow }),
{
    proof {
        lemma2_to64();
        law_roomy_target_never_overflows(i@, Radix::Oct, 5, u16::MAX as nat);
    }
    parse(i, Radix::Oct, 5)
}

/// Reads a `0o` literal of at most 3 octal digits, 9 bits, into a `u16`.
/// Whatever the name suggests, the literal is octal.
#[inline(always)]
pub fn parse_hex_u12(i: &[u8]) -> (r: Outcome<'_, u16>)
    ensures
        r@ == parse_spec(i@, Radix::Oct, 3, u16::MAX as nat),
        r@ != (Parsed::Malformed { reason: Reason::NumericOverflow }),
{
    proof {
        lemma2_to64();
        law_roomy_target_never_overflows(i@, Radix::Oct, 3, u16::MAX as nat);
    }
    parse(i, Radix::Oct, 3)
}

/// Reads a `0o` literal of at most 2 octal digits, 6 bits, into an `u8`.
#[inline(always)]
pub fn parse_oct_u8(i: &[u8]) -> (r: Outcome<'_, u8>)
    ensures
        r@ == parse_spec(i@, Radix::Oct, 2, u8::MAX as nat),
        r@ != (Parsed::Malformed { reason: Reason::NumericOverflow }),
{
    proof {
        lemma2_to64();
        law_roomy_target_never_overflows(i@, Radix::Oct, 2, u8::MAX as nat);
    }
    parse(i, Radix::Oct, 2)
}

/// Reads a `0o` literal of at most 21 octal digits, 63 bits, into a `i64`.
#[inline(always)]
pub fn parse_oct_i64(i: &[u8]) -> (r: Outcome<'_, i64>)
    ensures
        r@ == parse_spec(i@, Radix::Oct, 21, i64::MAX as nat),
        r@ != (Parsed::Malformed { reason: Reason::NumericOverflow }),
{
    proof {
        lemma2_to64();
        lemma2_to64_rest();
        law_roomy_target_never_overflows(i@, Radix::Oct, 21, i64::MAX as nat);
    }
    parse(i, Radix::Oct, 21)
}

/// Reads a `0o` literal of at most 12 octal digits, 36 bits, into a `i64`.
#[inline(always)]
pub fn parse_oct_i36(i: &[u8]) -> (r: Outcome<'_, i64>)
    ensures
        r@ == parse_spec(i@, Radix::Oct, 12, i64::MAX as nat),
        r@ != (Parsed::Malformed { reason: Reason::NumericOverflow }),
{
    proof {
        lemma2_to64();
        lemma2_to64_rest();
        law_roomy_target_never_overflows(i@, Radix::Oct, 12, i64::MAX as nat);
    }
    parse(i, Radix::Oct, 12)
}

/// Reads a `0o` literal of at most 10 octal digits, 30 bits, into a `i32`.
#[inline(always)]
pub fn parse_oct_i32(i: &[u8]) -> (r: Outcome<'_, i32>)
    ensures
        r@ == parse_spec(i@, Radix::Oct, 10, i32::MAX as nat),
        r@ != (Parsed::Malformed { reason: Reason::NumericOverflow }),
{
    proof {
        lemma2_to64();
        law_roomy_target_never_overflows(i@, Radix::Oct, 10, i32::MAX as nat);
    }
    parse(i, Radix::Oct, 10)
}

/// Reads a `0o` literal of at most 8 octal digits, 24 bits, into a `i32`.
#[inline(always)]
pub fn parse_oct_i24(i: &[u8]) -> (r: Outcome<'_, i32>)
    ensures
        r@ == parse_spec(i@, Radix::Oct, 8, i32::MAX as nat),
        r@ != (Parsed::Malformed { reason: Reason::NumericOverflow }),
{
    proof {
        lemma2_to64();
        law_roomy_target_never_overflows(i@, Radix::Oct, 8, i32::MAX as nat);
    }
    parse(i, Radix::Oct, 8)
}

/// Reads a `0o` literal of at most 5 octal digits, 15 bits, into a `i16`.
#[inline(always)]
pub fn parse_oct_i16(i: &[u8]) -> (r: Outcome<'_, i16>)
    ensures
        r@ == parse_spec(i@, Radix::Oct, 5, i16::MAX as nat),
        r@ != (Parsed::Malformed { reason: Reason::NumericOverflow }),
{
    proof {
        lemma2_to64();
        law_roomy_target_never_overflows(i@, Radix::Oct, 5, i16::MAX as nat);
    }
    parse(i, Radix::Oct, 5)
}

/// Reads a `0o` literal of at most 3 octal digits, 9 bits, into a `i16`.
/// Whatever the name suggests, the literal is octal.
#[inline(always)]
pub fn parse_hex_i12(i: &[u8]) -> (r: Outcome<'_, i16>)
    ensures
        r@ == parse_spec(i@, Radix::Oct, 3, i16::MAX as nat),
        r@ != (Parsed::Malformed { reason: Reason::NumericOverflow }),
{
    proof {
        lemma2_to64();
        law_roomy_target_never_overflows(i@, Radix::Oct, 3, i16::MAX as nat);
    }
    parse(i, Radix::Oct, 3)
}

/// Reads a `0o` literal of at most 2 octal digits, 6 bits, into an `i8`.
#[inline(always)]
pub fn parse_oct_i8(i: &[u8]) -> (r: Outcome<'_, i8>)
    ensures
        r@ == parse_spec(i@, Radix::Oct, 2, i8::MAX as nat),
        r@ != (Parsed::Malformed { reason: Reason::NumericOverflow }),
{
    proof {
        lemma2_to64();
        law_roomy_target_never_overflows(i@, Radix::Oct, 2, i8::MAX as nat);
    }
    parse(i, Radix::Oct, 2)
}

} // verus!
