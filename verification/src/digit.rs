//! Digit alphabets of the three supported radixes.

use vstd::prelude::*;

verus! {

/// The radix of a literal. It fixes the prefix, the base and the digit
/// alphabet.
#[derive(Clone, Copy, Debug, PartialEq, Eq, Structural)]
pub enum Radix {
    /// Base 16, prefix `0x`, digits `0-9a-fA-F`.
    Hex,
    /// Base 8, prefix `0o`, digits `0-7`.
    Oct,
    /// Base 2, prefix `0b`, digits `0` and `1`.
    Bin,
}

/// `b` is one of `0-9`, `A-F`, `a-f`.
pub open spec fn is_hex_byte(b: u8) -> bool {
    (0x30 <= b <= 0x39) || (0x41 <= b <= 0x46) || (0x61 <= b <= 0x66)
}

/// `b` is one of `0-7`.
pub open spec fn is_oct_byte(b: u8) -> bool {
    0x30 <= b <= 0x37
}

/// `b` is `0` or `1`.
pub open spec fn is_bin_byte(b: u8) -> bool {
    b == 0x30 || b == 0x31
}

/// The number that a digit byte stands for; 0 for a byte that is no digit
/// in any radix.
pub open spec fn digit_value(b: u8) -> nat {
    if 0x30 <= b <= 0x39 {
        (b - 0x30) as nat
    } else if 0x41 <= b <= 0x46 {
        (b - 0x41 + 10) as nat
    } else if 0x61 <= b <= 0x66 {
        (b - 0x61 + 10) as nat
    } else {
        0
    }
}

impl Radix {
    /// The base in which digits are weighted.
    pub open spec fn base(self) -> nat {
        match self {
            Radix::Hex => 16,
            Radix::Oct => 8,
            Radix::Bin => 2,
        }
    }

    /// How many bits one digit carries: the base is two to this power.
    pub open spec fn digit_bits(self) -> nat {
        match self {
            Radix::Hex => 4,
            Radix::Oct => 3,
            Radix::Bin => 1,
        }
    }

    /// The second byte of the prefix; the first is always `0`.
    pub open spec fn marker(self) -> u8 {
        match self {
            Radix::Hex => 0x78,
            Radix::Oct => 0x6f,
            Radix::Bin => 0x62,
        }
    }

    /// The two bytes that open a literal of this radix.
    pub open spec fn prefix_bytes(self) -> Seq<u8> {
        seq![0x30u8, self.marker()]
    }

    /// Whether `b` belongs to this radix's digit alphabet.
    pub open spec fn accepts(self, b: u8) -> bool {
        match self {
            Radix::Hex => is_hex_byte(b),
            Radix::Oct => is_oct_byte(b),
            Radix::Bin => is_bin_byte(b),
        }
    }

    /// The base as a machine integer.
    pub fn base_of(self) -> (b: u8)
        ensures
            b == self.base(),
    {
        match self {
            Radix::Hex => 16,
            Radix::Oct => 8,
            Radix::Bin => 2,
        }
    }

    /// The two prefix bytes.
    pub fn prefix(self) -> (p: [u8; 2])
        ensures
            p@ == self.prefix_bytes(),
    {
        let p: [u8; 2] = match self {
            Radix::Hex => [0x30, 0x78],
            Radix::Oct => [0x30, 0x6f],
            Radix::Bin => [0x30, 0x62],
        };
        assert(p@ =~= self.prefix_bytes());
        p
    }

    /// Tests one byte against the digit alphabet.
    pub fn is_digit(self, b: u8) -> (r: bool)
        ensures
            r == self.accepts(b),
    {
        match self {
            Radix::Hex => nom::is_hex_digit(b),
            Radix::Oct => nom::is_oct_digit(b),
            Radix::Bin => is_bool_digit(b),
        }
    }
}

/// `nom::is_hex_digit` answers whether the byte is an ASCII hexadecimal
/// digit: `0-9`, `A-F` or `a-f`. Taken on trust from nom.
pub assume_specification[ nom::is_hex_digit ](chr: u8) -> (r: bool)
    ensures
        r == is_hex_byte(chr),
;

/// `nom::is_oct_digit` answers whether the byte is an ASCII octal digit:
/// `0-7`. Taken on trust from nom.
pub assume_specification[ nom::is_oct_digit ](chr: u8) -> (r: bool)
    ensures
        r == is_oct_byte(chr),
;

/// Tests whether a byte is a binary digit, `0` or `1`.
#[inline(always)]
pub fn is_bool_digit(x: u8) -> (r: bool)
    ensures
        r == is_bin_byte(x),
{
    x == 49u8 || x == 48u8
}

/// Every digit of a radix weighs less than its base.
pub proof fn lemma_digit_below_base(radix: Radix, b: u8)
    requires
        radix.accepts(b),
    ensures
        digit_value(b) < radix.base(),
{
}

/// Turns a digit byte into its number; a byte outside `0-9a-fA-F` gives 0.
pub fn digit_of(b: u8) -> (v: u8)
    ensures
        v == digit_value(b),
{
    if 0x30 <= b && b <= 0x39 {
        b - 0x30
    } else if 0x41 <= b && b <= 0x46 {
        b - 0x41 + 10
    } else if 0x61 <= b && b <= 0x66 {
        b - 0x61 + 10
    } else {
        0
    }
}

} // verus!
