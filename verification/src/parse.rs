//! The parsing algorithm shared by every literal parser.

use crate::digit::Radix;
use crate::outcome::{Outcome, Parsed, Reason};
use crate::scan::{digit_run, scan_digits};
use crate::target::Target;
use crate::value::{decode, radix_value};
use vstd::prelude::*;
use vstd::slice::slice_subrange;

verus! {

/// The shortest input a parser looks at: the prefix and one digit.
pub const MIN_LEN: usize = 3;

/// What parsing `input` gives, for a parser of `radix` that reads at most
/// `max_chars` digits into a type whose largest number is `max_value`.
///
/// An input of fewer than three bytes is incomplete. Otherwise the first two
/// bytes must be the prefix. The digit run starts at the third byte. A run
/// that reaches the end of the input is an error, even where it is cut at
/// `max_chars` digits on the input's last byte: more bytes might settle it,
/// yet it is reported as malformed, not as incomplete. An empty run and a
/// number above `max_value` are errors too. Otherwise the number comes with
/// everything after the run.
pub open spec fn parse_spec(input: Seq<u8>, radix: Radix, max_chars: nat, max_value: nat) -> Parsed {
    if input.len() < 3 {
        Parsed::Incomplete { needed: 3 }
    } else if input.take(2) != radix.prefix_bytes() {
        Parsed::Malformed { reason: Reason::PrefixMismatch }
    } else {
        let n = digit_run(input.skip(2), radix, max_chars);
        let end = 2 + n as int;
        let number = radix_value(input.subrange(2, end), radix.base());
        if end == input.len() {
            Parsed::Malformed { reason: Reason::UnterminatedDigitRun }
        } else if n == 0 {
            Parsed::Malformed { reason: Reason::NoDigits }
        } else if number > max_value {
            Parsed::Malformed { reason: Reason::NumericOverflow }
        } else {
            Parsed::Complete { rest: input.skip(end), value: number as int }
        }
    }
}

/// Parses one literal of `radix` at the front of `input`, reading at most
/// `max_chars` digits, into the integer type `T`.
pub fn parse<'a, T: Target>(input: &'a [u8], radix: Radix, max_chars: usize) -> (r: Outcome<'a, T>)
    ensures
        r@ == parse_spec(input@, radix, max_chars as nat, T::ceiling()),
        input@.len() < 3 ==> r == Outcome::<T>::Incomplete(3),
        input@.len() >= 3 && input@.take(2) != radix.prefix_bytes() ==> r == Outcome::<T>::Malformed(
            Reason::PrefixMismatch,
        ),
{
    if input.len() < MIN_LEN {
        return Outcome::Incomplete(MIN_LEN);
    }
    let prefix = radix.prefix();
    if input[0] != prefix[0] || input[1] != prefix[1] {
        assert(input@.take(2)[0] == input@[0] && input@.take(2)[1] == input@[1]);
        return Outcome::Malformed(Reason::PrefixMismatch);
    }
    assert(input@.take(2) =~= radix.prefix_bytes());
    let body = slice_subrange(input, 2, input.len());
    assert(body@ =~= input@.skip(2));
    let n = scan_digits(body, radix, max_chars);
    if n == body.len() {
        return Outcome::Malformed(Reason::UnterminatedDigitRun);
    }
    if n == 0 {
        return Outcome::Malformed(Reason::NoDigits);
    }
    let digits = slice_subrange(body, 0, n);
    let rest = slice_subrange(body, n, body.len());
    assert(digits@ =~= input@.subrange(2, 2 + n));
    assert(rest@ =~= input@.skip(2 + n));
    match decode(digits, radix, T::limit()) {
        Some(v) => Outcome::Complete(rest, T::from_u64(v)),
        None => Outcome::Malformed(Reason::NumericOverflow),
    }
}

} // verus!
