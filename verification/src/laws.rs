//! Laws that every literal parser obeys, stated over [`parse_spec`].

use crate::digit::Radix;
use crate::outcome::{Parsed, Reason};
use crate::parse::parse_spec;
use crate::scan::{digit_run, is_digit_run, lemma_digit_run_shape, lemma_digit_run_unique};
use crate::value::{all_digits, lemma_value_below_power, radix_value};
use vstd::arithmetic::power2::{lemma_pow2_strictly_increases, pow2};
use vstd::prelude::*;

verus! {

/// An input of fewer than three bytes is incomplete, and three bytes are
/// asked for, whatever the bytes are.
pub proof fn law_short_input_is_incomplete(
    input: Seq<u8>,
    radix: Radix,
    max_chars: nat,
    max_value: nat,
)
    requires
        input.len() < 3,
    ensures
        parse_spec(input, radix, max_chars, max_value) == (Parsed::Incomplete { needed: 3 }),
{
}

/// An input of three bytes or more whose first two bytes are not the prefix
/// is malformed with a prefix mismatch, whatever follows them.
pub proof fn law_foreign_prefix_is_mismatch(
    input: Seq<u8>,
    radix: Radix,
    max_chars: nat,
    max_value: nat,
)
    requires
        input.len() >= 3,
        input[0] != radix.prefix_bytes()[0] || input[1] != radix.prefix_bytes()[1],
    ensures
        parse_spec(input, radix, max_chars, max_value) == (Parsed::Malformed {
            reason: Reason::PrefixMismatch,
        }),
{
    assert(input.take(2)[0] == input[0]);
    assert(input.take(2)[1] == input[1]);
}

/// The prefix, then between one and `max_chars` digits that stand for a
/// number within range, then a tail that shows where the digits stop, parse
/// to that number with the tail left over untouched. The tail shows it by
/// starting with a byte that is no digit; after a full `max_chars` digits
/// any first byte will do.
pub proof fn law_literal_then_tail(
    radix: Radix,
    max_chars: nat,
    max_value: nat,
    digits: Seq<u8>,
    tail: Seq<u8>,
)
    requires
        1 <= digits.len() <= max_chars,
        all_digits(digits, radix),
        radix_value(digits, radix.base()) <= max_value,
        tail.len() >= 1,
        digits.len() == max_chars || !radix.accepts(tail[0]),
    ensures
        parse_spec(radix.prefix_bytes() + digits + tail, radix, max_chars, max_value)
            == (Parsed::Complete { rest: tail, value: radix_value(digits, radix.base()) as int }),
{
    let input = radix.prefix_bytes() + digits + tail;
    let body = input.skip(2);
    let n = digits.len();
    assert(input.take(2) =~= radix.prefix_bytes());
    assert(body =~= digits + tail);
    assert(is_digit_run(body, radix, max_chars, n)) by {
        assert forall|i: int| 0 <= i < n implies radix.accepts(#[trigger] body[i]) by {
            assert(body[i] == digits[i]);
        }
        assert(body[n as int] == tail[0]);
    }
    lemma_digit_run_unique(body, radix, max_chars, n);
    assert(input.subrange(2, 2 + n as int) =~= digits);
    assert(input.skip(2 + n as int) =~= tail);
}

/// Truncation: the prefix followed by more than `max_chars` digits parses to
/// the number that the first `max_chars` of them stand for, where that is
/// within range, and every digit after them is left over.
pub proof fn law_truncation(radix: Radix, max_chars: nat, max_value: nat, digits: Seq<u8>)
    requires
        max_chars >= 1,
        digits.len() > max_chars,
        all_digits(digits, radix),
        radix_value(digits.take(max_chars as int), radix.base()) <= max_value,
    ensures
        parse_spec(radix.prefix_bytes() + digits, radix, max_chars, max_value) == (Parsed::Complete {
            rest: digits.skip(max_chars as int),
            value: radix_value(digits.take(max_chars as int), radix.base()) as int,
        }),
{
    let head = digits.take(max_chars as int);
    let tail = digits.skip(max_chars as int);
    assert(head + tail =~= digits);
    assert(radix.prefix_bytes() + head + tail =~= radix.prefix_bytes() + digits);
    assert(all_digits(head, radix)) by {
        assert forall|i: int| 0 <= i < head.len() implies radix.accepts(#[trigger] head[i]) by {
            assert(head[i] == digits[i]);
        }
    }
    law_literal_then_tail(radix, max_chars, max_value, head, tail);
}

/// A complete parse consumed the prefix and a non-empty run of at most
/// `max_chars` digits, all of the parser's alphabet, and its rest is the
/// input from the end of that run on.
pub proof fn law_complete_consumes_digits(
    input: Seq<u8>,
    radix: Radix,
    max_chars: nat,
    max_value: nat,
)
    requires
        parse_spec(input, radix, max_chars, max_value) is Complete,
    ensures
        ({
            let n = digit_run(input.skip(2), radix, max_chars);
            let digits = input.subrange(2, 2 + n as int);
            &&& 1 <= n <= max_chars
            &&& 2 + n < input.len()
            &&& all_digits(digits, radix)
            &&& input =~= radix.prefix_bytes() + digits + parse_spec(
                input,
                radix,
                max_chars,
                max_value,
            )->rest
        }),
{
    let body = input.skip(2);
    let n = digit_run(body, radix, max_chars);
    lemma_digit_run_shape(body, radix, max_chars);
    let digits = input.subrange(2, 2 + n as int);
    assert forall|i: int| 0 <= i < digits.len() implies radix.accepts(#[trigger] digits[i]) by {
        assert(digits[i] == body[i]);
    }
    assert(input.take(2) == radix.prefix_bytes());
    assert(input =~= input.take(2) + digits + input.skip(2 + n as int));
}

/// A parser whose target type has room for every number of `max_chars`
/// digits never reports an overflow.
pub proof fn law_roomy_target_never_overflows(
    input: Seq<u8>,
    radix: Radix,
    max_chars: nat,
    max_value: nat,
)
    requires
        pow2(radix.digit_bits() * max_chars) <= max_value + 1,
    ensures
        parse_spec(input, radix, max_chars, max_value) != (Parsed::Malformed {
            reason: Reason::NumericOverflow,
        }),
{
    if input.len() >= 3 {
        let body = input.skip(2);
        let n = digit_run(body, radix, max_chars);
        let digits = input.subrange(2, 2 + n as int);
        lemma_digit_run_shape(body, radix, max_chars);
        assert forall|i: int| 0 <= i < digits.len() implies radix.accepts(#[trigger] digits[i]) by {
            assert(digits[i] == body[i]);
        }
        lemma_value_below_power(digits, radix);
        let bits = radix.digit_bits();
        if n < max_chars {
            assert(bits * n < bits * max_chars) by (nonlinear_arith)
                requires
                    n < max_chars,
                    bits >= 1,
            ;
            lemma_pow2_strictly_increases(bits * n, bits * max_chars);
        }
    }
}

/// Where the target type has room for every number of `max_chars` digits,
/// the prefix, then between one and `max_chars` digits, then a tail that
/// shows where the digits stop, always parse to the digits' number and the
/// tail.
pub proof fn law_literal_then_tail_in_roomy_target(
    radix: Radix,
    max_chars: nat,
    max_value: nat,
    digits: Seq<u8>,
    tail: Seq<u8>,
)
    requires
        pow2(radix.digit_bits() * max_chars) <= max_value + 1,
        1 <= digits.len() <= max_chars,
        all_digits(digits, radix),
        tail.len() >= 1,
        digits.len() == max_chars || !radix.accepts(tail[0]),
    ensures
        parse_spec(radix.prefix_bytes() + digits + tail, radix, max_chars, max_value)
            == (Parsed::Complete { rest: tail, value: radix_value(digits, radix.base()) as int }),
{
    lemma_value_below_power(digits, radix);
    let bits = radix.digit_bits();
    if digits.len() < max_chars {
        assert(bits * digits.len() < bits * max_chars) by (nonlinear_arith)
            requires
                digits.len() < max_chars,
                bits >= 1,
        ;
        lemma_pow2_strictly_increases(bits * digits.len(), bits * max_chars);
    }
    law_literal_then_tail(radix, max_chars, max_value, digits, tail);
}

} // verus!
