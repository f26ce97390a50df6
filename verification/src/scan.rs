//! The bounded scan over a run of digits.

use crate::digit::Radix;
use vstd::prelude::*;

verus! {

/// How many bytes at the front of `s` form the digit run: the digits of
/// `radix` up to the first byte that is none, up to the end of `s`, or up to
/// `cap` digits, whichever comes first.
pub open spec fn digit_run(s: Seq<u8>, radix: Radix, cap: nat) -> nat
    decreases cap,
{
    if cap == 0 || s.len() == 0 || !radix.accepts(s[0]) {
        0
    } else {
        1 + digit_run(s.drop_first(), radix, (cap - 1) as nat)
    }
}

/// `n` bytes at the front of `s` are digits, and the run stops there: at the
/// cap, at the end of `s`, or before a byte that is no digit.
pub open spec fn is_digit_run(s: Seq<u8>, radix: Radix, cap: nat, n: nat) -> bool {
    &&& n <= cap
    &&& n <= s.len()
    &&& forall|i: int| 0 <= i < n ==> radix.accepts(#[trigger] s[i])
    &&& (n == cap || n == s.len() || !radix.accepts(s[n as int]))
}

/// The run that `digit_run` measures has the shape that `is_digit_run`
/// describes.
pub proof fn lemma_digit_run_shape(s: Seq<u8>, radix: Radix, cap: nat)
    ensures
        is_digit_run(s, radix, cap, digit_run(s, radix, cap)),
    decreases cap,
{
    if cap == 0 || s.len() == 0 || !radix.accepts(s[0]) {
    } else {
        let t = s.drop_first();
        let c = (cap - 1) as nat;
        lemma_digit_run_shape(t, radix, c);
        let m = digit_run(t, radix, c);
        assert forall|i: int| 0 <= i < m + 1 implies radix.accepts(#[trigger] s[i]) by {
            if i > 0 {
                assert(s[i] == t[i - 1]);
            }
        }
        if m != c && m != t.len() {
            assert(t[m as int] == s[m as int + 1]);
        }
    }
}

/// Only one length has the shape of the digit run.
pub proof fn lemma_digit_run_unique(s: Seq<u8>, radix: Radix, cap: nat, n: nat)
    requires
        is_digit_run(s, radix, cap, n),
    ensures
        digit_run(s, radix, cap) == n,
    decreases cap,
{
    if cap == 0 || s.len() == 0 {
    } else if !radix.accepts(s[0]) {
        if n > 0 {
            assert(radix.accepts(s[0]));
        }
    } else {
        let t = s.drop_first();
        let c = (cap - 1) as nat;
        assert(n > 0);
        let m = (n - 1) as nat;
        assert forall|i: int| 0 <= i < m implies radix.accepts(#[trigger] t[i]) by {
            assert(t[i] == s[i + 1]);
        }
        if m != c && m != t.len() {
            assert(t[m as int] == s[n as int]);
        }
        lemma_digit_run_unique(t, radix, c, m);
    }
}

/// Counts the digits at the front of `bytes`, stopping after `max_chars` of
/// them.
pub fn scan_digits(bytes: &[u8], radix: Radix, max_chars: usize) -> (n: usize)
    ensures
        n == digit_run(bytes@, radix, max_chars as nat),
        is_digit_run(bytes@, radix, max_chars as nat, n as nat),
{
    let mut n: usize = 0;
    while n < max_chars && n < bytes.len() && radix.is_digit(bytes[n])
        invariant
            n <= max_chars,
            n <= bytes.len(),
            forall|i: int| 0 <= i < n ==> radix.accepts(#[trigger] bytes@[i]),
        decreases bytes.len() - n,
    {
        n += 1;
    }
    proof {
        lemma_digit_run_unique(bytes@, radix, max_chars as nat, n as nat);
    }
    n
}

} // verus!
