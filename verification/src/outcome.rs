//! What a parser hands back.

use crate::target::Target;
use vstd::prelude::*;

verus! {

/// Why an input is not a literal of the expected shape.
#[derive(Clone, Copy, Debug, PartialEq, Eq, Structural)]
pub enum Reason {
    /// The first two bytes are not the parser's prefix.
    PrefixMismatch,
    /// The digits run up to the very end of the input, so nothing shows
    /// where the literal stops.
    UnterminatedDigitRun,
    /// The byte after the prefix is no digit.
    NoDigits,
    /// The digits stand for a number beyond the range of the target type.
    NumericOverflow,
}

/// The result of one parse.
#[derive(Debug, PartialEq, Eq)]
pub enum Outcome<'a, T> {
    /// A literal was read: the unconsumed rest of the input, and the number.
    Complete(&'a [u8], T),
    /// The input is too short to decide; at least this many bytes are needed.
    Incomplete(usize),
    /// The input is not a literal of this parser.
    Malformed(Reason),
}

impl<'a, T: Copy> Clone for Outcome<'a, T> {
    fn clone(&self) -> (r: Self)
        ensures
            r == *self,
    {
        *self
    }
}

impl<'a, T: Copy> Copy for Outcome<'a, T> {

}

/// The mathematical content of an [`Outcome`].
pub enum Parsed {
    /// A literal was read.
    Complete { rest: Seq<u8>, value: int },
    /// More input is needed.
    Incomplete { needed: nat },
    /// The input is not a literal.
    Malformed { reason: Reason },
}

impl<'a, T: Target> View for Outcome<'a, T> {
    type V = Parsed;

    open spec fn view(&self) -> Parsed {
        match *self {
            Outcome::Complete(rest, v) => Parsed::Complete { rest: rest@, value: v.value() },
            Outcome::Incomplete(n) => Parsed::Incomplete { needed: n as nat },
            Outcome::Malformed(reason) => Parsed::Malformed { reason },
        }
    }
}

} // verus!
