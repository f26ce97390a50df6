//! The integer types a literal can be decoded into.

use vstd::prelude::*;

verus! {

/// A fixed-width integer type that a literal can be decoded into.
///
/// A literal carries no sign, so only the non-negative part of a signed
/// type is ever produced.
pub trait Target: Copy {
    /// The mathematical integer that a value of the type stands for.
    spec fn value(self) -> int;

    /// The largest number the type can hold.
    spec fn ceiling() -> nat;

    /// The largest number the type can hold, as a machine integer.
    fn limit() -> (m: u64)
        ensures
            m == Self::ceiling(),
    ;

    /// Narrows a number that fits into the type.
    fn from_u64(v: u64) -> (t: Self)
        requires
            v <= Self::ceiling(),
        ensures
            t.value() == v,
    ;
}

impl Target for u8 {
    open spec fn value(self) -> int {
        self as int
    }

    open spec fn ceiling() -> nat {
        0xff
    }

    fn limit() -> (m: u64) {
        0xff
    }

    fn from_u64(v: u64) -> (t: u8) {
        v as u8
    }
}

impl Target for u16 {
    open spec fn value(self) -> int {
        self as int
    }

    open spec fn ceiling() -> nat {
        0xffff
    }

    fn limit() -> (m: u64) {
        0xffff
    }

    fn from_u64(v: u64) -> (t: u16) {
        v as u16
    }
}

impl Target for u32 {
    open spec fn value(self) -> int {
        self as int
    }

    open spec fn ceiling() -> nat {
        0xffff_ffff
    }

    fn limit() -> (m: u64) {
        0xffff_ffff
    }

    fn from_u64(v: u64) -> (t: u32) {
        v as u32
    }
}

impl Target for u64 {
    open spec fn value(self) -> int {
        self as int
    }

    open spec fn ceiling() -> nat {
        0xffff_ffff_ffff_ffff
    }

    fn limit() -> (m: u64) {
        0xffff_ffff_ffff_ffff
    }

    fn from_u64(v: u64) -> (t: u64) {
        v
    }
}

impl Target for i8 {
    open spec fn value(self) -> int {
        self as int
    }

    open spec fn ceiling() -> nat {
        0x7f
    }

    fn limit() -> (m: u64) {
        0x7f
    }

    fn from_u64(v: u64) -> (t: i8) {
        v as i8
    }
}

impl Target for i16 {
    open spec fn value(self) -> int {
        self as int
    }

    open spec fn ceiling() -> nat {
        0x7fff
    }

    fn limit() -> (m: u64) {
        0x7fff
    }

    fn from_u64(v: u64) -> (t: i16) {
        v as i16
    }
}

impl Target for i32 {
    open spec fn value(self) -> int {
        self as int
    }

    open spec fn ceiling() -> nat {
        0x7fff_ffff
    }

    fn limit() -> (m: u64) {
        0x7fff_ffff
    }

    fn from_u64(v: u64) -> (t: i32) {
        v as i32
    }
}

impl Target for i64 {
    open spec fn value(self) -> int {
        self as int
    }

    open spec fn ceiling() -> nat {
        0x7fff_ffff_ffff_ffff
    }

    fn limit() -> (m: u64) {
        0x7fff_ffff_ffff_ffff
    }

    fn from_u64(v: u64) -> (t: i64) {
        v as i64
    }
}

} // verus!
