//! Parsers for radix-prefixed integer literals (`0x`, `0o`, `0b`) over byte
//! slices.
//!
//! Each parser recognises the two-byte prefix, scans a bounded run of digits,
//! decodes it into a fixed-width integer and hands back the unconsumed rest of
//! the input.
#![allow(dead_code)]

pub mod digit;
pub mod outcome;
pub mod target;
pub mod scan;
pub mod value;
pub mod parse;
pub mod laws;
pub mod bin;
pub mod hex;
pub mod oct;
