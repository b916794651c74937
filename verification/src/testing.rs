//! Helpers for checking emulator state against reference execution logs.
//! The log reader itself is host I/O; what belongs here is the pure parsing
//! of a log's processor-flag field and the comparison guard.

use vstd::prelude::*;
use vstd::string::StringSliceAdditionalSpecFns;

verus! {

/// 1 when the byte is an ASCII capital letter, else 0: a log writes a set
/// flag as its capital letter.
pub open spec fn flag_letter_set(b: u8) -> u8 {
    if 65 <= b && b <= 90 {
        1
    } else {
        0
    }
}

/// The processor-status byte an 8-letter log field denotes, letters in
/// N V U B D I Z C order; the unused bit reads as 1.
pub open spec fn spec_parse_processor_flags(s: Seq<u8>) -> u8 {
    flag_letter_set(s[0]) << 7 | flag_letter_set(s[1]) << 6 | 1u8 << 5 | flag_letter_set(s[3])
        << 4 | flag_letter_set(s[4]) << 3 | flag_letter_set(s[5]) << 2 | flag_letter_set(s[6])
        << 1 | flag_letter_set(s[7])
}

/// Parses the processor-flag field of a reference log line: one letter per
/// flag, capital when set.
pub fn parse_processor_flags(flags: &str) -> (r: u8)
    requires
        flags.spec_bytes().len() >= 8,
    ensures
        r == spec_parse_processor_flags(flags.spec_bytes()),
{
    let bytes = flags.as_bytes();
    let n: u8 = if bytes[0] >= 65 && bytes[0] <= 90 {
        1
    } else {
        0
    };
    let v: u8 = if bytes[1] >= 65 && bytes[1] <= 90 {
        1
    } else {
        0
    };
    let b: u8 = if bytes[3] >= 65 && bytes[3] <= 90 {
        1
    } else {
        0
    };
    let d: u8 = if bytes[4] >= 65 && bytes[4] <= 90 {
        1
    } else {
        0
    };
    let i: u8 = if bytes[5] >= 65 && bytes[5] <= 90 {
        1
    } else {
        0
    };
    let z: u8 = if bytes[6] >= 65 && bytes[6] <= 90 {
        1
    } else {
        0
    };
    let c: u8 = if bytes[7] >= 65 && bytes[7] <= 90 {
        1
    } else {
        0
    };
    n << 7 | v << 6 | 1u8 << 5 | b << 4 | d << 3 | i << 2 | z << 1 | c
}

/// Guard for a log comparison: callers establish the match before moving
/// on, so a mismatch can never pass silently.
pub fn check_attribute(is_equal: bool, name: &str)
    requires
        is_equal,
    ensures
        is_equal,
{
}

} // verus!
