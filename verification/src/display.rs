//! Seven-segment height display decoding.
//!
//! The controller reports its height on a three-digit seven-segment
//! display whose raw segment patterns arrive in the first two response
//! registers of every exchange.  Decoding is a pure function of those
//! two registers: a validity check on fixed bit masks, then a lookup of
//! each 7-bit segment code in a fixed pattern table.

use vstd::prelude::*;

verus! {

/// Segment-pattern table: maps a 7-bit segment code to its decimal digit.
pub open spec fn spec_decode_digit(value: u8) -> Option<u8> {
    match value & 0x7f {
        0b0111111u8 => Some(0u8),
        0b0000110u8 => Some(1u8),
        0b1011011u8 => Some(2u8),
        0b1001111u8 => Some(3u8),
        0b1100110u8 => Some(4u8),
        0b1101101u8 => Some(5u8),
        0b1111101u8 => Some(6u8),
        0b0000111u8 => Some(7u8),
        0b1111111u8 => Some(8u8),
        0b1101111u8 => Some(9u8),
        _ => None,
    }
}

/// Decoded height, in tenths of the engineering unit, for a register
/// pair; `None` when the masks or a segment pattern do not match.
pub open spec fn spec_decode(r0: u16, r1: u16) -> Option<u16> {
    if r0 & 0x8080 != 0x8000 || r1 & 0xff80 != 0 {
        None
    } else {
        let ones = spec_decode_digit((r0 & 0xff) as u8);
        let tens = spec_decode_digit(((r0 >> 8) & 0x7f) as u8);
        let hundreds = spec_decode_digit((r1 & 0xff) as u8);
        if ones is Some && tens is Some && hundreds is Some {
            Some((ones->0 + 10 * tens->0 + 100 * hundreds->0) as u16)
        } else {
            None
        }
    }
}

/// A decoded height is always in `[0, 999]`; a register pair violating
/// either bit mask never decodes.
pub proof fn lemma_decode_range(r0: u16, r1: u16)
    ensures
        spec_decode(r0, r1) matches Some(h) ==> h <= 999,
        r0 & 0x8080 != 0x8000 ==> spec_decode(r0, r1) is None,
        r1 & 0xff80 != 0 ==> spec_decode(r0, r1) is None,
{
}

/// Look up one 7-bit segment code in the pattern table.
pub fn decode_digit(value: u8) -> (r: Option<u8>)
    ensures
        r == spec_decode_digit(value),
{
    match value & 0x7f {
        0b0111111u8 => Some(0),
        0b0000110u8 => Some(1),
        0b1011011u8 => Some(2),
        0b1001111u8 => Some(3),
        0b1100110u8 => Some(4),
        0b1101101u8 => Some(5),
        0b1111101u8 => Some(6),
        0b0000111u8 => Some(7),
        0b1111111u8 => Some(8),
        0b1101111u8 => Some(9),
        _ => None,
    }
}

/// Decode the first two response registers into a height in tenths.
pub fn decode(values: &[u16; 2]) -> (r: Option<u16>)
    ensures
        r == spec_decode(values[0], values[1]),
{
    let r0 = values[0];
    let r1 = values[1];
    if r0 & 0x8080 != 0x8000 || r1 & 0xff80 != 0 {
        None
    } else {
        let ones = decode_digit((r0 & 0xff) as u8);
        let tens = decode_digit(((r0 >> 8) & 0x7f) as u8);
        let hundreds = decode_digit((r1 & 0xff) as u8);
        match (ones, tens, hundreds) {
            (Some(o), Some(t), Some(h)) => Some(o as u16 + 10 * t as u16 + 100 * h as u16),
            _ => None,
        }
    }
}

} // verus!
