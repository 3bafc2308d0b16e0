use vstd::prelude::*;

use crate::shapes::Color;

verus! {

/// ASCII codes of the characters that a colour text is read from.
pub const CHAR_0: u8 = 0x30;
pub const CHAR_9: u8 = 0x39;
pub const CHAR_LOWER_A: u8 = 0x61;
pub const CHAR_LOWER_F: u8 = 0x66;
pub const CHAR_UPPER_A: u8 = 0x41;
pub const CHAR_UPPER_F: u8 = 0x46;
pub const CHAR_PLUS: u8 = 0x2b;

/// The value of one hexadecimal digit, in either case.
pub open spec fn hex_value(c: u8) -> Option<u8> {
    if CHAR_0 <= c <= CHAR_9 {
        Some((c - CHAR_0) as u8)
    } else if CHAR_LOWER_A <= c <= CHAR_LOWER_F {
        Some((c - CHAR_LOWER_A + 10) as u8)
    } else if CHAR_UPPER_A <= c <= CHAR_UPPER_F {
        Some((c - CHAR_UPPER_A + 10) as u8)
    } else {
        None
    }
}

/// A byte read, base 16, from two characters: two digits, or a plus sign
/// and one digit.
pub open spec fn pair_value(hi: u8, lo: u8) -> Option<u8> {
    if hi == CHAR_PLUS {
        hex_value(lo)
    } else {
        match (hex_value(hi), hex_value(lo)) {
            (Some(h), Some(l)) => Some((16 * h + l) as u8),
            _ => None,
        }
    }
}

/// The opaque colour that a `#rrggbb` text names; the first character is
/// not read, nor anything after the seventh.
pub open spec fn spec_hex_color(hex: Seq<u8>) -> Option<Color> {
    if hex.len() < 7 {
        None
    } else {
        match (
            pair_value(hex[1], hex[2]),
            pair_value(hex[3], hex[4]),
            pair_value(hex[5], hex[6]),
        ) {
            (Some(r), Some(g), Some(b)) => Some(Color { r, g, b, a: 255 }),
            _ => None,
        }
    }
}

fn hex_digit(c: u8) -> (r: Option<u8>)
    ensures
        r == hex_value(c),
{
    if CHAR_0 <= c && c <= CHAR_9 {
        Some(c - CHAR_0)
    } else if CHAR_LOWER_A <= c && c <= CHAR_LOWER_F {
        Some(c - CHAR_LOWER_A + 10)
    } else if CHAR_UPPER_A <= c && c <= CHAR_UPPER_F {
        Some(c - CHAR_UPPER_A + 10)
    } else {
        None
    }
}

fn hex_pair(hi: u8, lo: u8) -> (r: Option<u8>)
    ensures
        r == pair_value(hi, lo),
{
    if hi == CHAR_PLUS {
        hex_digit(lo)
    } else {
        match (hex_digit(hi), hex_digit(lo)) {
            (Some(h), Some(l)) => Some(16 * h + l),
            _ => None,
        }
    }
}

/// Reads a colour written `#rrggbb` (the text's bytes), fully opaque; `None`
/// where the text is too short or a channel is not a base-16 byte.
pub fn hex_str_to_rgba(hex: &[u8]) -> (r: Option<Color>)
    ensures
        r == spec_hex_color(hex@),
{
    if hex.len() < 7 {
        return None;
    }
    match (hex_pair(hex[1], hex[2]), hex_pair(hex[3], hex[4]), hex_pair(hex[5], hex[6])) {
        (Some(r), Some(g), Some(b)) => Some(Color { r, g, b, a: 255 }),
        _ => None,
    }
}

} // verus!
