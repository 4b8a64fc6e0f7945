//! Colours as they are written in a configuration: `#RRGGBB` or `#RRGGBBAA`,
//! read into one 32-bit ARGB value.

use vstd::prelude::*;
use crate::text::{
    strip_leading, strip_trailing, trim, trimmed, without_leading, without_trailing,
};

verus! {

/// Alpha of a colour that is written without one.
pub const DEFAULT_ALPHA: u32 = 0xA0;

/// The colour that stands for text too short to hold one.
pub const FALLBACK_COLOR: u32 = 0xA0FF7800;

/// The text of the colour itself: `bytes` without the white space around it,
/// then without the double quotes around that, then without leading `#`.
pub open spec fn cleaned(bytes: Seq<u8>) -> Seq<u8> {
    let unquoted = without_trailing(without_leading(trimmed(bytes), 0x22), 0x22);
    without_leading(unquoted, 0x23)
}

/// Value of one hexadecimal digit, in either case.
pub open spec fn hex_digit(a: u8) -> Option<u32> {
    if 0x30 <= a && a <= 0x39 {
        Some((a - 0x30) as u32)
    } else if 0x41 <= a && a <= 0x46 {
        Some((a - 0x41 + 10) as u32)
    } else if 0x61 <= a && a <= 0x66 {
        Some((a - 0x61 + 10) as u32)
    } else {
        None
    }
}

/// Value of two bytes read as a hexadecimal number: two digits, or a plus sign
/// and one digit.
pub open spec fn hex_pair(a: u8, b: u8) -> Option<u32> {
    if a == 0x2B {
        hex_digit(b)
    } else if hex_digit(a).is_some() && hex_digit(b).is_some() {
        Some((hex_digit(a).unwrap() * 16 + hex_digit(b).unwrap()) as u32)
    } else {
        None
    }
}

pub open spec fn channel(text: Seq<u8>, at: int, fallback: u32) -> u32 {
    match hex_pair(text[at], text[at + 1]) {
        Some(value) => value,
        None => fallback,
    }
}

pub open spec fn argb(alpha: u32, red: u32, green: u32, blue: u32) -> u32 {
    (alpha << 24) | (red << 16) | (green << 8) | blue
}

/// The colour that cleaned text holds. Six bytes or more give red, green and
/// blue, each zero where its two bytes are no number. The alpha is read from
/// text of exactly eight bytes; otherwise, or where it is no number, it is
/// `DEFAULT_ALPHA`. Shorter text gives `FALLBACK_COLOR`.
pub open spec fn color_of_text(text: Seq<u8>) -> u32 {
    if text.len() >= 6 {
        argb(
            if text.len() == 8 {
                channel(text, 6, DEFAULT_ALPHA)
            } else {
                DEFAULT_ALPHA
            },
            channel(text, 0, 0),
            channel(text, 2, 0),
            channel(text, 4, 0),
        )
    } else {
        FALLBACK_COLOR
    }
}

/// The colour that a configuration value holds.
pub open spec fn color_of(bytes: Seq<u8>) -> u32 {
    color_of_text(cleaned(bytes))
}

fn digit_value(a: u8) -> (value: Option<u32>)
    ensures
        value == hex_digit(a),
{
    if 0x30 <= a && a <= 0x39 {
        Some((a - 0x30) as u32)
    } else if 0x41 <= a && a <= 0x46 {
        Some((a - 0x41 + 10) as u32)
    } else if 0x61 <= a && a <= 0x66 {
        Some((a - 0x61 + 10) as u32)
    } else {
        None
    }
}

fn read_channel(bytes: &[u8], at: usize, fallback: u32) -> (value: u32)
    requires
        at + 1 < bytes@.len(),
        fallback <= 0xFF,
    ensures
        value == channel(bytes@, at as int, fallback),
        value <= 0xFF,
{
    let a: u8 = bytes[at];
    let b: u8 = bytes[at + 1];
    let low = digit_value(b);
    if a == 0x2B {
        match low {
            Some(value) => value,
            None => fallback,
        }
    } else {
        match (digit_value(a), low) {
            (Some(high), Some(low)) => high * 16 + low,
            _ => fallback,
        }
    }
}

/// Reads the colour that the UTF-8 text `bytes` holds.
pub fn parse_color_bytes(bytes: &[u8]) -> (color: u32)
    ensures
        color == color_of(bytes@),
{
    let unquoted = strip_trailing(strip_leading(trim(bytes), 0x22), 0x22);
    let text = strip_leading(unquoted, 0x23);
    if text.len() >= 6 {
        let red = read_channel(text, 0, 0);
        let green = read_channel(text, 2, 0);
        let blue = read_channel(text, 4, 0);
        let alpha = if text.len() == 8 {
            read_channel(text, 6, DEFAULT_ALPHA)
        } else {
            DEFAULT_ALPHA
        };
        (alpha << 24) | (red << 16) | (green << 8) | blue
    } else {
        FALLBACK_COLOR
    }
}

} // verus!
