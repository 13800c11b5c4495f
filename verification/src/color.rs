//! Hex color codes of the theme files (`#rgb`, `#rrggbb`, `#rrggbbaa`).

use vstd::prelude::*;
use crate::text::{trim, trim_spec};

verus! {

/// A color with 8-bit channels; alpha 255 is opaque.
#[derive(Debug, Clone, Copy, PartialEq, Eq, Structural)]
pub struct Rgba8 {
    pub r: u8,
    pub g: u8,
    pub b: u8,
    pub a: u8,
}

/// The value of a hexadecimal digit.
pub open spec fn hex_value(c: char) -> Option<u8> {
    if '0' <= c <= '9' {
        Some(((c as int) - ('0' as int)) as u8)
    } else if 'a' <= c <= 'f' {
        Some(((c as int) - ('a' as int) + 10) as u8)
    } else if 'A' <= c <= 'F' {
        Some(((c as int) - ('A' as int) + 10) as u8)
    } else {
        None
    }
}

/// The byte that two characters spell in base 16, as `u8::from_str_radix`
/// reads them: two hex digits, or `+` followed by one hex digit.
pub open spec fn hex_byte(c0: char, c1: char) -> Option<u8> {
    if c0 == '+' {
        hex_value(c1)
    } else {
        match (hex_value(c0), hex_value(c1)) {
            (Some(h), Some(l)) => Some((h * 16 + l) as u8),
            _ => None,
        }
    }
}

/// Whether all characters of `s` are ASCII.
pub open spec fn all_ascii(s: Seq<char>) -> bool {
    forall|i: int| 0 <= i < s.len() ==> '\0' <= #[trigger] s[i] <= '\u{7f}'
}

/// The color that an ASCII hex code spells: 6 digits (opaque), 8 digits
/// (with alpha) or 3 digits (each doubled, opaque).
pub open spec fn hex_color(h: Seq<char>) -> Option<Rgba8> {
    if h.len() == 6 {
        match (hex_byte(h[0], h[1]), hex_byte(h[2], h[3]), hex_byte(h[4], h[5])) {
            (Some(r), Some(g), Some(b)) => Some(Rgba8 { r, g, b, a: 255 }),
            _ => None,
        }
    } else if h.len() == 8 {
        match (hex_byte(h[0], h[1]), hex_byte(h[2], h[3]), hex_byte(h[4], h[5]), hex_byte(h[6], h[7])) {
            (Some(r), Some(g), Some(b), Some(a)) => Some(Rgba8 { r, g, b, a }),
            _ => None,
        }
    } else if h.len() == 3 {
        match (hex_byte(h[0], h[0]), hex_byte(h[1], h[1]), hex_byte(h[2], h[2])) {
            (Some(r), Some(g), Some(b)) => Some(Rgba8 { r, g, b, a: 255 }),
            _ => None,
        }
    } else {
        None
    }
}

fn hex_value_of(c: char) -> (r: Option<u8>)
    ensures
        r == hex_value(c),
{
    if '0' <= c && c <= '9' {
        Some((c as u8) - 48)
    } else if 'a' <= c && c <= 'f' {
        Some((c as u8) - 97 + 10)
    } else if 'A' <= c && c <= 'F' {
        Some((c as u8) - 65 + 10)
    } else {
        None
    }
}

fn hex_byte_of(c0: char, c1: char) -> (r: Option<u8>)
    ensures
        r == hex_byte(c0, c1),
{
    if c0 == '+' {
        hex_value_of(c1)
    } else {
        match (hex_value_of(c0), hex_value_of(c1)) {
            (Some(h), Some(l)) => Some(h * 16 + l),
            _ => None,
        }
    }
}

/// Parses the part of a color code after `#`, ignoring surrounding white
/// space: the color of [`hex_color`] for an ASCII code, `None` for any
/// code with a non-ASCII character.
pub fn parse_hex(hex: &str) -> (r: Option<Rgba8>)
    ensures
        r == if all_ascii(trim_spec(hex@)) { hex_color(trim_spec(hex@)) } else { None },
{
    let h = trim(hex);
    if !h.is_ascii() {
        proof {
            assert(!all_ascii(h@));
        }
        return None;
    }
    proof {
        assert(all_ascii(h@));
    }
    let n = h.unicode_len();
    if n == 6 {
        let r = hex_byte_of(h.get_char(0), h.get_char(1));
        let g = hex_byte_of(h.get_char(2), h.get_char(3));
        let b = hex_byte_of(h.get_char(4), h.get_char(5));
        match (r, g, b) {
            (Some(r), Some(g), Some(b)) => Some(Rgba8 { r, g, b, a: 255 }),
            _ => None,
        }
    } else if n == 8 {
        let r = hex_byte_of(h.get_char(0), h.get_char(1));
        let g = hex_byte_of(h.get_char(2), h.get_char(3));
        let b = hex_byte_of(h.get_char(4), h.get_char(5));
        let a = hex_byte_of(h.get_char(6), h.get_char(7));
        match (r, g, b, a) {
            (Some(r), Some(g), Some(b), Some(a)) => Some(Rgba8 { r, g, b, a }),
            _ => None,
        }
    } else if n == 3 {
        let c0 = h.get_char(0);
        let c1 = h.get_char(1);
        let c2 = h.get_char(2);
        let r = hex_byte_of(c0, c0);
        let g = hex_byte_of(c1, c1);
        let b = hex_byte_of(c2, c2);
        match (r, g, b) {
            (Some(r), Some(g), Some(b)) => Some(Rgba8 { r, g, b, a: 255 }),
            _ => None,
        }
    } else {
        None
    }
}

/// Hex digits have their usual values: `0`-`9` are 0-9, and `a`-`f` and
/// `A`-`F` are 10-15; no other character is a digit.
pub proof fn law_hex_digit_values(c: char)
    ensures
        hex_value('0') == Some(0u8) && hex_value('1') == Some(1u8) && hex_value('2') == Some(2u8) && hex_value('3')
            == Some(3u8) && hex_value('4') == Some(4u8) && hex_value('5') == Some(5u8) && hex_value('6') == Some(6u8)
            && hex_value('7') == Some(7u8) && hex_value('8') == Some(8u8) && hex_value('9') == Some(9u8),
        hex_value('a') == Some(10u8) && hex_value('b') == Some(11u8) && hex_value('c') == Some(12u8) && hex_value('d')
            == Some(13u8) && hex_value('e') == Some(14u8) && hex_value('f') == Some(15u8),
        hex_value('A') == Some(10u8) && hex_value('B') == Some(11u8) && hex_value('C') == Some(12u8) && hex_value('D')
            == Some(13u8) && hex_value('E') == Some(14u8) && hex_value('F') == Some(15u8),
        !('0' <= c <= '9' || 'a' <= c <= 'f' || 'A' <= c <= 'F') ==> hex_value(c) is None,
        hex_value(c) matches Some(v) ==> v < 16,
{
}

/// Two hex digits spell high digit times 16 plus low digit.
pub proof fn law_hex_byte_is_two_digits(c0: char, c1: char)
    requires
        c0 != '+',
    ensures
        hex_byte(c0, c1) == (match (hex_value(c0), hex_value(c1)) {
            (Some(h), Some(l)) => Some((16 * h + l) as u8),
            _ => None,
        }),
        hex_byte(c0, c1) matches Some(b) ==> b as int == 16 * (hex_value(c0)->0 as int) + hex_value(c1)->0 as int,
{
}

/// Each channel of a code is the byte of its own pair of digits, in the
/// order red, green, blue, alpha: a 6-digit code is opaque; an 8-digit code
/// has the colour of its first six digits and the alpha of its last two; a
/// 3-digit code is the 6-digit code with each digit doubled.
pub proof fn law_hex_channels(h: Seq<char>)
    ensures
        h.len() == 6 ==> hex_color(h) == (if hex_byte(h[0], h[1]) is Some && hex_byte(h[2], h[3]) is Some
            && hex_byte(h[4], h[5]) is Some {
            Some(
                Rgba8 {
                    r: hex_byte(h[0], h[1])->0,
                    g: hex_byte(h[2], h[3])->0,
                    b: hex_byte(h[4], h[5])->0,
                    a: 255,
                },
            )
        } else {
            None
        }),
        h.len() == 8 ==> hex_color(h) == (match (hex_color(h.take(6)), hex_byte(h[6], h[7])) {
            (Some(c), Some(a)) => Some(Rgba8 { a, ..c }),
            _ => None,
        }),
        h.len() == 3 ==> hex_color(h) == hex_color(seq![h[0], h[0], h[1], h[1], h[2], h[2]]),
{
    if h.len() == 8 {
        let t = h.take(6);
        assert(t[0] == h[0] && t[1] == h[1] && t[2] == h[2] && t[3] == h[3] && t[4] == h[4] && t[5] == h[5]);
    }
}

} // verus!
