//! Colors given as six hexadecimal digits, decoded into three 8-bit channels.

use vstd::prelude::*;

verus! {

/// A 24-bit RGB color: one 8-bit value per channel.
#[derive(Clone, Copy, Debug, PartialEq, Eq, Structural)]
pub struct Color {
    pub red: u8,
    pub green: u8,
    pub blue: u8,
}

/// A hexadecimal digit: `0`-`9`, `a`-`f` or `A`-`F`.
pub open spec fn is_hex_digit(c: char) -> bool {
    ('0' as u32 <= c as u32 && c as u32 <= '9' as u32)
        || ('a' as u32 <= c as u32 && c as u32 <= 'f' as u32)
        || ('A' as u32 <= c as u32 && c as u32 <= 'F' as u32)
}

/// The numeric value of a hexadecimal digit.
pub open spec fn hex_digit_value(c: char) -> nat {
    if '0' as u32 <= c as u32 && c as u32 <= '9' as u32 {
        (c as u32 - '0' as u32) as nat
    } else if 'a' as u32 <= c as u32 && c as u32 <= 'f' as u32 {
        (c as u32 - 'a' as u32 + 10) as nat
    } else {
        (c as u32 - 'A' as u32 + 10) as nat
    }
}

/// A well-formed color string: exactly six hexadecimal digits, nothing more.
pub open spec fn valid_hex_color(s: Seq<char>) -> bool {
    s.len() == 6 && forall|i: int| 0 <= i < s.len() ==> is_hex_digit(#[trigger] s[i])
}

/// The value of two hexadecimal digits read as one byte.
pub open spec fn hex_pair_value(hi: char, lo: char) -> nat {
    16 * hex_digit_value(hi) + hex_digit_value(lo)
}

/// The red channel of a six-digit color string: its first two digits.
pub open spec fn red_of(s: Seq<char>) -> nat {
    hex_pair_value(s[0], s[1])
}

/// The green channel of a six-digit color string: its middle two digits.
pub open spec fn green_of(s: Seq<char>) -> nat {
    hex_pair_value(s[2], s[3])
}

/// The blue channel of a six-digit color string: its last two digits.
pub open spec fn blue_of(s: Seq<char>) -> nat {
    hex_pair_value(s[4], s[5])
}

/// The color a six-digit hexadecimal string denotes.
pub open spec fn color_of(s: Seq<char>) -> Color {
    Color { red: red_of(s) as u8, green: green_of(s) as u8, blue: blue_of(s) as u8 }
}

/// The 24-bit value a six-digit hexadecimal string denotes, read base 16,
/// most significant digit first.
pub open spec fn hex_value(s: Seq<char>) -> nat {
    hex_digit_value(s[0]) * 0x100000 + hex_digit_value(s[1]) * 0x10000 + hex_digit_value(s[2])
        * 0x1000 + hex_digit_value(s[3]) * 0x100 + hex_digit_value(s[4]) * 0x10 + hex_digit_value(
        s[5],
    )
}

/// The channels are the three bytes of the 24-bit value the string denotes:
/// red is bits 16-23, green bits 8-15, blue bits 0-7.
pub proof fn lemma_channels_are_bytes_of_value(s: Seq<char>)
    requires
        valid_hex_color(s),
    ensures
        hex_value(s) < 0x1000000,
        red_of(s) == hex_value(s) / 0x10000,
        green_of(s) == (hex_value(s) / 0x100) % 0x100,
        blue_of(s) == hex_value(s) % 0x100,
        color_of(s).red == red_of(s),
        color_of(s).green == green_of(s),
        color_of(s).blue == blue_of(s),
{
    let r = red_of(s);
    let g = green_of(s);
    let b = blue_of(s);
    assert(r < 256 && g < 256 && b < 256);
    assert(hex_value(s) == r * 0x10000 + g * 0x100 + b);
    assert((r * 0x10000 + g * 0x100 + b) / 0x10000 == r) by (nonlinear_arith)
        requires
            r < 256 && g < 256 && b < 256,
    ;
    assert(((r * 0x10000 + g * 0x100 + b) / 0x100) % 0x100 == g) by (nonlinear_arith)
        requires
            r < 256 && g < 256 && b < 256,
    ;
    assert((r * 0x10000 + g * 0x100 + b) % 0x100 == b) by (nonlinear_arith)
        requires
            r < 256 && g < 256 && b < 256,
    ;
}

/// Decode one character as a hexadecimal digit, rejecting every other
/// character.
pub fn hex_digit(c: char) -> (r: Option<u8>)
    ensures
        r is Some <==> is_hex_digit(c),
        r matches Some(d) ==> d == hex_digit_value(c) && d < 16,
{
    let u = c as u32;
    if 48 <= u && u <= 57 {
        Some((u - 48) as u8)
    } else if 97 <= u && u <= 102 {
        Some((u - 97 + 10) as u8)
    } else if 65 <= u && u <= 70 {
        Some((u - 65 + 10) as u8)
    } else {
        None
    }
}

/// Decode a color string: accepted exactly when it consists of six
/// hexadecimal digits, in which case the channels are the three digit pairs,
/// high digits first.
pub fn parse_color(s: &str) -> (r: Option<Color>)
    ensures
        r is Some <==> valid_hex_color(s@),
        r matches Some(c) ==> c == color_of(s@) && c.red == red_of(s@) && c.green == green_of(
            s@,
        ) && c.blue == blue_of(s@),
{
    let n = s.unicode_len();
    if n != 6 {
        return None;
    }
    let d0 = hex_digit(s.get_char(0));
    let d1 = hex_digit(s.get_char(1));
    let d2 = hex_digit(s.get_char(2));
    let d3 = hex_digit(s.get_char(3));
    let d4 = hex_digit(s.get_char(4));
    let d5 = hex_digit(s.get_char(5));
    match (d0, d1, d2, d3, d4, d5) {
        (Some(h0), Some(h1), Some(h2), Some(h3), Some(h4), Some(h5)) => {
            proof {
                assert forall|i: int| 0 <= i < s@.len() implies is_hex_digit(s@[i]) by {
                    if i == 0 {
                    } else if i == 1 {
                    } else if i == 2 {
                    } else if i == 3 {
                    } else if i == 4 {
                    } else {
                        assert(i == 5);
                    }
                }
            }
            Some(Color { red: 16 * h0 + h1, green: 16 * h2 + h3, blue: 16 * h4 + h5 })
        },
        _ => None,
    }
}

} // verus!
