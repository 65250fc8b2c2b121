//! The fixed palette: 32 opaque reference colors, each written as a
//! six-digit hexadecimal RGB string and parsed at construction time.

use vstd::prelude::*;
use crate::color::Color;

verus! {

/// `c` is one of the characters `0`-`9`, `a`-`f` or `A`-`F`.
pub open spec fn is_hex_digit(c: char) -> bool {
    ('0' <= c && c <= '9') || ('a' <= c && c <= 'f') || ('A' <= c && c <= 'F')
}

/// The numeric value of a hexadecimal digit character.
pub open spec fn hex_digit_value(c: char) -> int {
    if '0' <= c && c <= '9' {
        c as int - '0' as int
    } else if 'a' <= c && c <= 'f' {
        c as int - 'a' as int + 10
    } else {
        c as int - 'A' as int + 10
    }
}

/// The byte encoded by two hexadecimal digit characters, high digit first.
pub open spec fn hex_byte_value(hi: char, lo: char) -> int {
    16 * hex_digit_value(hi) + hex_digit_value(lo)
}

fn hex_digit(c: char) -> (v: u8)
    requires
        is_hex_digit(c),
    ensures
        v == hex_digit_value(c),
        v < 16,
{
    if '0' <= c && c <= '9' {
        (c as u32 - '0' as u32) as u8
    } else if 'a' <= c && c <= 'f' {
        (c as u32 - 'a' as u32 + 10) as u8
    } else {
        (c as u32 - 'A' as u32 + 10) as u8
    }
}

/// Parses a six-digit hexadecimal RGB string such as `"ff4500"` into a
/// fully opaque color.
pub fn hex_to_rgb_vec(hex_str: &str) -> (c: Color)
    requires
        hex_str@.len() == 6,
        is_hex_digit(hex_str@[0]),
        is_hex_digit(hex_str@[1]),
        is_hex_digit(hex_str@[2]),
        is_hex_digit(hex_str@[3]),
        is_hex_digit(hex_str@[4]),
        is_hex_digit(hex_str@[5]),
    ensures
        c.r == hex_byte_value(hex_str@[0], hex_str@[1]),
        c.g == hex_byte_value(hex_str@[2], hex_str@[3]),
        c.b == hex_byte_value(hex_str@[4], hex_str@[5]),
        c.a == 255,
{
    let r: u8 = 16 * hex_digit(hex_str.get_char(0)) + hex_digit(hex_str.get_char(1));
    let g: u8 = 16 * hex_digit(hex_str.get_char(2)) + hex_digit(hex_str.get_char(3));
    let b: u8 = 16 * hex_digit(hex_str.get_char(4)) + hex_digit(hex_str.get_char(5));
    Color { r, g, b, a: 255 }
}

/// The palette as a sequence of colors, in tie-break priority order.
pub open spec fn spec_reddit_palette() -> Seq<Color> {
    seq![
        Color { r: 0x6d, g: 0x00, b: 0x1a, a: 255 },
        Color { r: 0xbe, g: 0x00, b: 0x39, a: 255 },
        Color { r: 0xff, g: 0x45, b: 0x00, a: 255 },
        Color { r: 0xff, g: 0xa8, b: 0x00, a: 255 },
        Color { r: 0xff, g: 0xd6, b: 0x35, a: 255 },
        Color { r: 0xff, g: 0xf8, b: 0xb8, a: 255 },
        Color { r: 0x00, g: 0xa3, b: 0x68, a: 255 },
        Color { r: 0x00, g: 0xcc, b: 0x78, a: 255 },
        Color { r: 0x7e, g: 0xed, b: 0x56, a: 255 },
        Color { r: 0x00, g: 0x75, b: 0x6f, a: 255 },
        Color { r: 0x00, g: 0x9e, b: 0xaa, a: 255 },
        Color { r: 0x00, g: 0xcc, b: 0xc0, a: 255 },
        Color { r: 0x24, g: 0x50, b: 0xa4, a: 255 },
        Color { r: 0x36, g: 0x90, b: 0xea, a: 255 },
        Color { r: 0x51, g: 0xe9, b: 0xf4, a: 255 },
        Color { r: 0x49, g: 0x3a, b: 0xc1, a: 255 },
        Color { r: 0x6a, g: 0x5c, b: 0xff, a: 255 },
        Color { r: 0x94, g: 0xb3, b: 0xff, a: 255 },
        Color { r: 0x81, g: 0x1e, b: 0x9f, a: 255 },
        Color { r: 0xb4, g: 0x4a, b: 0xc0, a: 255 },
        Color { r: 0xe4, g: 0xab, b: 0xff, a: 255 },
        Color { r: 0xde, g: 0x10, b: 0x7f, a: 255 },
        Color { r: 0xff, g: 0x38, b: 0x81, a: 255 },
        Color { r: 0xff, g: 0x99, b: 0xaa, a: 255 },
        Color { r: 0x6d, g: 0x48, b: 0x2f, a: 255 },
        Color { r: 0x9c, g: 0x69, b: 0x26, a: 255 },
        Color { r: 0xff, g: 0xb4, b: 0x70, a: 255 },
        Color { r: 0x00, g: 0x00, b: 0x00, a: 255 },
        Color { r: 0x51, g: 0x52, b: 0x52, a: 255 },
        Color { r: 0x89, g: 0x8d, b: 0x90, a: 255 },
        Color { r: 0xd4, g: 0xd7, b: 0xd9, a: 255 },
        Color { r: 0xff, g: 0xff, b: 0xff, a: 255 },
    ]
}

fn push_hex(colors: &mut Vec<Color>, hex_str: &str)
    requires
        hex_str@.len() == 6,
        is_hex_digit(hex_str@[0]),
        is_hex_digit(hex_str@[1]),
        is_hex_digit(hex_str@[2]),
        is_hex_digit(hex_str@[3]),
        is_hex_digit(hex_str@[4]),
        is_hex_digit(hex_str@[5]),
    ensures
        final(colors)@ == old(colors)@.push(
            Color {
                r: hex_byte_value(hex_str@[0], hex_str@[1]) as u8,
                g: hex_byte_value(hex_str@[2], hex_str@[3]) as u8,
                b: hex_byte_value(hex_str@[4], hex_str@[5]) as u8,
                a: 255,
            },
        ),
{
    let c = hex_to_rgb_vec(hex_str);
    colors.push(c);
}

/// Builds the fixed 32-entry palette, every entry fully opaque, in the
/// order that decides ties.
pub fn reddit_palette() -> (palette: Vec<Color>)
    ensures
        palette@ == spec_reddit_palette(),
        palette@.len() == 32,
{
    let mut colors: Vec<Color> = Vec::new();
    proof {
        reveal_strlit("6d001a");
        reveal_strlit("be0039");
        reveal_strlit("ff4500");
        reveal_strlit("ffa800");
        reveal_strlit("ffd635");
        reveal_strlit("fff8b8");
        reveal_strlit("00a368");
        reveal_strlit("00cc78");
        reveal_strlit("7eed56");
        reveal_strlit("00756f");
        reveal_strlit("009eaa");
        reveal_strlit("00ccc0");
        reveal_strlit("2450a4");
        reveal_strlit("3690ea");
        reveal_strlit("51e9f4");
        reveal_strlit("493ac1");
    }
    push_hex(&mut colors, "6d001a");
    push_hex(&mut colors, "be0039");
    push_hex(&mut colors, "ff4500");
    push_hex(&mut colors, "ffa800");
    push_hex(&mut colors, "ffd635");
    push_hex(&mut colors, "fff8b8");
    push_hex(&mut colors, "00a368");
    push_hex(&mut colors, "00cc78");
    push_hex(&mut colors, "7eed56");
    push_hex(&mut colors, "00756f");
    push_hex(&mut colors, "009eaa");
    push_hex(&mut colors, "00ccc0");
    push_hex(&mut colors, "2450a4");
    push_hex(&mut colors, "3690ea");
    push_hex(&mut colors, "51e9f4");
    push_hex(&mut colors, "493ac1");
    proof {
        reveal_strlit("6a5cff");
        reveal_strlit("94b3ff");
        reveal_strlit("811e9f");
        reveal_strlit("b44ac0");
        reveal_strlit("e4abff");
        reveal_strlit("de107f");
        reveal_strlit("ff3881");
        reveal_strlit("ff99aa");
        reveal_strlit("6d482f");
        reveal_strlit("9c6926");
        reveal_strlit("ffb470");
        reveal_strlit("000000");
        reveal_strlit("515252");
        reveal_strlit("898d90");
        reveal_strlit("d4d7d9");
        reveal_strlit("ffffff");
    }
    push_hex(&mut colors, "6a5cff");
    push_hex(&mut colors, "94b3ff");
    push_hex(&mut colors, "811e9f");
    push_hex(&mut colors, "b44ac0");
    push_hex(&mut colors, "e4abff");
    push_hex(&mut colors, "de107f");
    push_hex(&mut colors, "ff3881");
    push_hex(&mut colors, "ff99aa");
    push_hex(&mut colors, "6d482f");
    push_hex(&mut colors, "9c6926");
    push_hex(&mut colors, "ffb470");
    push_hex(&mut colors, "000000");
    push_hex(&mut colors, "515252");
    push_hex(&mut colors, "898d90");
    push_hex(&mut colors, "d4d7d9");
    push_hex(&mut colors, "ffffff");
    proof {
        assert(colors@ =~= spec_reddit_palette());
    }
    colors
}

} // verus!
