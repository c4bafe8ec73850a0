//! Colours: `#RRGGBB` parsing with a white fallback, and painting text in
//! a 24-bit foreground colour.
use colored::Colorize;
use vstd::prelude::*;
use crate::text::{decimal, digit_char};

verus! {

/// A colour as red, green and blue channels.
pub type Rgb = (u8, u8, u8);

/// The colour that absent or malformed colour text falls back to.
pub open spec fn white() -> Rgb {
    (255u8, 255u8, 255u8)
}

pub open spec fn is_hex_digit(c: char) -> bool {
    ('0' <= c && c <= '9') || ('a' <= c && c <= 'f') || ('A' <= c && c <= 'F')
}

/// The value of a hexadecimal digit.
pub open spec fn hex_value(c: char) -> nat {
    if '0' <= c && c <= '9' {
        (c as nat - '0' as nat) as nat
    } else if 'a' <= c && c <= 'f' {
        (c as nat - 'a' as nat + 10) as nat
    } else {
        (c as nat - 'A' as nat + 10) as nat
    }
}

/// The byte written by two hexadecimal digits, high digit first.
pub open spec fn hex_byte(hi: char, lo: char) -> u8 {
    (hex_value(hi) * 16 + hex_value(lo)) as u8
}

/// Whether `s` is `#` followed by exactly six hexadecimal digits.
pub open spec fn is_hex_color(s: Seq<char>) -> bool {
    &&& s.len() == 7
    &&& s[0] == '#'
    &&& forall|i: int| 1 <= i < 7 ==> is_hex_digit(#[trigger] s[i])
}

/// The colour written as `#RRGGBB`, or nothing for any other text.
pub open spec fn parse_hex_color(s: Seq<char>) -> Option<Rgb> {
    if is_hex_color(s) {
        Some((hex_byte(s[1], s[2]), hex_byte(s[3], s[4]), hex_byte(s[5], s[6])))
    } else {
        None
    }
}

/// The colour that optional colour text stands for: white unless it is a
/// well-formed `#RRGGBB`.
pub open spec fn resolved_color(hex: Option<Seq<char>>) -> Rgb {
    match hex {
        Some(s) => match parse_hex_color(s) {
            Some(c) => c,
            None => white(),
        },
        None => white(),
    }
}

fn hex_digit(c: char) -> (r: Option<u8>)
    ensures
        r.is_some() == is_hex_digit(c),
        r.is_some() ==> r.unwrap() as nat == hex_value(c),
{
    if '0' <= c && c <= '9' {
        Some(((c as u32) - ('0' as u32)) as u8)
    } else if 'a' <= c && c <= 'f' {
        Some(((c as u32) - ('a' as u32) + 10) as u8)
    } else if 'A' <= c && c <= 'F' {
        Some(((c as u32) - ('A' as u32) + 10) as u8)
    } else {
        None
    }
}

fn hex_pair(s: &str, i: usize) -> (r: Option<u8>)
    requires
        i <= 5,
        i + 1 < s@.len(),
    ensures
        r.is_some() == (is_hex_digit(s@[i as int]) && is_hex_digit(s@[i + 1])),
        r.is_some() ==> r.unwrap() == hex_byte(s@[i as int], s@[i + 1]),
{
    let hi = hex_digit(s.get_char(i));
    let lo = hex_digit(s.get_char(i + 1));
    match (hi, lo) {
        (Some(h), Some(l)) => {
            assert(h * 16 + l < 256) by (nonlinear_arith)
                requires
                    h < 16,
                    l < 16,
            ;
            Some(h * 16 + l)
        },
        _ => None,
    }
}

/// Reads a colour written as `#RRGGBB` (digits in either case); any other
/// text gives `None`.
pub fn hex_to_rgb(hex: &str) -> (r: Option<Rgb>)
    ensures
        r == parse_hex_color(hex@),
{
    let n = hex.unicode_len();
    if n != 7 || hex.get_char(0) != '#' {
        return None;
    }
    let r = hex_pair(hex, 1);
    let g = hex_pair(hex, 3);
    let b = hex_pair(hex, 5);
    match (r, g, b) {
        (Some(r), Some(g), Some(b)) => {
            assert(is_hex_color(hex@)) by {
                assert forall|i: int| 1 <= i < 7 implies is_hex_digit(#[trigger] hex@[i]) by {
                    if i == 1 || i == 2 {
                    } else if i == 3 || i == 4 {
                    } else {
                    }
                }
            }
            Some((r, g, b))
        },
        _ => None,
    }
}

/// The colour for optional colour text, white where it is absent or
/// malformed.
pub fn resolve_color(hex: Option<&str>) -> (r: Rgb)
    ensures
        r == resolved_color(
            match hex {
                Some(s) => Some(s@),
                None => None,
            },
        ),
{
    match hex {
        Some(s) => match hex_to_rgb(s) {
            Some(c) => c,
            None => (255u8, 255u8, 255u8),
        },
        None => (255u8, 255u8, 255u8),
    }
}

/// The SGR parameters of a 24-bit foreground colour: `38;2;R;G;B`.
pub open spec fn truecolor_code(c: Rgb) -> Seq<char> {
    seq!['3', '8', ';', '2', ';'] + decimal(c.0 as nat) + seq![';'] + decimal(c.1 as nat) + seq![
        ';',
    ] + decimal(c.2 as nat)
}

/// The SGR parameters of one of the sixteen basic foreground colours
/// (`30`..`37`, `90`..`97`).
pub open spec fn basic_fg_code(code: Seq<char>) -> bool {
    exists|d: nat|
        d < 8 && (code == seq!['3', #[trigger] digit_char(d)] || code == seq!['9', digit_char(d)])
}

/// `t` between the escape that opens the SGR `code` and the reset escape.
pub open spec fn sgr_wrapped(code: Seq<char>, t: Seq<char>) -> Seq<char> {
    seq!['\u{1b}', '['] + code + seq!['m'] + t + seq!['\u{1b}', '[', '0', 'm']
}

/// Whether `t` holds no escape character.
pub open spec fn escape_free(t: Seq<char>) -> bool {
    forall|i: int| 0 <= i < t.len() ==> t[i] != '\u{1b}'
}

/// Whether `p` is `t` painted in colour `c`: the text itself where the
/// terminal takes no colour, else the text wrapped in the 24-bit colour or,
/// where the terminal lacks 24-bit colour, in the nearest basic colour.
pub open spec fn is_painted(c: Rgb, t: Seq<char>, p: Seq<char>) -> bool {
    ||| p == t
    ||| p == sgr_wrapped(truecolor_code(c), t)
    ||| exists|code: Seq<char>| #[trigger] basic_fg_code(code) && p == sgr_wrapped(code, t)
}

/// Relies on colored's `Colorize::truecolor` and the `Display` of
/// `ColoredString`: the text comes back as it is where colouring is off
/// (environment, terminal or override), and otherwise between `ESC[<code>m`
/// and `ESC[0m`, with `<code>` the 24-bit foreground code or, where
/// `COLORTERM` does not announce 24-bit colour, a basic foreground code.
/// Text free of escapes is not altered in between.
#[verifier::external_body]
pub(crate) fn truecolor_text(text: &str, c: Rgb) -> (r: String)
    ensures
        escape_free(text@) ==> is_painted(c, text@, r@),
{
    text.truecolor(c.0, c.1, c.2).to_string()
}

} // verus!
