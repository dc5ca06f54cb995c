//! 24-bit colors: hexadecimal notation in, ANSI escape sequences out.

use vstd::prelude::*;
use vstd::string::StringExecFns;
use crate::text::{chars_of, decimal, push_number};

verus! {

/// The channels of a color, as (red, green, blue).
pub type Rgb = (u8, u8, u8);

/// A 24-bit color with 8-bit red, green and blue channels.
#[derive(Debug, Clone, Copy, PartialEq, Eq, Structural)]
pub struct Color {
    red: u8,
    green: u8,
    blue: u8,
}

impl View for Color {
    type V = Rgb;

    closed spec fn view(&self) -> Rgb {
        (self.red, self.green, self.blue)
    }
}

/// The escape character that opens every ANSI sequence.
pub open spec fn esc() -> char {
    '\x1b'
}

/// Whether `c` is one of `0-9`, `a-f`, `A-F`.
pub open spec fn is_hex_digit(c: char) -> bool {
    ('0' <= c <= '9') || ('a' <= c <= 'f') || ('A' <= c <= 'F')
}

/// The value of the hexadecimal digit `c`; 0 for any other character.
pub open spec fn hex_value(c: char) -> int {
    if '0' <= c <= '9' {
        c as int - '0' as int
    } else if 'a' <= c <= 'f' {
        c as int - 'a' as int + 10
    } else if 'A' <= c <= 'F' {
        c as int - 'A' as int + 10
    } else {
        0
    }
}

/// The byte written by the two hexadecimal digits `hi` and `lo`.
pub open spec fn hex_pair(hi: char, lo: char) -> u8 {
    (16 * hex_value(hi) + hex_value(lo)) as u8
}

/// Whether every character of `s` is a hexadecimal digit.
pub open spec fn all_hex(s: Seq<char>) -> bool {
    forall|i: int| 0 <= i < s.len() ==> is_hex_digit(#[trigger] s[i])
}

/// `s` without its leading `#`, if it has one.
pub open spec fn strip_hash(s: Seq<char>) -> Seq<char> {
    if s.len() > 0 && s[0] == '#' {
        s.subrange(1, s.len() as int)
    } else {
        s
    }
}

/// The color that the digits `d` denote: six digits give the channels pairwise, three
/// digits give each channel as that digit written twice. Anything else denotes no color.
pub open spec fn digits_color(d: Seq<char>) -> Option<Rgb> {
    if d.len() == 6 && all_hex(d) {
        Some((hex_pair(d[0], d[1]), hex_pair(d[2], d[3]), hex_pair(d[4], d[5])))
    } else if d.len() == 3 && all_hex(d) {
        Some((hex_pair(d[0], d[0]), hex_pair(d[1], d[1]), hex_pair(d[2], d[2])))
    } else {
        None
    }
}

/// The color that the hexadecimal notation `s` denotes, with or without a leading `#`.
pub open spec fn parse_hex(s: Seq<char>) -> Option<Rgb> {
    digits_color(strip_hash(s))
}

/// The sequence that selects `c` as the foreground color: `ESC[38;2;R;G;Bm`.
pub open spec fn ansi_color(c: Rgb) -> Seq<char> {
    seq![esc(), '[', '3', '8', ';', '2', ';'] + decimal(c.0 as nat) + seq![';'] + decimal(
        c.1 as nat,
    ) + seq![';'] + decimal(c.2 as nat) + seq!['m']
}

/// White, the color of every level that a table leaves unset.
pub open spec fn white() -> Rgb {
    (255u8, 255u8, 255u8)
}

/// The value of `c` as a hexadecimal digit, if it is one.
pub(crate) fn hex_digit(c: char) -> (r: Option<u8>)
    ensures
        r is Some <==> is_hex_digit(c),
        r is Some ==> r->0 as int == hex_value(c),
{
    if '0' <= c && c <= '9' {
        Some((c as u32 - '0' as u32) as u8)
    } else if 'a' <= c && c <= 'f' {
        Some((c as u32 - 'a' as u32 + 10) as u8)
    } else if 'A' <= c && c <= 'F' {
        Some((c as u32 - 'A' as u32 + 10) as u8)
    } else {
        None
    }
}

/// The byte written by the digits `hi` and `lo`, if both are hexadecimal.
fn hex_byte(hi: char, lo: char) -> (r: Option<u8>)
    ensures
        r is Some <==> is_hex_digit(hi) && is_hex_digit(lo),
        r is Some ==> r->0 == hex_pair(hi, lo),
{
    match (hex_digit(hi), hex_digit(lo)) {
        (Some(h), Some(l)) => Some(16 * h + l),
        _ => None,
    }
}

impl Color {
    /// The color with the given channels.
    pub fn rgb(r: u8, g: u8, b: u8) -> (c: Color)
        ensures
            c@ == (r, g, b),
    {
        Color { red: r, green: g, blue: b }
    }

    /// The channels of this color, as (red, green, blue).
    pub fn channels(&self) -> (c: Rgb)
        ensures
            c == self@,
    {
        (self.red, self.green, self.blue)
    }

    /// Reads a color from hexadecimal notation: an optional leading `#`, then either six
    /// digits (`RRGGBB`) or three (`RGB`, each digit standing for itself written twice).
    /// Any other length, and any character that is no hexadecimal digit, gives `None`.
    pub fn hex(hex: &str) -> (r: Option<Color>)
        ensures
            match r {
                Some(c) => parse_hex(hex@) == Some(c@),
                None => parse_hex(hex@) is None,
            },
    {
        let chars = chars_of(hex);
        let start: usize = if chars.len() > 0 && chars[0] == '#' {
            1
        } else {
            0
        };
        Color::from_digits(&chars, start, chars.len())
    }

    /// Reads a color from the digits `chars[start..end]`.
    pub(crate) fn from_digits(chars: &Vec<char>, start: usize, end: usize) -> (r: Option<Color>)
        requires
            start <= end <= chars.len(),
        ensures
            match r {
                Some(c) => digits_color(chars@.subrange(start as int, end as int)) == Some(c@),
                None => digits_color(chars@.subrange(start as int, end as int)) is None,
            },
    {
        let ghost d = chars@.subrange(start as int, end as int);
        let n = end - start;
        if n == 6 {
            let r = hex_byte(chars[start], chars[start + 1]);
            let g = hex_byte(chars[start + 2], chars[start + 3]);
            let b = hex_byte(chars[start + 4], chars[start + 5]);
            proof {
                assert(d[0] == chars@[start as int]);
                assert(d[1] == chars@[start + 1]);
                assert(d[2] == chars@[start + 2]);
                assert(d[3] == chars@[start + 3]);
                assert(d[4] == chars@[start + 4]);
                assert(d[5] == chars@[start + 5]);
            }
            match (r, g, b) {
                (Some(r), Some(g), Some(b)) => Some(Color::rgb(r, g, b)),
                _ => None,
            }
        } else if n == 3 {
            let r = hex_byte(chars[start], chars[start]);
            let g = hex_byte(chars[start + 1], chars[start + 1]);
            let b = hex_byte(chars[start + 2], chars[start + 2]);
            proof {
                assert(d[0] == chars@[start as int]);
                assert(d[1] == chars@[start + 1]);
                assert(d[2] == chars@[start + 2]);
            }
            match (r, g, b) {
                (Some(r), Some(g), Some(b)) => Some(Color::rgb(r, g, b)),
                _ => None,
            }
        } else {
            None
        }
    }

    /// The ANSI escape sequence that makes this color the foreground color.
    pub fn ansi_code(&self) -> (code: String)
        ensures
            code@ == ansi_color(self@),
    {
        let mut code = String::from_str("\x1b[38;2;");
        proof {
            reveal_strlit("\x1b[38;2;");
            assert(code@ =~= seq![esc(), '[', '3', '8', ';', '2', ';']);
        }
        push_number(&mut code, self.red as u64);
        code.push(';');
        push_number(&mut code, self.green as u64);
        code.push(';');
        push_number(&mut code, self.blue as u64);
        code.push('m');
        assert(code@ =~= ansi_color(self@));
        code
    }
}

impl Default for Color {
    /// White.
    fn default() -> (c: Color)
        ensures
            c@ == white(),
    {
        Color::rgb(255, 255, 255)
    }
}

/// The three-digit shorthand denotes the color of its six-digit expansion.
pub proof fn lemma_shorthand_expands(a: char, b: char, c: char)
    ensures
        parse_hex(seq!['#', a, b, c]) == parse_hex(seq!['#', a, a, b, b, c, c]),
        parse_hex(seq![a, b, c]) == parse_hex(seq![a, a, b, b, c, c]),
{
    let short = seq![a, b, c];
    let long = seq![a, a, b, b, c, c];
    assert(strip_hash(seq!['#', a, b, c]) =~= short);
    assert(strip_hash(seq!['#', a, a, b, b, c, c]) =~= long);
    assert(all_hex(short) <==> all_hex(long)) by {
        if all_hex(short) {
            assert(is_hex_digit(short[0]) && is_hex_digit(short[1]) && is_hex_digit(short[2]));
        }
        if all_hex(long) {
            assert(is_hex_digit(long[0]) && is_hex_digit(long[2]) && is_hex_digit(long[4]));
        }
    }
    assert(digits_color(short) == digits_color(long));
    if a == '#' {
        assert(!is_hex_digit(short[0]));
        assert(!is_hex_digit(long[0]));
        let s3 = strip_hash(short);
        let s6 = strip_hash(long);
        assert(s3.len() == 2);
        assert(s6.len() == 5);
    } else {
        assert(strip_hash(short) == short);
        assert(strip_hash(long) == long);
    }
}

} // verus!
