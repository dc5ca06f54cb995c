//! The grammar of a template: what stands at each position of it.

use vstd::prelude::*;
use crate::color::{Color, Rgb, digits_color};
use crate::text::range_spells;

verus! {

/// What a placeholder stands for.
#[derive(Debug, Clone, Copy, PartialEq, Eq, Structural)]
pub enum Field {
    /// The time of the event.
    Timestamp,
    /// The name of the event's level.
    Level,
    /// The message of the event.
    Message,
}

/// What stands at one position of a template.
#[derive(Debug, Clone, Copy, PartialEq, Eq)]
pub enum Token {
    /// A placeholder with a known name, such as `{{level}}` or, colored, `{{levelc}}`.
    Field { field: Field, colored: bool },
    /// A placeholder with any other name.
    Unknown,
    /// `*`, which switches bold on or off.
    Bold,
    /// `_`, which switches italic on or off.
    Italic,
    /// `~` with a following `#RRGGBB`, which opens a color span.
    ColorOpen { rgb: Rgb },
    /// `~` inside a color span, which closes it.
    ColorClose,
    /// A character that stands for itself.
    Literal { c: char },
}

/// The position of the first `}}` in `t` that begins at `from` or later.
pub open spec fn first_close(t: Seq<char>, from: int) -> Option<int>
    decreases t.len() - from,
{
    if from < 0 || from + 1 >= t.len() {
        None
    } else if t[from] == '}' && t[from + 1] == '}' {
        Some(from)
    } else {
        first_close(t, from + 1)
    }
}

/// The placeholder with the given name.
pub open spec fn name_token(name: Seq<char>) -> Token {
    if name == "timestamp"@ {
        Token::Field { field: Field::Timestamp, colored: false }
    } else if name == "timestampc"@ {
        Token::Field { field: Field::Timestamp, colored: true }
    } else if name == "level"@ {
        Token::Field { field: Field::Level, colored: false }
    } else if name == "levelc"@ {
        Token::Field { field: Field::Level, colored: true }
    } else if name == "message"@ {
        Token::Field { field: Field::Message, colored: false }
    } else if name == "messagec"@ {
        Token::Field { field: Field::Message, colored: true }
    } else {
        Token::Unknown
    }
}

/// The color that the seven characters after position `i` name as `#RRGGBB`, if they do.
pub open spec fn color_tag(t: Seq<char>, i: int) -> Option<Rgb> {
    if i + 7 < t.len() && t[i + 1] == '#' {
        digits_color(t.subrange(i + 2, i + 8))
    } else {
        None
    }
}

/// The token that begins at position `i` of `t`, inside a color span or outside of one.
///
/// `{{` opens a placeholder if a `}}` follows; the first one that does closes it. A `~`
/// closes the color span that is open; where none is open it opens one if `#` and six
/// hexadecimal digits follow. A `{` or `~` that does neither is a literal character.
pub open spec fn token_at(t: Seq<char>, i: int, in_span: bool) -> Token
    recommends
        0 <= i < t.len(),
{
    let c = t[i];
    if c == '{' {
        if i + 1 < t.len() && t[i + 1] == '{' && first_close(t, i + 2) is Some {
            name_token(t.subrange(i + 2, first_close(t, i + 2)->0))
        } else {
            Token::Literal { c }
        }
    } else if c == '*' {
        Token::Bold
    } else if c == '_' {
        Token::Italic
    } else if c == '~' {
        if in_span {
            Token::ColorClose
        } else if color_tag(t, i) is Some {
            Token::ColorOpen { rgb: color_tag(t, i)->0 }
        } else {
            Token::Literal { c }
        }
    } else {
        Token::Literal { c }
    }
}

/// The position after the token that begins at position `i` of `t`.
pub open spec fn token_end(t: Seq<char>, i: int, in_span: bool) -> int
    recommends
        0 <= i < t.len(),
{
    match token_at(t, i, in_span) {
        Token::Field { .. } | Token::Unknown => first_close(t, i + 2)->0 + 2,
        Token::ColorOpen { .. } => i + 8,
        _ => i + 1,
    }
}

/// `first_close` finds a `}}`, and no `}}` begins between `from` and the one it finds.
pub proof fn lemma_first_close(t: Seq<char>, from: int)
    requires
        0 <= from,
    ensures
        match first_close(t, from) {
            Some(j) => {
                &&& from <= j
                &&& j + 1 < t.len()
                &&& t[j] == '}'
                &&& t[j + 1] == '}'
                &&& forall|k: int| from <= k < j ==> !(t[k] == '}' && #[trigger] t[k + 1] == '}')
            },
            None => forall|k: int|
                from <= k && k + 1 < t.len() ==> !(t[k] == '}' && #[trigger] t[k + 1] == '}'),
        },
    decreases t.len() - from,
{
    if from + 1 < t.len() && !(t[from] == '}' && t[from + 1] == '}') {
        lemma_first_close(t, from + 1);
    }
}

/// A token is at least one character wide and ends inside the template.
pub proof fn lemma_token_fits(t: Seq<char>, i: int, in_span: bool)
    requires
        0 <= i < t.len(),
    ensures
        i < token_end(t, i, in_span) <= t.len(),
{
    lemma_first_close(t, i + 2);
}

/// The first `}}` of `t` that begins at `from` or later.
fn find_close(t: &Vec<char>, from: usize) -> (r: Option<usize>)
    ensures
        match r {
            Some(j) => first_close(t@, from as int) == Some(j as int),
            None => first_close(t@, from as int) is None,
        },
{
    let mut k: usize = from;
    while k < t.len() && k + 1 < t.len()
        invariant
            from <= k,
            first_close(t@, from as int) == first_close(t@, k as int),
        decreases t.len() - k,
    {
        if t[k] == '}' && t[k + 1] == '}' {
            return Some(k);
        }
        k += 1;
    }
    None
}

/// The placeholder whose name is `t[from..to]`.
fn read_name(t: &Vec<char>, from: usize, to: usize) -> (tok: Token)
    requires
        from <= to <= t.len(),
    ensures
        tok == name_token(t@.subrange(from as int, to as int)),
{
    if range_spells(t, from, to, "timestamp") {
        Token::Field { field: Field::Timestamp, colored: false }
    } else if range_spells(t, from, to, "timestampc") {
        Token::Field { field: Field::Timestamp, colored: true }
    } else if range_spells(t, from, to, "level") {
        Token::Field { field: Field::Level, colored: false }
    } else if range_spells(t, from, to, "levelc") {
        Token::Field { field: Field::Level, colored: true }
    } else if range_spells(t, from, to, "message") {
        Token::Field { field: Field::Message, colored: false }
    } else if range_spells(t, from, to, "messagec") {
        Token::Field { field: Field::Message, colored: true }
    } else {
        Token::Unknown
    }
}

/// The color that the seven characters after position `i` name, if they name one.
fn read_color_tag(t: &Vec<char>, i: usize) -> (r: Option<Color>)
    requires
        i < t.len(),
    ensures
        match r {
            Some(c) => color_tag(t@, i as int) == Some(c@),
            None => color_tag(t@, i as int) is None,
        },
{
    if t.len() - i > 7 && t[i + 1] == '#' {
        Color::from_digits(t, i + 2, i + 8)
    } else {
        None
    }
}

/// Reads the token that begins at position `i` of the template `t`, and the position
/// after it. `in_span` says whether a color span is open there.
pub(crate) fn token_here(t: &Vec<char>, i: usize, in_span: bool) -> (r: (Token, usize))
    requires
        i < t.len(),
    ensures
        r.0 == token_at(t@, i as int, in_span),
        r.1 == token_end(t@, i as int, in_span),
        i < r.1 <= t.len(),
{
    proof {
        lemma_token_fits(t@, i as int, in_span);
        lemma_first_close(t@, i + 2);
    }
    let c = t[i];
    if c == '{' {
        if t.len() - i > 1 && t[i + 1] == '{' {
            match find_close(t, i + 2) {
                Some(j) => (read_name(t, i + 2, j), j + 2),
                None => (Token::Literal { c }, i + 1),
            }
        } else {
            (Token::Literal { c }, i + 1)
        }
    } else if c == '*' {
        (Token::Bold, i + 1)
    } else if c == '_' {
        (Token::Italic, i + 1)
    } else if c == '~' {
        if in_span {
            (Token::ColorClose, i + 1)
        } else {
            match read_color_tag(t, i) {
                Some(color) => (Token::ColorOpen { rgb: color.channels() }, i + 8),
                None => (Token::Literal { c }, i + 1),
            }
        }
    } else {
        (Token::Literal { c }, i + 1)
    }
}

/// Reads the token that begins at position `i` of the template `t`, and the position
/// after it. `in_span` says whether a color span is open there. At the end of the
/// template, and after it, there is no token.
pub fn next_token(t: &Vec<char>, i: usize, in_span: bool) -> (r: Option<(Token, usize)>)
    ensures
        match r {
            Some((token, end)) => {
                &&& i < t.len()
                &&& token == token_at(t@, i as int, in_span)
                &&& end == token_end(t@, i as int, in_span)
                &&& i < end <= t.len()
            },
            None => i >= t.len(),
        },
{
    if i < t.len() {
        Some(token_here(t, i, in_span))
    } else {
        None
    }
}

/// Whether a timestamp placeholder stands in `t` at position `i` or later, where
/// `in_span` says whether a color span is open at `i`.
pub open spec fn timestamp_from(t: Seq<char>, i: int, in_span: bool) -> bool
    decreases t.len() - i,
{
    if 0 <= i < t.len() {
        proof {
            lemma_token_fits(t, i, in_span);
        }
        match token_at(t, i, in_span) {
            Token::Field { field: Field::Timestamp, .. } => true,
            Token::ColorOpen { .. } => timestamp_from(t, token_end(t, i, in_span), true),
            Token::ColorClose => timestamp_from(t, token_end(t, i, in_span), false),
            _ => timestamp_from(t, token_end(t, i, in_span), in_span),
        }
    } else {
        false
    }
}

/// Whether the template `t` shows the time of the event.
pub open spec fn has_timestamp(t: Seq<char>) -> bool {
    timestamp_from(t, 0, false)
}

/// Whether the template `t` shows the time of the event.
pub fn uses_timestamp(t: &Vec<char>) -> (r: bool)
    ensures
        r == has_timestamp(t@),
{
    let mut i: usize = 0;
    let mut in_span = false;
    while i < t.len()
        invariant
            i <= t.len(),
            has_timestamp(t@) == timestamp_from(t@, i as int, in_span),
        decreases t.len() - i,
    {
        let (token, end) = token_here(t, i, in_span);
        match token {
            Token::Field { field: Field::Timestamp, .. } => {
                return true;
            },
            Token::ColorOpen { .. } => {
                in_span = true;
            },
            Token::ColorClose => {
                in_span = false;
            },
            _ => {},
        }
        i = end;
    }
    false
}

} // verus!
