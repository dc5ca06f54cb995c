//! Rendering: one pass over the template gives the terminal line and the file line.

use vstd::prelude::*;
use vstd::string::StringExecFns;
use crate::color::{Color, Rgb, ansi_color, esc};
use crate::format::{FormatView, LoggingFormat, color_for};
use crate::level::{LogLevel, level_name};
use crate::template::{Field, Token, lemma_token_fits, token_at, token_end, token_here};
use crate::text::{chars_of, push_range};

verus! {

/// The styling that is in force at a position of the template.
#[derive(Debug, Clone, Copy, PartialEq, Eq)]
pub struct Style {
    /// Whether bold is on.
    pub bold: bool,
    /// Whether italic is on.
    pub italic: bool,
    /// The color of the span that is open, if one is.
    pub color: Option<Rgb>,
}

/// What is logged: a level, a message, and the time as it is to be shown.
pub struct Event {
    pub level: LogLevel,
    pub message: Seq<char>,
    pub timestamp: Seq<char>,
}

/// The two lines that one event gives.
#[derive(Debug, Clone, PartialEq, Eq)]
pub struct LogLines {
    /// The line for the terminal, with ANSI escape sequences.
    pub term: String,
    /// The line for the file, without any.
    pub file: String,
}

/// The style at the start of a line.
pub open spec fn plain() -> Style {
    Style { bold: false, italic: false, color: None }
}

/// `ESC[0m`, which ends all styling.
pub open spec fn reset() -> Seq<char> {
    seq![esc(), '[', '0', 'm']
}

/// `ESC[1m`, which switches bold on.
pub open spec fn bold_on() -> Seq<char> {
    seq![esc(), '[', '1', 'm']
}

/// `ESC[3m`, which switches italic on.
pub open spec fn italic_on() -> Seq<char> {
    seq![esc(), '[', '3', 'm']
}

/// What puts the terminal into the style `st`, whatever it was in: a reset, then bold,
/// italic and the color, as far as `st` has them.
pub open spec fn restyle(st: Style) -> Seq<char> {
    reset() + (if st.bold {
        bold_on()
    } else {
        Seq::empty()
    }) + (if st.italic {
        italic_on()
    } else {
        Seq::empty()
    }) + (match st.color {
        Some(rgb) => ansi_color(rgb),
        None => Seq::empty(),
    })
}

/// The style after a token, given the style before it.
pub open spec fn style_after(token: Token, st: Style) -> Style {
    match token {
        Token::Bold => Style { bold: !st.bold, ..st },
        Token::Italic => Style { italic: !st.italic, ..st },
        Token::ColorOpen { rgb } => Style { color: Some(rgb), ..st },
        Token::ColorClose => Style { color: None, ..st },
        _ => st,
    }
}

/// The text that a placeholder stands for.
pub open spec fn field_text(field: Field, ev: Event) -> Seq<char> {
    match field {
        Field::Timestamp => ev.timestamp,
        Field::Level => level_name(ev.level),
        Field::Message => ev.message,
    }
}

/// The color in which the terminal shows a colored placeholder.
pub open spec fn field_color(field: Field, f: FormatView, level: LogLevel) -> Rgb {
    match field {
        Field::Timestamp => f.timestamp_color,
        Field::Level => color_for(f.level_colors, level),
        Field::Message => color_for(f.message_colors, level),
    }
}

/// What the token at position `i` adds to the terminal line, where `st` is the style
/// before it. A colored placeholder is followed by what restores `st`.
pub open spec fn term_piece(f: FormatView, ev: Event, i: int, st: Style) -> Seq<char> {
    let token = token_at(f.template, i, st.color is Some);
    match token {
        Token::Field { field, colored } => if colored {
            ansi_color(field_color(field, f, ev.level)) + field_text(field, ev) + restyle(st)
        } else {
            field_text(field, ev)
        },
        Token::Unknown => f.template.subrange(i, token_end(f.template, i, st.color is Some)),
        Token::Bold | Token::Italic | Token::ColorClose => restyle(style_after(token, st)),
        Token::ColorOpen { rgb } => ansi_color(rgb),
        Token::Literal { c } => seq![c],
    }
}

/// What the token at position `i` adds to the file line.
pub open spec fn file_piece(f: FormatView, ev: Event, i: int, st: Style) -> Seq<char> {
    match token_at(f.template, i, st.color is Some) {
        Token::Field { field, colored } => field_text(field, ev),
        Token::Unknown => f.template.subrange(i, token_end(f.template, i, st.color is Some)),
        Token::Literal { c } => seq![c],
        _ => Seq::empty(),
    }
}

/// The terminal line from position `i` of the template on, the final reset included.
pub open spec fn term_from(f: FormatView, ev: Event, i: int, st: Style) -> Seq<char>
    decreases f.template.len() - i,
{
    if 0 <= i < f.template.len() {
        proof {
            lemma_token_fits(f.template, i, st.color is Some);
        }
        let token = token_at(f.template, i, st.color is Some);
        term_piece(f, ev, i, st) + term_from(
            f,
            ev,
            token_end(f.template, i, st.color is Some),
            style_after(token, st),
        )
    } else {
        reset()
    }
}

/// The file line from position `i` of the template on.
pub open spec fn file_from(f: FormatView, ev: Event, i: int, st: Style) -> Seq<char>
    decreases f.template.len() - i,
{
    if 0 <= i < f.template.len() {
        proof {
            lemma_token_fits(f.template, i, st.color is Some);
        }
        let token = token_at(f.template, i, st.color is Some);
        file_piece(f, ev, i, st) + file_from(
            f,
            ev,
            token_end(f.template, i, st.color is Some),
            style_after(token, st),
        )
    } else {
        Seq::empty()
    }
}

/// The terminal line of an event.
pub open spec fn render_term(f: FormatView, ev: Event) -> Seq<char> {
    term_from(f, ev, 0, plain())
}

/// The file line of an event.
pub open spec fn render_file(f: FormatView, ev: Event) -> Seq<char> {
    file_from(f, ev, 0, plain())
}

/// Appends the escape sequence of the color `rgb` to `out`.
fn write_color(out: &mut String, rgb: Rgb)
    ensures
        final(out)@ == old(out)@ + ansi_color(rgb),
{
    let code = Color::rgb(rgb.0, rgb.1, rgb.2).ansi_code();
    out.append(code.as_str());
}

/// Appends to `out` what puts the terminal into the style `st`.
fn write_restyle(out: &mut String, st: Style)
    ensures
        final(out)@ == old(out)@ + restyle(st),
{
    proof {
        reveal_strlit("\x1b[0m");
        reveal_strlit("\x1b[1m");
        reveal_strlit("\x1b[3m");
        assert("\x1b[0m"@ =~= reset());
        assert("\x1b[1m"@ =~= bold_on());
        assert("\x1b[3m"@ =~= italic_on());
    }
    out.append("\x1b[0m");
    if st.bold {
        out.append("\x1b[1m");
    }
    if st.italic {
        out.append("\x1b[3m");
    }
    match st.color {
        Some(rgb) => {
            write_color(out, rgb);
        },
        None => {},
    }
    assert(final(out)@ =~= old(out)@ + restyle(st));
}

/// Appends what a placeholder adds to the two lines, where `st` is the style before it.
fn write_field(
    format: &LoggingFormat,
    level: LogLevel,
    message: &str,
    timestamp: &str,
    field: Field,
    colored: bool,
    st: Style,
    term: &mut String,
    file: &mut String,
)
    ensures
        final(file)@ == old(file)@ + field_text(
            field,
            Event { level, message: message@, timestamp: timestamp@ },
        ),
        final(term)@ == old(term)@ + (if colored {
            ansi_color(field_color(field, format@, level)) + field_text(
                field,
                Event { level, message: message@, timestamp: timestamp@ },
            ) + restyle(st)
        } else {
            field_text(field, Event { level, message: message@, timestamp: timestamp@ })
        }),
{
    let text: &str = match field {
        Field::Timestamp => timestamp,
        Field::Level => level.name(),
        Field::Message => message,
    };
    file.append(text);
    if colored {
        let color = match field {
            Field::Timestamp => format.timestamp_color,
            Field::Level => format.level_colors.color_of(level),
            Field::Message => format.message_colors.color_of(level),
        };
        write_color(term, color.channels());
        term.append(text);
        write_restyle(term, st);
        assert(final(term)@ =~= old(term)@ + (ansi_color(field_color(field, format@, level))
            + text@ + restyle(st)));
    } else {
        term.append(text);
    }
}

/// Appends what the token at position `i` adds to the two lines, where `st` is the style
/// before it, and returns the position and the style after it.
fn write_token(
    format: &LoggingFormat,
    level: LogLevel,
    message: &str,
    timestamp: &str,
    t: &Vec<char>,
    i: usize,
    st: Style,
    term: &mut String,
    file: &mut String,
) -> (r: (usize, Style))
    requires
        t@ == format@.template,
        i < t.len(),
    ensures
        r.0 == token_end(t@, i as int, st.color is Some),
        r.1 == style_after(token_at(t@, i as int, st.color is Some), st),
        i < r.0 <= t.len(),
        final(term)@ == old(term)@ + term_piece(
            format@,
            Event { level, message: message@, timestamp: timestamp@ },
            i as int,
            st,
        ),
        final(file)@ == old(file)@ + file_piece(
            format@,
            Event { level, message: message@, timestamp: timestamp@ },
            i as int,
            st,
        ),
{
    let (token, end) = token_here(t, i, st.color.is_some());
    let mut next = st;
    match token {
        Token::Field { field, colored } => {
            write_field(format, level, message, timestamp, field, colored, st, term, file);
        },
        Token::Unknown => {
            push_range(term, t, i, end);
            push_range(file, t, i, end);
        },
        Token::Bold => {
            next.bold = !st.bold;
            write_restyle(term, next);
        },
        Token::Italic => {
            next.italic = !st.italic;
            write_restyle(term, next);
        },
        Token::ColorOpen { rgb } => {
            next.color = Some(rgb);
            write_color(term, rgb);
        },
        Token::ColorClose => {
            next.color = None;
            write_restyle(term, next);
        },
        Token::Literal { c } => {
            term.push(c);
            file.push(c);
            assert(final(term)@ =~= old(term)@ + seq![c]);
            assert(final(file)@ =~= old(file)@ + seq![c]);
        },
    }
    assert(final(file)@ =~= old(file)@ + file_piece(
        format@,
        Event { level, message: message@, timestamp: timestamp@ },
        i as int,
        st,
    ));
    (end, next)
}

/// Renders one event with the template of `format`: the line for the terminal and the
/// line for the file. `timestamp` is the time of the event as it is to be shown.
pub fn render(format: &LoggingFormat, level: LogLevel, message: &str, timestamp: &str) -> (lines:
    LogLines)
    ensures
        lines.term@ == render_term(
            format@,
            Event { level, message: message@, timestamp: timestamp@ },
        ),
        lines.file@ == render_file(
            format@,
            Event { level, message: message@, timestamp: timestamp@ },
        ),
{
    let ghost f = format@;
    let ghost ev = Event { level, message: message@, timestamp: timestamp@ };
    let t = chars_of(format.template.as_str());
    let mut term = String::new();
    let mut file = String::new();
    let mut st = Style { bold: false, italic: false, color: None };
    let mut i: usize = 0;
    assert(term@ + term_from(f, ev, 0, st) =~= render_term(f, ev));
    assert(file@ + file_from(f, ev, 0, st) =~= render_file(f, ev));
    while i < t.len()
        invariant
            f == format@,
            ev == (Event { level, message: message@, timestamp: timestamp@ }),
            t@ == f.template,
            i <= t.len(),
            term@ + term_from(f, ev, i as int, st) == render_term(f, ev),
            file@ + file_from(f, ev, i as int, st) == render_file(f, ev),
        decreases t.len() - i,
    {
        let ghost term_before = term@;
        let ghost file_before = file@;
        let ghost st_before = st;
        let (end, next) = write_token(
            format,
            level,
            message,
            timestamp,
            &t,
            i,
            st,
            &mut term,
            &mut file,
        );
        proof {
            let piece = term_piece(f, ev, i as int, st_before);
            let rest = term_from(f, ev, end as int, next);
            assert(term_from(f, ev, i as int, st_before) == piece + rest);
            assert((term_before + piece) + rest =~= term_before + (piece + rest));
            let fpiece = file_piece(f, ev, i as int, st_before);
            let frest = file_from(f, ev, end as int, next);
            assert(file_from(f, ev, i as int, st_before) == fpiece + frest);
            assert((file_before + fpiece) + frest =~= file_before + (fpiece + frest));
        }
        i = end;
        st = next;
    }
    proof {
        reveal_strlit("\x1b[0m");
        assert("\x1b[0m"@ =~= reset());
    }
    term.append("\x1b[0m");
    assert(file@ =~= file@ + file_from(f, ev, i as int, st));
    LogLines { term, file }
}

} // verus!
