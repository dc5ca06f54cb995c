//! What holds of every rendered line.

use vstd::prelude::*;
use crate::color::esc;
use crate::format::FormatView;
use crate::level::{LogLevel, level_name};
use crate::render::{
    Event, Style, file_from, file_piece, plain, render_file, render_term, reset, style_after,
    term_from, term_piece,
};
use crate::template::{
    Field, Token, first_close, has_timestamp, lemma_first_close, lemma_token_fits, timestamp_from,
    token_at, token_end,
};

verus! {

/// Whether `s` ends with `suffix`.
pub open spec fn ends_with(s: Seq<char>, suffix: Seq<char>) -> bool {
    s.len() >= suffix.len() && s.subrange(s.len() - suffix.len(), s.len() as int) == suffix
}

/// Whether the escape character occurs nowhere in `s`.
pub open spec fn escape_free(s: Seq<char>) -> bool {
    forall|k: int| 0 <= k < s.len() ==> s[k] != esc()
}

/// The parts joined into one sequence, with `sep` between each two of them.
pub open spec fn join(parts: Seq<Seq<char>>, sep: Seq<char>) -> Seq<char>
    decreases parts.len(),
{
    if parts.len() == 0 {
        Seq::empty()
    } else if parts.len() == 1 {
        parts[0]
    } else {
        parts[0] + sep + join(parts.drop_first(), sep)
    }
}

/// The file line from position `i` on with its timestamps cut out: the stretch before
/// the first timestamp, the stretches between each two, and the stretch after the last.
pub open spec fn file_parts(f: FormatView, ev: Event, i: int, st: Style) -> Seq<Seq<char>>
    decreases f.template.len() - i,
{
    if 0 <= i < f.template.len() {
        proof {
            lemma_token_fits(f.template, i, st.color is Some);
        }
        let token = token_at(f.template, i, st.color is Some);
        let rest = file_parts(
            f,
            ev,
            token_end(f.template, i, st.color is Some),
            style_after(token, st),
        );
        match token {
            Token::Field { field: Field::Timestamp, .. } => seq![Seq::empty()] + rest,
            _ => rest.update(0, file_piece(f, ev, i, st) + rest[0]),
        }
    } else {
        seq![Seq::empty()]
    }
}

proof fn lemma_term_from_ends_with_reset(f: FormatView, ev: Event, i: int, st: Style)
    ensures
        ends_with(term_from(f, ev, i, st), reset()),
    decreases f.template.len() - i,
{
    if 0 <= i < f.template.len() {
        lemma_token_fits(f.template, i, st.color is Some);
        let token = token_at(f.template, i, st.color is Some);
        let end = token_end(f.template, i, st.color is Some);
        let next = style_after(token, st);
        lemma_term_from_ends_with_reset(f, ev, end, next);
        let piece = term_piece(f, ev, i, st);
        let rest = term_from(f, ev, end, next);
        let all = piece + rest;
        assert(all.subrange(all.len() - 4, all.len() as int) =~= rest.subrange(
            rest.len() - 4,
            rest.len() as int,
        ));
    } else {
        assert(reset().subrange(0, 4) =~= reset());
    }
}

/// The terminal line of every event ends with the reset sequence, whatever the template
/// opens and leaves open: no style outlasts the line.
pub proof fn lemma_terminal_line_ends_reset(f: FormatView, ev: Event)
    ensures
        ends_with(render_term(f, ev), reset()),
{
    lemma_term_from_ends_with_reset(f, ev, 0, plain());
}

proof fn lemma_file_from_escape_free(f: FormatView, ev: Event, i: int, st: Style)
    requires
        escape_free(f.template),
        escape_free(ev.message),
        escape_free(ev.timestamp),
    ensures
        escape_free(file_from(f, ev, i, st)),
    decreases f.template.len() - i,
{
    if 0 <= i < f.template.len() {
        lemma_token_fits(f.template, i, st.color is Some);
        let token = token_at(f.template, i, st.color is Some);
        let end = token_end(f.template, i, st.color is Some);
        lemma_file_from_escape_free(f, ev, end, style_after(token, st));
        assert(escape_free(level_name(ev.level)));
        assert(escape_free(file_piece(f, ev, i, st)));
    }
}

/// Styling never reaches the file: where the template, the message and the timestamp
/// hold no escape character, the file line holds none, and so no escape sequence.
pub proof fn lemma_file_line_escape_free(f: FormatView, ev: Event)
    requires
        escape_free(f.template),
        escape_free(ev.message),
        escape_free(ev.timestamp),
    ensures
        escape_free(render_file(f, ev)),
        forall|k: int|
            0 <= k && k + 1 < render_file(f, ev).len() ==> !(render_file(f, ev)[k] == esc()
                && #[trigger] render_file(f, ev)[k + 1] == '['),
{
    lemma_file_from_escape_free(f, ev, 0, plain());
}

proof fn lemma_join_first(parts: Seq<Seq<char>>, head: Seq<char>, sep: Seq<char>)
    requires
        parts.len() >= 1,
    ensures
        join(parts.update(0, head + parts[0]), sep) == head + join(parts, sep),
{
    let updated = parts.update(0, head + parts[0]);
    if parts.len() == 1 {
    } else {
        assert(updated.drop_first() =~= parts.drop_first());
        assert(join(updated, sep) =~= head + join(parts, sep));
    }
}

proof fn lemma_file_from_is_join(f: FormatView, ev: Event, i: int, st: Style)
    ensures
        file_parts(f, ev, i, st).len() >= 1,
        file_from(f, ev, i, st) == join(file_parts(f, ev, i, st), ev.timestamp),
    decreases f.template.len() - i,
{
    if 0 <= i < f.template.len() {
        lemma_token_fits(f.template, i, st.color is Some);
        let token = token_at(f.template, i, st.color is Some);
        let end = token_end(f.template, i, st.color is Some);
        let next = style_after(token, st);
        lemma_file_from_is_join(f, ev, end, next);
        let rest = file_parts(f, ev, end, next);
        match token {
            Token::Field { field: Field::Timestamp, .. } => {
                let parts = seq![Seq::<char>::empty()] + rest;
                assert(parts.drop_first() =~= rest);
                assert(parts[0] + ev.timestamp =~= ev.timestamp);
            },
            _ => {
                lemma_join_first(rest, file_piece(f, ev, i, st), ev.timestamp);
            },
        }
    } else {
        assert(join(seq![Seq::<char>::empty()], ev.timestamp) =~= Seq::<char>::empty());
    }
}

proof fn lemma_file_parts_same(f: FormatView, a: Event, b: Event, i: int, st: Style)
    requires
        a.level == b.level,
        a.message == b.message,
    ensures
        file_parts(f, a, i, st) == file_parts(f, b, i, st),
    decreases f.template.len() - i,
{
    if 0 <= i < f.template.len() {
        lemma_token_fits(f.template, i, st.color is Some);
        let token = token_at(f.template, i, st.color is Some);
        let end = token_end(f.template, i, st.color is Some);
        lemma_file_parts_same(f, a, b, end, style_after(token, st));
    }
}

/// Two renderings of one level and message with one format give the same file line but
/// for the timestamps in it: both lines are the same parts, joined by the one timestamp
/// and by the other.
pub proof fn lemma_file_line_repeats(
    f: FormatView,
    level: LogLevel,
    message: Seq<char>,
    first: Seq<char>,
    second: Seq<char>,
)
    ensures
        ({
            let a = Event { level, message, timestamp: first };
            let b = Event { level, message, timestamp: second };
            let parts = file_parts(f, a, 0, plain());
            &&& render_file(f, a) == join(parts, first)
            &&& render_file(f, b) == join(parts, second)
            &&& first == second ==> render_file(f, a) == render_file(f, b)
        }),
{
    let a = Event { level, message, timestamp: first };
    let b = Event { level, message, timestamp: second };
    lemma_file_from_is_join(f, a, 0, plain());
    lemma_file_from_is_join(f, b, 0, plain());
    lemma_file_parts_same(f, a, b, 0, plain());
}

/// A `{{` that no `}}` follows opens no placeholder: its first brace is a literal
/// character, and the scan goes on with the character after it.
pub proof fn lemma_unterminated_brace_is_literal(t: Seq<char>, i: int, in_span: bool)
    requires
        0 <= i < t.len(),
        t[i] == '{',
        first_close(t, i + 2) is None,
    ensures
        token_at(t, i, in_span) == (Token::Literal { c: '{' }),
        token_end(t, i, in_span) == i + 1,
{
}

/// A placeholder with a name that is not known is copied to both lines as it stands,
/// braces included, and nothing inside it is read as markup.
pub proof fn lemma_unknown_placeholder_is_verbatim(f: FormatView, ev: Event, i: int, st: Style)
    requires
        0 <= i < f.template.len(),
        token_at(f.template, i, st.color is Some) == Token::Unknown,
    ensures
        ({
            let end = token_end(f.template, i, st.color is Some);
            let text = f.template.subrange(i, end);
            &&& i + 4 <= end <= f.template.len()
            &&& text[0] == '{' && text[1] == '{'
            &&& text[text.len() - 2] == '}' && text[text.len() - 1] == '}'
            &&& term_piece(f, ev, i, st) == text
            &&& file_piece(f, ev, i, st) == text
            &&& style_after(Token::Unknown, st) == st
        }),
{
    lemma_first_close(f.template, i + 2);
}

proof fn lemma_timestamp_unused_from(f: FormatView, a: Event, b: Event, i: int, st: Style)
    requires
        !timestamp_from(f.template, i, st.color is Some),
        a.level == b.level,
        a.message == b.message,
    ensures
        term_from(f, a, i, st) == term_from(f, b, i, st),
        file_from(f, a, i, st) == file_from(f, b, i, st),
    decreases f.template.len() - i,
{
    if 0 <= i < f.template.len() {
        lemma_token_fits(f.template, i, st.color is Some);
        let token = token_at(f.template, i, st.color is Some);
        let end = token_end(f.template, i, st.color is Some);
        lemma_timestamp_unused_from(f, a, b, end, style_after(token, st));
    }
}

/// Where the template shows no time, the lines do not depend on the timestamp.
pub proof fn lemma_timestamp_unused(f: FormatView, a: Event, b: Event)
    requires
        !has_timestamp(f.template),
        a.level == b.level,
        a.message == b.message,
    ensures
        render_term(f, a) == render_term(f, b),
        render_file(f, a) == render_file(f, b),
{
    lemma_timestamp_unused_from(f, a, b, 0, plain());
}

} // verus!
