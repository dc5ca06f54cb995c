//! Lists of embed fields in the notation `Name|Value|Inline;Name|Value|Inline;...`.

use vstd::prelude::*;
use crate::text::{chars_of, push_range, white_space};

verus! {

/// What a field is, as mathematical values: its name, its value, and whether it is
/// shown inline.
pub type FieldView = (Seq<char>, Seq<char>, bool);

/// Whether an escape begins at position `k` of `s`: a backslash before `;` or `|`.
pub open spec fn escapes(s: Seq<char>, k: int) -> bool {
    0 <= k && k + 1 < s.len() && s[k] == '\\' && (s[k + 1] == ';' || s[k + 1] == '|')
}

/// Whether the character `c` at position `k` of `s` separates: it is not escaped.
pub open spec fn separates(s: Seq<char>, k: int, c: char) -> bool {
    0 <= k < s.len() && s[k] == c && !escapes(s, k - 1)
}

/// The position of the first separating `c` in `s[i..stop]`, or `stop` if there is none.
pub open spec fn next_separator(s: Seq<char>, i: int, stop: int, c: char) -> int
    decreases stop - i,
{
    if i >= stop {
        stop
    } else if separates(s, i, c) {
        i
    } else {
        next_separator(s, i + 1, stop, c)
    }
}

/// The characters of `s[a..b]` without the backslashes of its escapes.
pub open spec fn unescaped(s: Seq<char>, a: int, b: int) -> Seq<char>
    decreases b - a,
{
    if a >= b {
        Seq::empty()
    } else if escapes(s, a) {
        unescaped(s, a + 1, b)
    } else {
        seq![s[a]] + unescaped(s, a + 1, b)
    }
}

/// The first position at or after `i` whose character is no white space, or the length.
pub open spec fn leading(s: Seq<char>, i: int) -> int
    decreases s.len() - i,
{
    if i < 0 || i >= s.len() {
        s.len() as int
    } else if white_space(s[i]) {
        leading(s, i + 1)
    } else {
        i
    }
}

/// The position after the last character of `s[lo..j]` that is no white space, or `lo`.
pub open spec fn trailing(s: Seq<char>, lo: int, j: int) -> int
    decreases j - lo,
{
    if lo < 0 || j <= lo || j > s.len() {
        lo
    } else if white_space(s[j - 1]) {
        trailing(s, lo, j - 1)
    } else {
        j
    }
}

/// `s` without the white space at its start and at its end.
pub open spec fn trimmed(s: Seq<char>) -> Seq<char> {
    s.subrange(leading(s, 0), trailing(s, leading(s, 0), s.len() as int))
}

/// Whether `s` spells `true`, in upper or lower case or both.
pub open spec fn spells_true(s: Seq<char>) -> bool {
    &&& s.len() == 4
    &&& (s[0] == 't' || s[0] == 'T')
    &&& (s[1] == 'r' || s[1] == 'R')
    &&& (s[2] == 'u' || s[2] == 'U')
    &&& (s[3] == 'e' || s[3] == 'E')
}

/// The field that `s[i..e]` writes: three cells with `|` between them, each trimmed
/// after its escapes are resolved. Any other number of cells writes no field.
pub open spec fn field_in(s: Seq<char>, i: int, e: int) -> Option<FieldView> {
    let first = next_separator(s, i, e, '|');
    let second = next_separator(s, first + 1, e, '|');
    let third = next_separator(s, second + 1, e, '|');
    if first < e && second < e && third >= e {
        Some(
            (
                trimmed(unescaped(s, i, first)),
                trimmed(unescaped(s, first + 1, second)),
                spells_true(trimmed(unescaped(s, second + 1, e))),
            ),
        )
    } else {
        None
    }
}

/// The fields that `s` writes from position `i` on: one for each stretch between two
/// separating `;` that has three cells.
pub open spec fn fields_from(s: Seq<char>, i: int) -> Seq<FieldView>
    decreases s.len() - i,
{
    let e = next_separator(s, i, s.len() as int, ';');
    let here = match field_in(s, i, e) {
        Some(field) => seq![field],
        None => Seq::empty(),
    };
    if 0 <= i <= e < s.len() {
        here + fields_from(s, e + 1)
    } else {
        here
    }
}

/// The fields that `s` writes.
pub open spec fn fields_of(s: Seq<char>) -> Seq<FieldView> {
    fields_from(s, 0)
}

/// The fields of `v`, as mathematical values.
pub open spec fn fields_view(v: Seq<(String, String, bool)>) -> Seq<FieldView> {
    Seq::new(v.len(), |k: int| (v[k].0@, v[k].1@, v[k].2))
}

/// The first separator is at or after the start and before or at the stop.
pub proof fn lemma_next_separator_bounds(s: Seq<char>, i: int, stop: int, c: char)
    requires
        i <= stop,
    ensures
        i <= next_separator(s, i, stop, c) <= stop,
        next_separator(s, i, stop, c) < stop ==> separates(
            s,
            next_separator(s, i, stop, c),
            c,
        ),
    decreases stop - i,
{
    if i < stop && !separates(s, i, c) {
        lemma_next_separator_bounds(s, i + 1, stop, c);
    }
}

/// The position of the first separating `c` in `s[i..stop]`, or `stop`.
fn find_separator(s: &Vec<char>, i: usize, stop: usize, c: char) -> (r: usize)
    requires
        i <= stop <= s.len(),
        c == ';' || c == '|',
    ensures
        r == next_separator(s@, i as int, stop as int, c),
        i <= r <= stop,
{
    let mut k: usize = i;
    while k < stop
        invariant
            i <= k <= stop <= s.len(),
            c == ';' || c == '|',
            next_separator(s@, i as int, stop as int, c) == next_separator(
                s@,
                k as int,
                stop as int,
                c,
            ),
        decreases stop - k,
    {
        if s[k] == c && !(k > 0 && s[k - 1] == '\\') {
            return k;
        }
        k += 1;
    }
    k
}

/// The characters of `s[a..b]` without the backslashes of its escapes.
fn resolve(s: &Vec<char>, a: usize, b: usize) -> (cell: Vec<char>)
    requires
        a <= b <= s.len(),
    ensures
        cell@ == unescaped(s@, a as int, b as int),
{
    let mut cell: Vec<char> = Vec::new();
    let mut k: usize = a;
    while k < b
        invariant
            a <= k <= b <= s.len(),
            cell@ + unescaped(s@, k as int, b as int) == unescaped(s@, a as int, b as int),
        decreases b - k,
    {
        let ghost before = cell@;
        let escape = s[k] == '\\' && s.len() - k > 1 && (s[k + 1] == ';' || s[k + 1] == '|');
        if !escape {
            cell.push(s[k]);
            assert(cell@ + unescaped(s@, k + 1, b as int) =~= before + (seq![s@[k as int]]
                + unescaped(s@, k + 1, b as int)));
        }
        k += 1;
    }
    assert(cell@ =~= cell@ + unescaped(s@, k as int, b as int));
    cell
}

/// `cell` without the white space at its start and at its end.
fn trim(cell: &Vec<char>) -> (r: String)
    ensures
        r@ == trimmed(cell@),
{
    let mut lo: usize = 0;
    while lo < cell.len() && cell[lo].is_whitespace()
        invariant
            lo <= cell.len(),
            leading(cell@, 0) == leading(cell@, lo as int),
        decreases cell.len() - lo,
    {
        lo += 1;
    }
    let mut hi: usize = cell.len();
    while hi > lo && cell[hi - 1].is_whitespace()
        invariant
            lo <= hi <= cell.len(),
            trailing(cell@, lo as int, cell.len() as int) == trailing(cell@, lo as int, hi as int),
        decreases hi,
    {
        hi -= 1;
    }
    let mut r = String::new();
    push_range(&mut r, cell, lo, hi);
    assert(r@ =~= cell@.subrange(lo as int, hi as int));
    r
}

/// Whether `s` spells `true`, in upper or lower case or both.
fn is_true(s: &str) -> (r: bool)
    ensures
        r == spells_true(s@),
{
    let c = chars_of(s);
    c.len() == 4 && (c[0] == 't' || c[0] == 'T') && (c[1] == 'r' || c[1] == 'R') && (c[2] == 'u'
        || c[2] == 'U') && (c[3] == 'e' || c[3] == 'E')
}

/// The field that `s[i..e]` writes, if it writes one.
fn read_field(s: &Vec<char>, i: usize, e: usize) -> (r: Option<(String, String, bool)>)
    requires
        i <= e <= s.len(),
    ensures
        match r {
            Some(field) => field_in(s@, i as int, e as int) == Some(
                (field.0@, field.1@, field.2),
            ),
            None => field_in(s@, i as int, e as int) is None,
        },
{
    let first = find_separator(s, i, e, '|');
    if first >= e {
        return None;
    }
    let second = find_separator(s, first + 1, e, '|');
    if second >= e {
        return None;
    }
    let third = find_separator(s, second + 1, e, '|');
    if third < e {
        return None;
    }
    let name = trim(&resolve(s, i, first));
    let value = trim(&resolve(s, first + 1, second));
    let inline = is_true(trim(&resolve(s, second + 1, e)).as_str());
    Some((name, value, inline))
}

/// Reads a list of fields. The fields stand between `;`, and each is a name, a value and
/// `true` or anything else, between `|`. A backslash before `;` or `|` makes it part of
/// the text. White space around a name, a value and the third cell does not count, nor
/// does the case of `true`. What has not exactly three cells is left out.
pub fn parse_fields(input: String) -> (fields: Vec<(String, String, bool)>)
    ensures
        fields_view(fields@) == fields_of(input@),
{
    let s = chars_of(input.as_str());
    let mut fields: Vec<(String, String, bool)> = Vec::new();
    let mut i: usize = 0;
    loop
        invariant_except_break
            fields_view(fields@) + fields_from(s@, i as int) == fields_of(s@),
        invariant
            s@ == input@,
            i <= s.len(),
        ensures
            fields_view(fields@) == fields_of(s@),
        decreases s.len() - i,
    {
        let ghost before = fields_view(fields@);
        let e = find_separator(&s, i, s.len(), ';');
        match read_field(&s, i, e) {
            Some(field) => {
                fields.push(field);
                assert(fields_view(fields@) =~= before + seq![(field.0@, field.1@, field.2)]);
            },
            None => {
                assert(fields_view(fields@) =~= before + Seq::<FieldView>::empty());
            },
        }
        if e >= s.len() {
            assert(fields_view(fields@) =~= before + fields_from(s@, i as int));
            break;
        }
        proof {
            let here = match field_in(s@, i as int, e as int) {
                Some(field) => seq![field],
                None => Seq::empty(),
            };
            assert(fields_view(fields@) + fields_from(s@, e + 1) =~= before + (here
                + fields_from(s@, e + 1)));
        }
        i = e + 1;
    }
    fields
}

} // verus!
