//! Strings as sequences of characters: reading, comparing, appending.

use vstd::prelude::*;

verus! {

/// `String::push` appends the one character `c` to the string.
pub assume_specification[ String::push ](s: &mut String, c: char)
    ensures
        final(s)@ == old(s)@.push(c),
;

/// Whether `c` has the Unicode property `White_Space`, as `char::is_whitespace` tells it.
pub uninterp spec fn white_space(c: char) -> bool;

/// `char::is_whitespace` tells whether the character has the property `White_Space`.
/// The contract only gives that answer its name.
pub assume_specification[ char::is_whitespace ](c: char) -> (r: bool)
    ensures
        r == white_space(c),
;

/// The characters of an optional string.
pub open spec fn text_of(s: Option<String>) -> Option<Seq<char>> {
    match s {
        Some(s) => Some(s@),
        None => None,
    }
}

/// The characters of `s`, in order.
pub fn chars_of(s: &str) -> (out: Vec<char>)
    ensures
        out@ == s@,
{
    let mut out: Vec<char> = Vec::new();
    for c in it: s.chars()
        invariant
            it.seq() == s@,
            out@ == s@.take(it.index() as int),
    {
        out.push(c);
    }
    out
}

/// Whether the characters `t[from..to]` spell `word`.
pub fn range_spells(t: &Vec<char>, from: usize, to: usize, word: &str) -> (r: bool)
    requires
        from <= to <= t.len(),
    ensures
        r == (t@.subrange(from as int, to as int) == word@),
{
    let w = chars_of(word);
    let ghost part = t@.subrange(from as int, to as int);
    if to - from != w.len() {
        return false;
    }
    let mut k: usize = 0;
    while k < w.len()
        invariant
            from <= to <= t.len(),
            w@ == word@,
            to - from == w.len(),
            0 <= k <= w.len(),
            part == t@.subrange(from as int, to as int),
            forall|m: int| 0 <= m < k ==> part[m] == w@[m],
        decreases w.len() - k,
    {
        if t[from + k] != w[k] {
            assert(part[k as int] != w@[k as int]);
            return false;
        }
        k += 1;
    }
    assert(part =~= w@);
    true
}

/// Whether `s` is the text `word`.
pub fn spells(s: &str, word: &str) -> (r: bool)
    ensures
        r == (s@ == word@),
{
    let t = chars_of(s);
    assert(t@.subrange(0, t.len() as int) =~= t@);
    range_spells(&t, 0, t.len(), word)
}

/// Appends the characters `t[from..to]` to `out`.
pub fn push_range(out: &mut String, t: &Vec<char>, from: usize, to: usize)
    requires
        from <= to <= t.len(),
    ensures
        final(out)@ == old(out)@ + t@.subrange(from as int, to as int),
{
    let mut k: usize = from;
    while k < to
        invariant
            from <= k <= to <= t.len(),
            out@ == old(out)@ + t@.subrange(from as int, k as int),
        decreases to - k,
    {
        out.push(t[k]);
        assert(t@.subrange(from as int, k + 1) =~= t@.subrange(from as int, k as int).push(
            t@[k as int],
        ));
        k += 1;
    }
}

/// The character for the decimal digit `d`.
pub open spec fn digit_char(d: int) -> char {
    ('0' as int + d) as char
}

/// The decimal notation of `n`, without leading zeros.
pub open spec fn decimal(n: nat) -> Seq<char>
    decreases n,
{
    if n < 10 {
        seq![digit_char(n as int)]
    } else {
        decimal(n / 10).push(digit_char((n % 10) as int))
    }
}

/// The character for the decimal digit `d`.
fn decimal_digit(d: u64) -> (c: char)
    requires
        d < 10,
    ensures
        c == digit_char(d as int),
{
    match d {
        0 => '0',
        1 => '1',
        2 => '2',
        3 => '3',
        4 => '4',
        5 => '5',
        6 => '6',
        7 => '7',
        8 => '8',
        _ => '9',
    }
}

/// Appends the decimal notation of `n` to `out`.
pub fn push_number(out: &mut String, n: u64)
    ensures
        final(out)@ == old(out)@ + decimal(n as nat),
    decreases n,
{
    if n >= 10 {
        push_number(out, n / 10);
    }
    out.push(decimal_digit(n % 10));
    assert(final(out)@ =~= old(out)@ + decimal(n as nat));
}

} // verus!
