//! Addresses that an embed may link to.

use vstd::prelude::*;
use crate::text::{chars_of, range_spells, white_space};

verus! {

/// Whether `s` begins with `prefix`.
pub open spec fn starts_with(s: Seq<char>, prefix: Seq<char>) -> bool {
    s.len() >= prefix.len() && s.subrange(0, prefix.len() as int) == prefix
}

/// Whether `s` ends with `suffix`.
pub open spec fn ends_in(s: Seq<char>, suffix: Seq<char>) -> bool {
    s.len() >= suffix.len() && s.subrange(s.len() - suffix.len(), s.len() as int) == suffix
}

/// The length of the scheme of `s` with its `://`, where the scheme is `http` or `https`.
pub open spec fn scheme_len(s: Seq<char>) -> Option<int> {
    if starts_with(s, "http://"@) {
        Some(7)
    } else if starts_with(s, "https://"@) {
        Some(8)
    } else {
        None
    }
}

/// Whether no character of `s` at position `from` or later is white space.
pub open spec fn no_space_from(s: Seq<char>, from: int) -> bool {
    forall|k: int| from <= k < s.len() ==> !white_space(#[trigger] s[k])
}

/// Whether `s` is an address: `http://` or `https://`, then one character or more, none
/// of them white space.
pub open spec fn is_url(s: Seq<char>) -> bool {
    scheme_len(s) is Some && s.len() > scheme_len(s)->0 && no_space_from(s, scheme_len(s)->0)
}

/// Whether `s` ends with a dot and the name of an image format.
pub open spec fn has_image_suffix(s: Seq<char>) -> Option<int> {
    if ends_in(s, ".png"@) || ends_in(s, ".jpg"@) || ends_in(s, ".gif"@) || ends_in(s, ".bmp"@) {
        Some(4)
    } else if ends_in(s, ".jpeg"@) || ends_in(s, ".webp"@) {
        Some(5)
    } else {
        None
    }
}

/// Whether `s` is the address of an image: an address that ends with a dot and `png`,
/// `jpg`, `jpeg`, `gif`, `webp` or `bmp`, with one character or more before the dot.
pub open spec fn is_image_address(s: Seq<char>) -> bool {
    &&& is_url(s)
    &&& has_image_suffix(s) is Some
    &&& s.len() > scheme_len(s)->0 + has_image_suffix(s)->0
}

/// Whether `s` names an image: the address of one, or the word `avatar`.
pub open spec fn is_image_url(s: Seq<char>) -> bool {
    is_image_address(s) || s == "avatar"@
}

/// Whether `t` begins with `word`.
fn begins(t: &Vec<char>, word: &str) -> (r: bool)
    ensures
        r == starts_with(t@, word@),
{
    let n = chars_of(word).len();
    n <= t.len() && range_spells(t, 0, n, word)
}

/// Whether `t` ends with `word`.
fn ends(t: &Vec<char>, word: &str) -> (r: bool)
    ensures
        r == ends_in(t@, word@),
{
    let n = chars_of(word).len();
    n <= t.len() && range_spells(t, t.len() - n, t.len(), word)
}

/// The length of the scheme of `t` with its `://`.
fn read_scheme(t: &Vec<char>) -> (r: Option<usize>)
    ensures
        match r {
            Some(n) => scheme_len(t@) == Some(n as int) && n <= t.len(),
            None => scheme_len(t@) is None,
        },
{
    proof {
        reveal_strlit("http://");
        reveal_strlit("https://");
    }
    if begins(t, "http://") {
        Some(7)
    } else if begins(t, "https://") {
        Some(8)
    } else {
        None
    }
}

/// Whether `t` is an address.
fn address(t: &Vec<char>) -> (r: bool)
    ensures
        r == is_url(t@),
{
    let n = match read_scheme(t) {
        Some(n) => n,
        None => {
            return false;
        },
    };
    if t.len() <= n {
        return false;
    }
    let mut k: usize = n;
    while k < t.len()
        invariant
            n <= k <= t.len(),
            n < t.len(),
            scheme_len(t@) == Some(n as int),
            forall|m: int| n <= m < k ==> !white_space(#[trigger] t@[m]),
        decreases t.len() - k,
    {
        if t[k].is_whitespace() {
            assert(white_space(t@[k as int]));
            return false;
        }
        k += 1;
    }
    true
}

/// Whether `input` is an address: `http://` or `https://`, then one character or more,
/// none of them white space.
pub fn check_url(input: &str) -> (r: bool)
    ensures
        r == is_url(input@),
{
    let t = chars_of(input);
    address(&t)
}

/// Whether `input` names an image: the address of one, or the word `avatar`.
pub fn check_image_url(input: &str) -> (r: bool)
    ensures
        r == is_image_url(input@),
{
    let t = chars_of(input);
    if range_spells(&t, 0, t.len(), "avatar") {
        assert(t@.subrange(0, t.len() as int) =~= t@);
        return true;
    }
    assert(t@.subrange(0, t.len() as int) =~= t@);
    if !address(&t) {
        return false;
    }
    proof {
        reveal_strlit(".png");
        reveal_strlit(".jpg");
        reveal_strlit(".gif");
        reveal_strlit(".bmp");
        reveal_strlit(".jpeg");
        reveal_strlit(".webp");
    }
    let suffix: usize = if ends(&t, ".png") || ends(&t, ".jpg") || ends(&t, ".gif") || ends(
        &t,
        ".bmp",
    ) {
        4
    } else if ends(&t, ".jpeg") || ends(&t, ".webp") {
        5
    } else {
        return false;
    };
    match read_scheme(&t) {
        Some(n) => t.len() - n > suffix,
        None => false,
    }
}

} // verus!
