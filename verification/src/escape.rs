//! Backslash escapes in what a user types.

use vstd::prelude::*;

verus! {

/// What `unescape::unescape` makes of `s`: the text with each backslash escape replaced
/// by the character that it writes, or `None` where `s` holds an escape that writes none.
pub uninterp spec fn unescaped_text(s: Seq<char>) -> Option<Seq<char>>;

/// The text that `s` writes: `s` with its escapes resolved, or `s` as it stands where
/// they cannot be.
pub open spec fn escapes_resolved(s: Seq<char>) -> Seq<char> {
    match unescaped_text(s) {
        Some(text) => text,
        None => s,
    }
}

/// Calls `unescape::unescape`, which resolves the backslash escapes of a text (`\n`,
/// `\t`, `\x41` and the like) and gives `None` where it meets one that it cannot
/// resolve. The contract only gives the result its name.
#[verifier::external_body]
fn unescape_text(s: &str) -> (r: Option<String>)
    ensures
        match r {
            Some(text) => unescaped_text(s@) == Some(text@),
            None => unescaped_text(s@) is None,
        },
{
    unescape::unescape(s)
}

/// Resolves the backslash escapes of `s`. A text whose escapes cannot be resolved is
/// returned as it stands.
pub fn resolve_escapes(s: String) -> (r: String)
    ensures
        r@ == escapes_resolved(s@),
{
    match unescape_text(s.as_str()) {
        Some(text) => text,
        None => s,
    }
}

} // verus!
