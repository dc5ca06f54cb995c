//! Where a command may be used, and which commands a user may mean.

use vstd::prelude::*;
use crate::text::{chars_of, range_spells};
use crate::urls::starts_with;

verus! {

/// Whether a command may be used in `channel`, where `channels` lists the channels that
/// are admitted (`whitelist`) or those that are not.
pub open spec fn admits(channels: Seq<u64>, whitelist: bool, channel: u64) -> bool {
    channels.contains(channel) == whitelist
}

/// Those of the first `upto` names that begin with `partial`, in their order.
pub open spec fn completions(names: Seq<String>, partial: Seq<char>, upto: int) -> Seq<Seq<char>>
    decreases upto,
{
    if upto <= 0 {
        Seq::empty()
    } else if starts_with(names[upto - 1]@, partial) {
        completions(names, partial, upto - 1).push(names[upto - 1]@)
    } else {
        completions(names, partial, upto - 1)
    }
}

/// The texts of `v`.
pub open spec fn texts(v: Seq<String>) -> Seq<Seq<char>> {
    Seq::new(v.len(), |k: int| v[k]@)
}

/// Whether a command may be used in `channel`: with `whitelist`, where `channels` lists
/// it; without, where `channels` does not.
pub fn channel_allowed(channels: &Vec<u64>, whitelist: bool, channel: u64) -> (r: bool)
    ensures
        r == admits(channels@, whitelist, channel),
{
    let mut k: usize = 0;
    while k < channels.len()
        invariant
            k <= channels.len(),
            forall|m: int| 0 <= m < k ==> channels@[m] != channel,
        decreases channels.len() - k,
    {
        if channels[k] == channel {
            assert(channels@.contains(channel));
            return whitelist;
        }
        k += 1;
    }
    assert(!channels@.contains(channel));
    !whitelist
}

/// The names that begin with `partial`, in their order.
pub fn complete_command(names: &Vec<String>, partial: &str) -> (r: Vec<String>)
    ensures
        texts(r@) == completions(names@, partial@, names.len() as int),
{
    let wanted = chars_of(partial);
    let mut found: Vec<String> = Vec::new();
    let mut k: usize = 0;
    assert(texts(found@) =~= completions(names@, partial@, 0));
    while k < names.len()
        invariant
            k <= names.len(),
            wanted@ == partial@,
            texts(found@) == completions(names@, partial@, k as int),
        decreases names.len() - k,
    {
        let ghost before = texts(found@);
        let name = chars_of(names[k].as_str());
        if wanted.len() <= name.len() && range_spells(&name, 0, wanted.len(), partial) {
            found.push(names[k].clone());
            assert(texts(found@) =~= before.push(names@[k as int]@));
        }
        k += 1;
    }
    found
}

} // verus!
