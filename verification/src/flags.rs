//! Flag bits that a node carries under the key `flags`.
use vstd::prelude::*;

pub mod domain;

verus! {

/// No flag at all.
pub const ZERO: usize = 0;

/// Whether every bit of `flag` is set in `flags`.
pub fn contains(flags: usize, flag: usize) -> (r: bool)
    ensures
        r == has_flag(flags, flag),
{
    (flags & flag) == flag
}

pub open spec fn has_flag(flags: usize, flag: usize) -> bool {
    (flags & flag) == flag
}

/// A check mark where `flag` is set in `flags`, a cross where it is not.
pub fn contains_to_markdown(flags: usize, flag: usize) -> (r: String)
    ensures
        r@ == mark_of(has_flag(flags, flag)),
{
    if contains(flags, flag) {
        String::from_str("✅")
    } else {
        String::from_str("❌")
    }
}

pub open spec fn mark_of(set: bool) -> Seq<char> {
    if set {
        "✅"@
    } else {
        "❌"@
    }
}

} // verus!
