//! Utility helpers for the application.

use vstd::prelude::*;

use crate::numfmt::{dec_rep2, u64_to_string2};

verus! {

/// A duration in seconds rendered as minutes and seconds, both zero-padded
/// to at least two digits, joined by a colon.
pub open spec fn duration_rep(secs: nat) -> Seq<char> {
    dec_rep2(secs / 60) + seq![':'] + dec_rep2(secs % 60)
}

/// Render a duration of `secs` seconds as `mm:ss`.
pub fn format_duration(secs: u64) -> (s: String)
    ensures
        s@ == duration_rep(secs as nat),
{
    let mut s = u64_to_string2(secs / 60);
    s.append(":");
    let rest = u64_to_string2(secs % 60);
    s.append(rest.as_str());
    proof {
        reveal_strlit(":");
        assert(s@ =~= duration_rep(secs as nat));
    }
    s
}

} // verus!
