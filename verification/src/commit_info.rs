//! Minimal commit information used by the views: a read-only projection of
//! one commit, regenerated fully on each history query.

use vstd::prelude::*;

verus! {

/// One commit, as the views see it.
#[derive(Debug, Clone)]
pub struct CommitInfo {
    /// The commit identifier, as its hexadecimal text.
    pub oid: String,
    /// The commit message.
    pub message: String,
    /// The author's name.
    pub author: String,
    /// Author time, in seconds since the epoch.
    pub time: i64,
}

} // verus!
