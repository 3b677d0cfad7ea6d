//! Selecting a file out of a status snapshot by its position in the
//! combined list the file pane shows: modified files first, then added,
//! then deleted.

use vstd::prelude::*;

use crate::status::RepoStatus;

verus! {

/// Get the file at a given index across all categories, counting through
/// the modified, added and deleted lists in that order.
pub fn get_file_at_index(status: &RepoStatus, index: usize) -> (r: Option<String>)
    ensures
        index < status.spec_total() ==> (r matches Some(s) && s@ == (status.modified@
            + status.added@ + status.deleted@)[index as int]@),
        index >= status.spec_total() ==> r is None,
{
    let all = status.all_files();
    if index < all.len() {
        Some(all[index].clone())
    } else {
        None
    }
}

} // verus!
