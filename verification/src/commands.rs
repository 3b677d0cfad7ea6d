//! The mutating commands a key press can trigger: staging, committing,
//! initialising. Thin, contract-carrying fronts over the repository facade.

use vstd::prelude::*;

use crate::errors::GitzError;
use crate::repository::{is_blank, Repository};

verus! {

/// Stage all changes in the repository.
pub fn stage_all(repo: &Repository) -> (r: Result<(), GitzError>)
    ensures
        r matches Err(e) ==> e is GitOperationFailed,
{
    repo.add_all()
}

/// Stage a specific file. There is no partial-staging call in this core,
/// so for now this stages everything, like `stage_all`.
pub fn stage_file(repo: &Repository, _path: &str) -> (r: Result<(), GitzError>)
    ensures
        r matches Err(e) ==> e is GitOperationFailed,
{
    repo.add_all()
}

/// Create a commit with the given message. A blank message — empty or all
/// white space — is rejected as invalid input before any engine call.
pub fn commit(repo: &Repository, message: &str) -> (r: Result<String, GitzError>)
    ensures
        is_blank(message@) ==> (r matches Err(e) && e matches GitzError::InvalidInput(m) && m@
            == "Commit message cannot be empty"@),
        !is_blank(message@) ==> !(r matches Err(e) && e is InvalidInput),
        r matches Err(e) ==> (e is InvalidInput || e is GitOperationFailed),
{
    repo.commit(message)
}

/// Initialise a new repository.
pub fn init(path: &str) -> (r: Result<Repository, GitzError>)
    ensures
        r matches Err(e) ==> e is GitOperationFailed,
{
    Repository::init(path)
}

} // verus!
