//! The repository facade: high-level helpers over the version-control
//! engine. Every engine call sits in a small trusted wrapper; what the
//! application decides from the engine's answers — classifying a status
//! report, validating a commit message, naming the current branch — is
//! verified here against exact contracts.

use vstd::prelude::*;
use vstd::string::StrSliceExecFns;

use git2::Repository as Git2Repository;

use crate::commit_info::CommitInfo;
use crate::errors::GitzError;
use crate::status::{added_of, deleted_of, modified_of, seq_has_str, RepoStatus};

verus! {

#[verifier::external_type_specification]
#[verifier::external_body]
pub struct ExGitRepository(Git2Repository);

#[verifier::external_type_specification]
#[verifier::external_body]
pub struct ExGitError(git2::Error);

/// Relies on git2::Repository::open: opens an existing repository.
#[verifier::external_body]
fn raw_open(path: &str) -> (r: Result<git2::Repository, git2::Error>) {
    git2::Repository::open(path)
}

/// Relies on git2::Repository::init: creates a new repository.
#[verifier::external_body]
fn raw_init(path: &str) -> (r: Result<git2::Repository, git2::Error>) {
    git2::Repository::init(path)
}

/// Relies on git2::Repository::path: the path of the repository's own
/// directory, as text.
#[verifier::external_body]
fn raw_repo_path(repo: &git2::Repository) -> (s: String) {
    repo.path().to_string_lossy().into_owned()
}

/// Relies on git2::Error::message: the engine's description of a failure.
#[verifier::external_body]
fn git_err_text(e: &git2::Error) -> (s: String) {
    e.message().to_string()
}

/// Relies on git2::Error::code: whether the failure carries the engine's
/// not-found code.
#[verifier::external_body]
fn git_err_is_not_found(e: &git2::Error) -> (r: bool) {
    e.code() == git2::ErrorCode::NotFound
}

/// Relies on git2::Repository::head, git2::Reference::is_branch and
/// git2::Reference::shorthand: whether HEAD is a branch, and its short
/// name where one can be read.
#[verifier::external_body]
fn raw_head_info(repo: &git2::Repository) -> (r: Result<(bool, Option<String>), git2::Error>) {
    let head = repo.head()?;
    Ok((head.is_branch(), head.shorthand().ok().map(|s| s.to_string())))
}

/// Relies on git2::Index::add_all with pathspec `*` and
/// git2::Index::write: stages every change in the working directory.
#[verifier::external_body]
fn raw_add_all(repo: &git2::Repository) -> (r: Result<(), git2::Error>) {
    let mut index = repo.index()?;
    index.add_all(["*"].iter(), git2::IndexAddOption::DEFAULT, None)?;
    index.write()?;
    Ok(())
}

/// Relies on git2::Repository::head and git2::ErrorCode::UnbornBranch:
/// whether HEAD names an unborn branch, that is, a repository that has no
/// commit yet.
#[verifier::external_body]
fn raw_head_is_unborn(repo: &git2::Repository) -> (r: Result<bool, git2::Error>) {
    match repo.head() {
        Ok(_) => Ok(false),
        Err(e) if e.code() == git2::ErrorCode::UnbornBranch => Ok(true),
        Err(e) => Err(e),
    }
}

/// Relies on git2: git2::Index::write_tree turns the staged index into a
/// tree, and git2::Repository::commit creates a commit on HEAD from it
/// with HEAD's commit as the sole parent, returning the new commit id in
/// hexadecimal (git2::Oid renders as its hex digits).
#[verifier::external_body]
fn raw_commit_with_parent(repo: &git2::Repository, message: &str) -> (r: Result<
    String,
    git2::Error,
>) {
    let sig = repo.signature()?;
    let mut index = repo.index()?;
    let tree = repo.find_tree(index.write_tree()?)?;
    let parent = repo.head()?.peel_to_commit()?;
    let oid = repo.commit(Some("HEAD"), &sig, &sig, message, &tree, &[&parent])?;
    Ok(oid.to_string())
}

/// Relies on git2: git2::Index::write_tree turns the staged index into a
/// tree, and git2::Repository::commit creates a commit on HEAD from it
/// with no parent — a root commit — returning the new commit id in
/// hexadecimal (git2::Oid renders as its hex digits).
#[verifier::external_body]
fn raw_commit_root(repo: &git2::Repository, message: &str) -> (r: Result<String, git2::Error>) {
    let sig = repo.signature()?;
    let mut index = repo.index()?;
    let tree = repo.find_tree(index.write_tree()?)?;
    let oid = repo.commit(Some("HEAD"), &sig, &sig, message, &tree, &[])?;
    Ok(oid.to_string())
}

/// Relies on git2::Repository::statuses, asked to include untracked files
/// and to recurse into untracked directories; each entry is handed out as
/// its path (git2::StatusEntry::path) and its raw status bits
/// (git2::Status::bits).
#[verifier::external_body]
fn raw_status_entries(repo: &git2::Repository) -> (r: Result<Vec<(String, u32)>, git2::Error>) {
    let mut opts = git2::StatusOptions::new();
    opts.include_untracked(true).recurse_untracked_dirs(true);
    let statuses = repo.statuses(Some(&mut opts))?;
    Ok(statuses.iter().map(
        |e| (e.path().unwrap_or("<unknown>").to_string(), e.status().bits()),
    ).collect())
}

/// Relies on git2::Revwalk: pushed from HEAD and sorted with
/// git2::Sort::TIME, the walk enumerates the reachable history and emits
/// it by commit time, newest first; the cut after `n` commits means no
/// more than `n` are returned. Each is handed out as its id, message,
/// author name and commit time (git2::Commit and git2::Time::seconds),
/// so the `time` fields of the result are nonincreasing.
#[verifier::external_body]
fn raw_recent_commits(repo: &git2::Repository, n: usize) -> (r: Result<
    Vec<CommitInfo>,
    git2::Error,
>)
    ensures
        r matches Ok(v) ==> v@.len() <= n,
        r matches Ok(v) ==> forall|i: int, j: int|
            0 <= i <= j < v@.len() ==> (#[trigger] v@[i]).time >= (#[trigger] v@[j]).time,
{
    let mut revwalk = repo.revwalk()?;
    revwalk.push_head()?;
    revwalk.set_sorting(git2::Sort::TIME)?;
    let mut commits = Vec::new();
    for oid in revwalk.take(n) {
        let commit = repo.find_commit(oid?)?;
        commits.push(CommitInfo {
            oid: commit.id().to_string(),
            message: commit.message().unwrap_or("<no message>").to_string(),
            author: commit.author().name().unwrap_or("<unknown>").to_string(),
            time: commit.time().seconds(),
        });
    }
    Ok(commits)
}

/// Relies on git2::Repository::worktrees: the names of the linked
/// worktrees, in the engine's order.
#[verifier::external_body]
fn raw_worktrees(repo: &git2::Repository) -> (r: Result<Vec<String>, git2::Error>) {
    let names = repo.worktrees()?;
    Ok(names.iter().map(|n| n.ok().flatten().unwrap_or("<invalid>").to_string()).collect())
}

/// Wrap an engine failure as the application's error for it.
fn engine_error(e: git2::Error) -> (r: GitzError)
    ensures
        r is GitOperationFailed,
{
    GitzError::GitOperationFailed(git_err_text(&e))
}

/// One character of Unicode white space: the characters `str::trim`
/// removes.
pub open spec fn is_space(c: char) -> bool {
    (c as u32) == 0x20 || (0x9 <= (c as u32) && (c as u32) <= 0xD) || (c as u32) == 0x85 || (
    c as u32) == 0xA0 || (c as u32) == 0x1680 || (0x2000 <= (c as u32) && (c as u32) <= 0x200A) || (
    c as u32) == 0x2028 || (c as u32) == 0x2029 || (c as u32) == 0x202F || (c as u32) == 0x205F || (
    c as u32) == 0x3000
}

/// A text is blank when it is empty or all white space: exactly the texts
/// whose trimmed form is empty.
pub open spec fn is_blank(s: Seq<char>) -> bool {
    forall|i: int| 0 <= i < s.len() ==> is_space(#[trigger] s[i])
}

/// Whether one character is white space.
fn is_space_exec(c: char) -> (r: bool)
    ensures
        r == is_space(c),
{
    let u = c as u32;
    u == 0x20 || (0x9 <= u && u <= 0xD) || u == 0x85 || u == 0xA0 || u == 0x1680 || (0x2000 <= u
        && u <= 0x200A) || u == 0x2028 || u == 0x2029 || u == 0x202F || u == 0x205F || u == 0x3000
}

/// Whether the text is empty or all white space.
pub fn is_blank_str(s: &str) -> (r: bool)
    ensures
        r == is_blank(s@),
{
    let n = s.unicode_len();
    let mut i: usize = 0;
    while i < n
        invariant
            i <= n,
            n == s@.len(),
            forall|j: int| 0 <= j < i ==> is_space(#[trigger] s@[j]),
        decreases n - i,
    {
        let c = s.get_char(i);
        if !is_space_exec(c) {
            return false;
        }
        i += 1;
    }
    true
}

/// The branch name shown for a HEAD state: the short name while HEAD is on
/// a branch (`HEAD` when the name cannot be read), and a detached marker
/// otherwise.
pub open spec fn spec_branch_display(is_branch: bool, shorthand: Option<Seq<char>>) -> Seq<char> {
    if is_branch {
        match shorthand {
            Some(name) => name,
            None => "HEAD"@,
        }
    } else {
        "HEAD (detached)"@
    }
}

/// Render the branch name for a HEAD state.
pub fn branch_display(is_branch: bool, shorthand: Option<String>) -> (r: String)
    ensures
        r@ == spec_branch_display(
            is_branch,
            match shorthand {
                Some(name) => Some(name@),
                None => None,
            },
        ),
{
    if is_branch {
        match shorthand {
            Some(name) => name,
            None => "HEAD".to_owned(),
        }
    } else {
        "HEAD (detached)".to_owned()
    }
}

/// Wrapper around the version-control engine providing high-level helpers.
/// There is no caching here: every call re-queries the engine; the views
/// cache what they need and refresh explicitly.
pub struct Repository {
    inner: git2::Repository,
    path: String,
}

impl Repository {
    /// The path of the repository's own directory, as recorded when the
    /// repository was opened or initialised.
    pub closed spec fn spec_path(&self) -> Seq<char> {
        self.path@
    }

    /// Open an existing repository. When the engine reports that there is
    /// no repository at the path, the failure is a not-found error naming
    /// that path; any other engine failure is an operation failure.
    pub fn open(path: &str) -> (r: Result<Repository, GitzError>)
        ensures
            r matches Err(e) ==> (e is RepoNotFound || e is GitOperationFailed),
            r matches Err(GitzError::RepoNotFound(p)) ==> p@ == path@,
    {
        match raw_open(path) {
            Ok(inner) => {
                let path = raw_repo_path(&inner);
                Ok(Repository { inner, path })
            },
            Err(e) => {
                if git_err_is_not_found(&e) {
                    Err(GitzError::RepoNotFound(path.to_owned()))
                } else {
                    Err(engine_error(e))
                }
            },
        }
    }

    /// Initialise a new repository.
    pub fn init(path: &str) -> (r: Result<Repository, GitzError>)
        ensures
            r matches Err(e) ==> e is GitOperationFailed,
    {
        match raw_init(path) {
            Ok(inner) => {
                let path = raw_repo_path(&inner);
                Ok(Repository { inner, path })
            },
            Err(e) => Err(engine_error(e)),
        }
    }

    /// Path of the repository's own directory.
    pub fn path(&self) -> (r: &String)
        ensures
            r@ == self.spec_path(),
    {
        &self.path
    }

    /// Current branch name, or a detached-HEAD marker.
    pub fn current_branch(&self) -> (r: Result<String, GitzError>)
        ensures
            r matches Err(e) ==> e is GitOperationFailed,
    {
        match raw_head_info(&self.inner) {
            Ok((is_branch, shorthand)) => {
                let name = branch_display(is_branch, shorthand);
                Ok(name)
            },
            Err(e) => Err(engine_error(e)),
        }
    }

    /// Stage all changes (the add-all operation); there is no
    /// partial-staging call in this core.
    pub fn add_all(&self) -> (r: Result<(), GitzError>)
        ensures
            r matches Err(e) ==> e is GitOperationFailed,
    {
        match raw_add_all(&self.inner) {
            Ok(()) => Ok(()),
            Err(e) => Err(engine_error(e)),
        }
    }

    /// Create a commit from the staged tree with the given message. A
    /// blank message — empty or all white space — is rejected without any
    /// engine call, so the repository is left unchanged. On an unborn
    /// branch — a repository with no commit yet — the commit is created
    /// as the root commit, with no parent; otherwise HEAD's commit is the
    /// sole parent.
    pub fn commit(&self, message: &str) -> (r: Result<String, GitzError>)
        ensures
            is_blank(message@) ==> (r matches Err(e) && e matches GitzError::InvalidInput(m) && m@
                == "Commit message cannot be empty"@),
            !is_blank(message@) ==> !(r matches Err(e) && e is InvalidInput),
            r matches Err(e) ==> (e is InvalidInput || e is GitOperationFailed),
    {
        if is_blank_str(message) {
            return Err(GitzError::InvalidInput("Commit message cannot be empty".to_owned()));
        }
        let unborn = match raw_head_is_unborn(&self.inner) {
            Ok(unborn) => unborn,
            Err(e) => {
                return Err(engine_error(e));
            },
        };
        let committed = if unborn {
            raw_commit_root(&self.inner, message)
        } else {
            raw_commit_with_parent(&self.inner, message)
        };
        match committed {
            Ok(oid) => Ok(oid),
            Err(e) => Err(engine_error(e)),
        }
    }

    /// Get a full status recompute (modified, added, deleted files),
    /// untracked files included. The snapshot is the engine's report
    /// classified by `RepoStatus::from_entries`, so a path appears in at
    /// most one of the three categories.
    pub fn status(&self) -> (r: Result<RepoStatus, GitzError>)
        ensures
            r matches Ok(st) ==> exists|entries: Seq<(String, u32)>|
                {
                    &&& st.modified@ == modified_of(entries)
                    &&& st.added@ == #[trigger] added_of(entries)
                    &&& st.deleted@ == deleted_of(entries)
                },
            r matches Ok(st) ==> st.spec_total() <= usize::MAX,
            r matches Ok(st) ==> forall|p: Seq<char>|
                !(#[trigger] seq_has_str(st.modified@, p) && seq_has_str(st.added@, p)),
            r matches Ok(st) ==> forall|p: Seq<char>|
                !(#[trigger] seq_has_str(st.modified@, p) && seq_has_str(st.deleted@, p)),
            r matches Ok(st) ==> forall|p: Seq<char>|
                !(#[trigger] seq_has_str(st.added@, p) && seq_has_str(st.deleted@, p)),
            r matches Err(e) ==> e is GitOperationFailed,
    {
        match raw_status_entries(&self.inner) {
            Ok(entries) => {
                let n = entries.len();
                let st = RepoStatus::from_entries(&entries);
                proof {
                    assert(st.spec_total() <= n);
                    assert(st.modified@ == modified_of(entries@) && st.added@ == added_of(entries@)
                        && st.deleted@ == deleted_of(entries@));
                }
                Ok(st)
            },
            Err(e) => Err(engine_error(e)),
        }
    }

    /// Retrieve the most recent commits, at most `n` of them, ordered by
    /// commit time, most recent first: the `time` fields are
    /// nonincreasing.
    pub fn recent_commits(&self, n: usize) -> (r: Result<Vec<CommitInfo>, GitzError>)
        ensures
            r matches Ok(commits) ==> commits@.len() <= n,
            r matches Ok(commits) ==> forall|i: int, j: int|
                0 <= i <= j < commits@.len() ==> (#[trigger] commits@[i]).time >= (
                #[trigger] commits@[j]).time,
            r matches Err(e) ==> e is GitOperationFailed,
    {
        match raw_recent_commits(&self.inner, n) {
            Ok(commits) => Ok(commits),
            Err(e) => Err(engine_error(e)),
        }
    }

    /// List the names of the linked worktrees.
    pub fn list_worktrees(&self) -> (r: Result<Vec<String>, GitzError>)
        ensures
            r matches Err(e) ==> e is GitOperationFailed,
    {
        match raw_worktrees(&self.inner) {
            Ok(names) => Ok(names),
            Err(e) => Err(engine_error(e)),
        }
    }
}

} // verus!
