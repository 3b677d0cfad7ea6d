//! Central error type for the application. Engine failures arrive as plain
//! message strings; every variant can render itself as a line of text for
//! the status bar or the error stream.

use vstd::prelude::*;

verus! {

/// Everything that can go wrong in the application.
#[derive(Debug, Clone)]
pub enum GitzError {
    /// No repository was found at the given path.
    RepoNotFound(String),
    /// An engine call failed; the payload is the engine's message.
    GitOperationFailed(String),
    /// The caller handed in something unusable, such as an empty commit
    /// message.
    InvalidInput(String),
    /// A merge conflict was detected.
    MergeConflict,
    /// A branch name was not acceptable.
    InvalidBranchName(String),
    /// Authentication failed.
    AuthFailed,
    /// The user cancelled the operation.
    Cancelled,
    /// The configuration could not be loaded or parsed.
    Config(String),
    /// An input/output failure outside the engine.
    Io(String),
}

/// Whether a text is the rendering of an engine failure: the text some
/// `GitOperationFailed` error produces.
pub open spec fn engine_failure_text(s: Seq<char>) -> bool {
    exists|e: GitzError| e is GitOperationFailed && s == (#[trigger] e.spec_text())
}

impl GitzError {
    /// The one-line description of the error.
    pub open spec fn spec_text(&self) -> Seq<char> {
        match self {
            GitzError::RepoNotFound(p) => "Repository not found at `"@ + p@ + "`"@,
            GitzError::GitOperationFailed(m) => "Git operation failed: "@ + m@,
            GitzError::InvalidInput(m) => "Invalid input: "@ + m@,
            GitzError::MergeConflict => "Merge conflict detected"@,
            GitzError::InvalidBranchName(n) => "Invalid branch name: "@ + n@,
            GitzError::AuthFailed => "Authentication failed"@,
            GitzError::Cancelled => "Operation cancelled by user"@,
            GitzError::Config(m) => "Configuration error: "@ + m@,
            GitzError::Io(m) => "IO error: "@ + m@,
        }
    }

    /// Render the error as a line of text.
    pub fn text(&self) -> (s: String)
        ensures
            s@ == self.spec_text(),
    {
        match self {
            GitzError::RepoNotFound(p) => {
                let mut s: String = "Repository not found at `".to_owned();
                s.append(p.as_str());
                s.append("`");
                s
            },
            GitzError::GitOperationFailed(m) => {
                let mut s: String = "Git operation failed: ".to_owned();
                s.append(m.as_str());
                s
            },
            GitzError::InvalidInput(m) => {
                let mut s: String = "Invalid input: ".to_owned();
                s.append(m.as_str());
                s
            },
            GitzError::MergeConflict => "Merge conflict detected".to_owned(),
            GitzError::InvalidBranchName(n) => {
                let mut s: String = "Invalid branch name: ".to_owned();
                s.append(n.as_str());
                s
            },
            GitzError::AuthFailed => "Authentication failed".to_owned(),
            GitzError::Cancelled => "Operation cancelled by user".to_owned(),
            GitzError::Config(m) => {
                let mut s: String = "Configuration error: ".to_owned();
                s.append(m.as_str());
                s
            },
            GitzError::Io(m) => {
                let mut s: String = "IO error: ".to_owned();
                s.append(m.as_str());
                s
            },
        }
    }
}

} // verus!
