//! Errors of creating and removing git worktrees.
//!
//! An I/O error is held as its rendered message.

use vstd::prelude::*;

use crate::text::owned;

verus! {

#[derive(Debug, Clone, PartialEq, Eq)]
pub enum WorktreeError {
    BareCloneMissing(String),
    Io { operation: String, path: String, message: String },
    CommandExecution { operation: String, message: String },
    CommandFailed { operation: String, target: String, stderr: String },
}

pub open spec fn worktree_error_text(e: WorktreeError) -> Seq<char> {
    match e {
        WorktreeError::BareCloneMissing(path) => "Bare clone does not exist at "@ + path@
            + ". Please clone the repository first."@,
        WorktreeError::Io { operation, path, message } => "failed to "@ + operation@ + " "@
            + path@ + ": "@ + message@,
        WorktreeError::CommandExecution { operation, message } => "failed to execute "@
            + operation@ + ": "@ + message@,
        WorktreeError::CommandFailed { operation, target, stderr } => operation@
            + " failed for "@ + target@ + ": "@ + stderr@,
    }
}

impl WorktreeError {
    /// The error's message, as its `Display` shows it.
    pub fn render(&self) -> (s: String)
        ensures
            s@ == worktree_error_text(*self),
    {
        match self {
            WorktreeError::BareCloneMissing(path) => {
                let mut s = owned("Bare clone does not exist at ");
                s.append(path.as_str());
                s.append(". Please clone the repository first.");
                s
            },
            WorktreeError::Io { operation, path, message } => {
                let mut s = owned("failed to ");
                s.append(operation.as_str());
                s.append(" ");
                s.append(path.as_str());
                s.append(": ");
                s.append(message.as_str());
                s
            },
            WorktreeError::CommandExecution { operation, message } => {
                let mut s = owned("failed to execute ");
                s.append(operation.as_str());
                s.append(": ");
                s.append(message.as_str());
                s
            },
            WorktreeError::CommandFailed { operation, target, stderr } => {
                let mut s = operation.clone();
                s.append(" failed for ");
                s.append(target.as_str());
                s.append(": ");
                s.append(stderr.as_str());
                s
            },
        }
    }
}

} // verus!
