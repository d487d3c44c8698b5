//! Errors of cloning a repository.
//!
//! An error raised by another layer (the database, the file system, the git
//! process) is held as its rendered message.

use vstd::prelude::*;

use crate::text::{decimal, owned, u64_to_decimal};

verus! {

#[derive(Debug, Clone, PartialEq, Eq)]
pub enum CloneError {
    InvalidRepoName(String),
    StatusUpdate { repo: String, status: String, message: String },
    BarePathMissingParent(String),
    CreateParentDir { path: String, message: String },
    ExecuteClone(String),
    CloneFailed { repo: String, stderr: String },
    Timeout { repo: String, seconds: u64 },
    IncompleteExistingClone(String),
}

pub open spec fn clone_error_text(e: CloneError) -> Seq<char> {
    match e {
        CloneError::InvalidRepoName(m) => "repository name validation failed: "@ + m@,
        CloneError::StatusUpdate { repo, status, message } => "Failed to set clone status to '"@
            + status@ + "' for "@ + repo@ + ": "@ + message@,
        CloneError::BarePathMissingParent(path) => "Bare clone path has no parent: "@ + path@,
        CloneError::CreateParentDir { path, message } => "Failed to create parent directory "@
            + path@ + ": "@ + message@,
        CloneError::ExecuteClone(m) => "Failed to execute git clone command: "@ + m@,
        CloneError::CloneFailed { repo, stderr } => "Clone failed for "@ + repo@ + ": "@ + stderr@,
        CloneError::Timeout { repo, seconds } => "Clone timeout for "@ + repo@ + " after "@
            + decimal(seconds as nat) + " seconds"@,
        CloneError::IncompleteExistingClone(repo) => "Clone directory already exists for "@
            + repo@ + " but appears incomplete"@,
    }
}

impl CloneError {
    /// The error's message, as its `Display` shows it.
    pub fn render(&self) -> (s: String)
        ensures
            s@ == clone_error_text(*self),
    {
        match self {
            CloneError::InvalidRepoName(m) => {
                let mut s = owned("repository name validation failed: ");
                s.append(m.as_str());
                s
            },
            CloneError::StatusUpdate { repo, status, message } => {
                let mut s = owned("Failed to set clone status to '");
                s.append(status.as_str());
                s.append("' for ");
                s.append(repo.as_str());
                s.append(": ");
                s.append(message.as_str());
                s
            },
            CloneError::BarePathMissingParent(path) => {
                let mut s = owned("Bare clone path has no parent: ");
                s.append(path.as_str());
                s
            },
            CloneError::CreateParentDir { path, message } => {
                let mut s = owned("Failed to create parent directory ");
                s.append(path.as_str());
                s.append(": ");
                s.append(message.as_str());
                s
            },
            CloneError::ExecuteClone(m) => {
                let mut s = owned("Failed to execute git clone command: ");
                s.append(m.as_str());
                s
            },
            CloneError::CloneFailed { repo, stderr } => {
                let mut s = owned("Clone failed for ");
                s.append(repo.as_str());
                s.append(": ");
                s.append(stderr.as_str());
                s
            },
            CloneError::Timeout { repo, seconds } => {
                let mut s = owned("Clone timeout for ");
                s.append(repo.as_str());
                s.append(" after ");
                s.append(u64_to_decimal(*seconds).as_str());
                s.append(" seconds");
                s
            },
            CloneError::IncompleteExistingClone(repo) => {
                let mut s = owned("Clone directory already exists for ");
                s.append(repo.as_str());
                s.append(" but appears incomplete");
                s
            },
        }
    }
}

} // verus!
