//! Errors of removing a repository.
//!
//! An error raised by another layer is held as its rendered message.

use vstd::prelude::*;

use crate::text::owned;

verus! {

#[derive(Debug, Clone, PartialEq, Eq)]
pub enum RepoCleanupError {
    Database(String),
    Forgejo(String),
    Worktree(String),
    ActiveSessions(String),
}

pub open spec fn repo_cleanup_error_text(e: RepoCleanupError) -> Seq<char> {
    match e {
        RepoCleanupError::Database(m) => "database cleanup error: "@ + m@,
        RepoCleanupError::Forgejo(m) => "forgejo cleanup error: "@ + m@,
        RepoCleanupError::Worktree(m) => "worktree cleanup error: "@ + m@,
        RepoCleanupError::ActiveSessions(repo) => "cannot delete repository "@ + repo@
            + ": has active sessions in planning/building/revising state"@,
    }
}

impl RepoCleanupError {
    /// The error's message, as its `Display` shows it.
    pub fn render(&self) -> (s: String)
        ensures
            s@ == repo_cleanup_error_text(*self),
    {
        match self {
            RepoCleanupError::Database(m) => {
                let mut s = owned("database cleanup error: ");
                s.append(m.as_str());
                s
            },
            RepoCleanupError::Forgejo(m) => {
                let mut s = owned("forgejo cleanup error: ");
                s.append(m.as_str());
                s
            },
            RepoCleanupError::Worktree(m) => {
                let mut s = owned("worktree cleanup error: ");
                s.append(m.as_str());
                s
            },
            RepoCleanupError::ActiveSessions(repo) => {
                let mut s = owned("cannot delete repository ");
                s.append(repo.as_str());
                s.append(": has active sessions in planning/building/revising state");
                s
            },
        }
    }
}

} // verus!
