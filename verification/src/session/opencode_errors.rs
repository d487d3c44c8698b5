//! Errors of running opencode and dispatching sessions.
//!
//! An error raised by another layer (I/O, the database, Forgejo, the env loader,
//! git worktrees) is held as its rendered message.

use vstd::prelude::*;

use crate::text::{i64_to_decimal, owned, signed_decimal};

verus! {

#[derive(Debug, Clone, PartialEq, Eq)]
pub enum OpencodeError {
    Io { operation: String, path: String, message: String },
    Spawn { binary: String, resolved_path: String, message: String },
    ProcessFailed { exit_code: i32, stdout: String, stderr: String },
    SessionListFailed(String),
    SessionListParse { message: String, output: String },
    SessionBusy { session_id: String, state: String },
    MissingRepository(String),
    MissingCreatedSession(String),
    Database(String),
    Forgejo(String),
    EnvLoader(String),
    Worktree(String),
}

pub open spec fn opencode_error_text(e: OpencodeError) -> Seq<char> {
    match e {
        OpencodeError::Io { operation, path, message } => "failed to "@ + operation@ + " "@
            + path@ + ": "@ + message@,
        OpencodeError::Spawn { binary, resolved_path, message } =>
            "Failed to spawn opencode process: "@ + binary@ + " (resolved to "@ + resolved_path@
                + "): "@ + message@,
        OpencodeError::ProcessFailed { exit_code, stdout, stderr } =>
            "opencode process failed with exit code "@ + signed_decimal(exit_code as int)
                + ": stdout="@ + stdout@ + ", stderr="@ + stderr@,
        OpencodeError::SessionListFailed(stderr) => "opencode session list failed: "@ + stderr@,
        OpencodeError::SessionListParse { message, output } =>
            "Failed to parse opencode session list JSON from '"@ + output@ + "': "@ + message@,
        OpencodeError::SessionBusy { session_id, state } => "session "@ + session_id@
            + " is busy in state "@ + state@,
        OpencodeError::MissingRepository(repo) => "Repository "@ + repo@
            + " not found in database"@,
        OpencodeError::MissingCreatedSession(repo) =>
            "Failed to retrieve newly created session for "@ + repo@,
        OpencodeError::Database(m) => "database error: "@ + m@,
        OpencodeError::Forgejo(m) => "forgejo error: "@ + m@,
        OpencodeError::EnvLoader(m) => "env loader error: "@ + m@,
        OpencodeError::Worktree(m) => "worktree error: "@ + m@,
    }
}

impl OpencodeError {
    /// The error's message, as its `Display` shows it.
    pub fn render(&self) -> (s: String)
        ensures
            s@ == opencode_error_text(*self),
    {
        match self {
            OpencodeError::Io { operation, path, message } => {
                let mut s = owned("failed to ");
                s.append(operation.as_str());
                s.append(" ");
                s.append(path.as_str());
                s.append(": ");
                s.append(message.as_str());
                s
            },
            OpencodeError::Spawn { binary, resolved_path, message } => {
                let mut s = owned("Failed to spawn opencode process: ");
                s.append(binary.as_str());
                s.append(" (resolved to ");
                s.append(resolved_path.as_str());
                s.append("): ");
                s.append(message.as_str());
                s
            },
            OpencodeError::ProcessFailed { exit_code, stdout, stderr } => {
                let mut s = owned("opencode process failed with exit code ");
                s.append(i64_to_decimal(*exit_code as i64).as_str());
                s.append(": stdout=");
                s.append(stdout.as_str());
                s.append(", stderr=");
                s.append(stderr.as_str());
                s
            },
            OpencodeError::SessionListFailed(stderr) => {
                let mut s = owned("opencode session list failed: ");
                s.append(stderr.as_str());
                s
            },
            OpencodeError::SessionListParse { message, output } => {
                let mut s = owned("Failed to parse opencode session list JSON from '");
                s.append(output.as_str());
                s.append("': ");
                s.append(message.as_str());
                s
            },
            OpencodeError::SessionBusy { session_id, state } => {
                let mut s = owned("session ");
                s.append(session_id.as_str());
                s.append(" is busy in state ");
                s.append(state.as_str());
                s
            },
            OpencodeError::MissingRepository(repo) => {
                let mut s = owned("Repository ");
                s.append(repo.as_str());
                s.append(" not found in database");
                s
            },
            OpencodeError::MissingCreatedSession(repo) => {
                let mut s = owned("Failed to retrieve newly created session for ");
                s.append(repo.as_str());
                s
            },
            OpencodeError::Database(m) => {
                let mut s = owned("database error: ");
                s.append(m.as_str());
                s
            },
            OpencodeError::Forgejo(m) => {
                let mut s = owned("forgejo error: ");
                s.append(m.as_str());
                s
            },
            OpencodeError::EnvLoader(m) => {
                let mut s = owned("env loader error: ");
                s.append(m.as_str());
                s
            },
            OpencodeError::Worktree(m) => {
                let mut s = owned("worktree error: ");
                s.append(m.as_str());
                s
            },
        }
    }
}

} // verus!
