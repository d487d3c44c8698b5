//! Errors of loading a repository's environment.
//!
//! An error raised by another layer (the process, the JSON reader) is held as
//! its rendered message.

use vstd::prelude::*;

use crate::text::{decimal, i64_to_decimal, owned, signed_decimal, u64_to_decimal};

verus! {

#[derive(Debug, Clone, PartialEq, Eq)]
pub enum EnvLoaderError {
    InvalidLoaderType(String),
    CommandExecution { command: String, message: String },
    CommandFailed { command: String, exit_code: Option<i32>, stderr: String },
    ParseJson { loader: String, output: String, message: String },
    Timeout(u64),
}

/// An optional exit code as `{:?}` shows it: `Some(1)` or `None`.
pub open spec fn exit_code_text(code: Option<i32>) -> Seq<char> {
    match code {
        Some(c) => "Some("@ + signed_decimal(c as int) + ")"@,
        None => "None"@,
    }
}

pub open spec fn env_loader_error_text(e: EnvLoaderError) -> Seq<char> {
    match e {
        EnvLoaderError::InvalidLoaderType(v) => "Invalid env_loader type: "@ + v@
            + ". Must be 'none', 'direnv', or 'nix'"@,
        EnvLoaderError::CommandExecution { command, message } => "failed to execute '"@
            + command@ + "': "@ + message@,
        EnvLoaderError::CommandFailed { command, exit_code, stderr } => command@
            + " failed with exit code "@ + exit_code_text(exit_code) + ": "@ + stderr@,
        EnvLoaderError::ParseJson { loader, output, message } => "failed to parse "@ + loader@
            + " JSON output '"@ + output@ + "': "@ + message@,
        EnvLoaderError::Timeout(seconds) => "command timed out after "@ + decimal(seconds as nat)
            + " seconds"@,
    }
}

fn exit_code_render(code: Option<i32>) -> (s: String)
    ensures
        s@ == exit_code_text(code),
{
    match code {
        Some(c) => {
            let mut s = owned("Some(");
            s.append(i64_to_decimal(c as i64).as_str());
            s.append(")");
            s
        },
        None => owned("None"),
    }
}

impl EnvLoaderError {
    /// The error's message, as its `Display` shows it.
    pub fn render(&self) -> (s: String)
        ensures
            s@ == env_loader_error_text(*self),
    {
        match self {
            EnvLoaderError::InvalidLoaderType(v) => {
                let mut s = owned("Invalid env_loader type: ");
                s.append(v.as_str());
                s.append(". Must be 'none', 'direnv', or 'nix'");
                s
            },
            EnvLoaderError::CommandExecution { command, message } => {
                let mut s = owned("failed to execute '");
                s.append(command.as_str());
                s.append("': ");
                s.append(message.as_str());
                s
            },
            EnvLoaderError::CommandFailed { command, exit_code, stderr } => {
                let mut s = command.clone();
                s.append(" failed with exit code ");
                s.append(exit_code_render(*exit_code).as_str());
                s.append(": ");
                s.append(stderr.as_str());
                s
            },
            EnvLoaderError::ParseJson { loader, output, message } => {
                let mut s = owned("failed to parse ");
                s.append(loader.as_str());
                s.append(" JSON output '");
                s.append(output.as_str());
                s.append("': ");
                s.append(message.as_str());
                s
            },
            EnvLoaderError::Timeout(seconds) => {
                let mut s = owned("command timed out after ");
                s.append(u64_to_decimal(*seconds).as_str());
                s.append(" seconds");
                s
            },
        }
    }
}

} // verus!
