//! Errors of the database layer. Failures reported by the database driver or the
//! file system are carried as their rendered messages.

use vstd::prelude::*;
use vstd::string::*;

use crate::errors::{session_error_text, SessionError};
use crate::text::{concat2, owned};

verus! {

#[derive(Debug, Clone, PartialEq, Eq)]
pub enum DbError {
    Io { operation: String, path: String, message: String },
    InvalidDatabasePath(String),
    Connect { path: String, message: String },
    Migration(String),
    Query { operation: String, message: String },
    ConstraintViolation { operation: String, message: String },
    ParseCloneStatus { value: String, source: SessionError },
    ParseSessionState { value: String, source: SessionError },
    InvalidRepoFullName(String),
    InvalidCloneStatus(String),
    InvalidSessionState(String),
    NotFound { entity: String, key: String },
}

pub open spec fn db_error_text(e: DbError) -> Seq<char> {
    match e {
        DbError::Io { operation, path, message } => "database "@ + operation@ + " failed for "@
            + path@ + ": "@ + message@,
        DbError::InvalidDatabasePath(path) => "invalid database path (not UTF-8): "@ + path@,
        DbError::Connect { path, message } => "failed to connect to database "@ + path@ + ": "@
            + message@,
        DbError::Migration(message) => "failed to run database migrations: "@ + message@,
        DbError::Query { operation, message } => "database query failed during "@ + operation@
            + ": "@ + message@,
        DbError::ConstraintViolation { operation, message } =>
            "database constraint violation during "@ + operation@ + ": "@ + message@,
        DbError::ParseCloneStatus { value, source } => "failed to parse clone status '"@ + value@
            + "': "@ + session_error_text(source),
        DbError::ParseSessionState { value, source } => "failed to parse session state '"@
            + value@ + "': "@ + session_error_text(source),
        DbError::InvalidRepoFullName(message) => message@,
        DbError::InvalidCloneStatus(value) => "invalid clone status '"@ + value@
            + "': expected known state"@,
        DbError::InvalidSessionState(value) => "invalid session state '"@ + value@
            + "': expected known state"@,
        DbError::NotFound { entity, key } => entity@ + " not found: "@ + key@,
    }
}

fn join3(a: &str, b: &str, c: &str) -> (r: String)
    ensures
        r@ == a@ + b@ + c@,
{
    let mut r = concat2(a, b);
    r.append(c);
    r
}

impl DbError {
    /// The error of a failed query: a constraint violation when the driver reports a
    /// unique or foreign-key violation, else a plain query failure.
    pub fn from_query(operation: &str, constraint_violation: bool, message: &str) -> (e: DbError)
        ensures
            constraint_violation ==> (e matches DbError::ConstraintViolation {
                operation: o,
                message: m,
            } && o@ == operation@ && m@ == message@),
            !constraint_violation ==> (e matches DbError::Query { operation: o, message: m } && o@
                == operation@ && m@ == message@),
    {
        if constraint_violation {
            DbError::ConstraintViolation { operation: owned(operation), message: owned(message) }
        } else {
            DbError::Query { operation: owned(operation), message: owned(message) }
        }
    }

    /// The error's message, as its `Display` shows it.
    pub fn render(&self) -> (s: String)
        ensures
            s@ == db_error_text(*self),
    {
        match self {
            DbError::Io { operation, path, message } => {
                let mut s = join3("database ", operation.as_str(), " failed for ");
                s.append(path.as_str());
                s.append(": ");
                s.append(message.as_str());
                s
            },
            DbError::InvalidDatabasePath(path) => concat2(
                "invalid database path (not UTF-8): ",
                path.as_str(),
            ),
            DbError::Connect { path, message } => {
                let mut s = join3("failed to connect to database ", path.as_str(), ": ");
                s.append(message.as_str());
                s
            },
            DbError::Migration(message) => concat2(
                "failed to run database migrations: ",
                message.as_str(),
            ),
            DbError::Query { operation, message } => {
                let mut s = join3("database query failed during ", operation.as_str(), ": ");
                s.append(message.as_str());
                s
            },
            DbError::ConstraintViolation { operation, message } => {
                let mut s = join3(
                    "database constraint violation during ",
                    operation.as_str(),
                    ": ",
                );
                s.append(message.as_str());
                s
            },
            DbError::ParseCloneStatus { value, source } => {
                let mut s = join3("failed to parse clone status '", value.as_str(), "': ");
                s.append(source.render().as_str());
                s
            },
            DbError::ParseSessionState { value, source } => {
                let mut s = join3("failed to parse session state '", value.as_str(), "': ");
                s.append(source.render().as_str());
                s
            },
            DbError::InvalidRepoFullName(message) => message.clone(),
            DbError::InvalidCloneStatus(value) => join3(
                "invalid clone status '",
                value.as_str(),
                "': expected known state",
            ),
            DbError::InvalidSessionState(value) => join3(
                "invalid session state '",
                value.as_str(),
                "': expected known state",
            ),
            DbError::NotFound { entity, key } => join3(entity.as_str(), " not found: ", key.as_str()),
        }
    }
}

} // verus!
