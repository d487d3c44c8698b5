//! Typed error values of the library's modules, with their messages.

use vstd::prelude::*;

use crate::text::concat2;

verus! {

/// Shared fallback error for top-level boundary mapping.
///
/// The source variant holds the rendered message of the underlying error, since
/// the error object itself belongs to the boundary layer.
#[derive(Debug, Clone, PartialEq, Eq)]
pub enum AppError {
    Message(String),
    Source(String),
}

impl AppError {
    /// An error carrying a plain message.
    pub fn message(message: &str) -> (e: AppError)
        ensures
            e matches AppError::Message(m) && m@ == message@,
    {
        AppError::Message(message.to_owned())
    }

    /// An error wrapping the rendered text of a source error.
    pub fn source(source_text: &str) -> (e: AppError)
        ensures
            e matches AppError::Source(m) && m@ == source_text@,
    {
        AppError::Source(source_text.to_owned())
    }

    /// The error's message, as its `Display` shows it.
    pub fn render(&self) -> (s: String)
        ensures
            s@ == match self {
                AppError::Message(m) => m@,
                AppError::Source(m) => m@,
            },
    {
        match self {
            AppError::Message(m) => m.clone(),
            AppError::Source(m) => m.clone(),
        }
    }
}

/// Errors of the session module.
#[derive(Debug, Clone, PartialEq, Eq)]
pub enum SessionError {
    UnknownAction(String),
    UnknownState(String),
    UnknownCloneStatus(String),
    Message(String),
}

pub open spec fn session_error_text(e: SessionError) -> Seq<char> {
    match e {
        SessionError::UnknownAction(v) => "unknown session action: "@ + v@,
        SessionError::UnknownState(v) => "unknown session state: "@ + v@,
        SessionError::UnknownCloneStatus(v) => "unknown clone status: "@ + v@,
        SessionError::Message(m) => m@,
    }
}

impl SessionError {
    /// The error's message, as its `Display` shows it.
    pub fn render(&self) -> (s: String)
        ensures
            s@ == session_error_text(*self),
    {
        match self {
            SessionError::UnknownAction(v) => concat2("unknown session action: ", v.as_str()),
            SessionError::UnknownState(v) => concat2("unknown session state: ", v.as_str()),
            SessionError::UnknownCloneStatus(v) => concat2("unknown clone status: ", v.as_str()),
            SessionError::Message(m) => m.clone(),
        }
    }
}

} // verus!
