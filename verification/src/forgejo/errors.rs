//! Errors of the Forgejo API client.
//!
//! A transport error is held as its rendered message.

use vstd::prelude::*;

use crate::text::{decimal, owned, u64_to_decimal};

verus! {

#[derive(Debug, Clone, PartialEq, Eq)]
pub enum ForgejoError {
    Http(String),
    UnexpectedStatus { status: u16, reason: String, body: String },
    Message(String),
}

pub open spec fn forgejo_error_text(e: ForgejoError) -> Seq<char> {
    match e {
        ForgejoError::Http(m) => "http error: "@ + m@,
        ForgejoError::UnexpectedStatus { status, reason, body } => "forgejo api error: "@
            + decimal(status as nat) + " "@ + reason@ + " - "@ + body@,
        ForgejoError::Message(m) => m@,
    }
}

impl ForgejoError {
    /// The error's message, as its `Display` shows it.
    pub fn render(&self) -> (s: String)
        ensures
            s@ == forgejo_error_text(*self),
    {
        match self {
            ForgejoError::Http(m) => {
                let mut s = owned("http error: ");
                s.append(m.as_str());
                s
            },
            ForgejoError::UnexpectedStatus { status, reason, body } => {
                let mut s = owned("forgejo api error: ");
                s.append(u64_to_decimal(*status as u64).as_str());
                s.append(" ");
                s.append(reason.as_str());
                s.append(" - ");
                s.append(body.as_str());
                s
            },
            ForgejoError::Message(m) => m.clone(),
        }
    }
}

} // verus!
