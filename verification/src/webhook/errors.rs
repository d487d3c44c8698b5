//! Errors of the webhook boundary.

use vstd::prelude::*;

use crate::text::concat2;

verus! {

#[derive(Debug, Clone, PartialEq, Eq)]
pub enum WebhookError {
    MissingSignature,
    InvalidSignatureEncoding,
    InvalidSignature,
    InvalidPayload(String),
    Message(String),
}

pub open spec fn webhook_error_text(e: WebhookError) -> Seq<char> {
    match e {
        WebhookError::MissingSignature => "missing signature header"@,
        WebhookError::InvalidSignatureEncoding => "invalid signature header encoding"@,
        WebhookError::InvalidSignature => "invalid signature"@,
        WebhookError::InvalidPayload(v) => "invalid payload: "@ + v@,
        WebhookError::Message(m) => m@,
    }
}

impl WebhookError {
    /// The error's message, as its `Display` shows it.
    pub fn render(&self) -> (s: String)
        ensures
            s@ == webhook_error_text(*self),
    {
        match self {
            WebhookError::MissingSignature => "missing signature header".to_owned(),
            WebhookError::InvalidSignatureEncoding => "invalid signature header encoding".to_owned(),
            WebhookError::InvalidSignature => "invalid signature".to_owned(),
            WebhookError::InvalidPayload(v) => concat2("invalid payload: ", v.as_str()),
            WebhookError::Message(m) => m.clone(),
        }
    }
}

} // verus!
