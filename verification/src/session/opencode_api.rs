//! The opencode server's HTTP API: its records and requests, its endpoints, and
//! how its answers are judged.
//!
//! The caller sends each request and hands back the status it got.

use vstd::prelude::*;

use crate::config::{parse_url_scheme, url_scheme, OpencodeApiConfig};
use crate::forgejo::client::is_success_status;
use crate::text::{concat2, decimal, owned, u64_to_decimal};

verus! {

#[derive(Debug, Clone, PartialEq, Eq)]
pub struct HealthResponse {
    pub healthy: bool,
    pub version: String,
}

#[derive(Debug, Clone, PartialEq, Eq)]
pub struct SessionRecord {
    pub id: String,
    pub directory: String,
    pub title: String,
    pub version: String,
}

#[derive(Debug, Clone, PartialEq, Eq)]
pub struct CreateSessionRequest {
    pub parent_id: Option<String>,
    pub title: String,
}

#[derive(Debug, Clone, PartialEq, Eq)]
pub enum SessionStatus {
    Idle,
    Busy,
    Retry { attempt: u64, message: String, next: u64 },
}

#[derive(Debug, Clone, PartialEq, Eq)]
pub enum PromptPartInput {
    Text { text: String },
}

#[derive(Debug, Clone, PartialEq, Eq)]
pub struct PromptModelInput {
    pub provider_id: String,
    pub model_id: String,
}

#[derive(Debug, Clone, PartialEq, Eq)]
pub struct PromptAsyncRequest {
    pub agent: Option<String>,
    pub model: Option<PromptModelInput>,
    pub no_reply: Option<bool>,
    pub parts: Vec<PromptPartInput>,
}

/// The API's base URL from the configuration; without one no client is made.
pub fn api_base_url(config: &OpencodeApiConfig) -> (r: Result<String, String>)
    ensures
        match config.base_url {
            Some(u) => r matches Ok(v) && v@ == u@,
            None => r matches Err(m) && m@ == "opencode API base URL is missing from configuration"@,
        },
{
    match &config.base_url {
        Some(u) => Ok(u.clone()),
        None => Err(owned("opencode API base URL is missing from configuration")),
    }
}

/// Checks that the API's base URL parses as a URL.
pub fn check_api_base_url(base_url: &str) -> (r: Result<(), String>)
    ensures
        r is Ok <==> url_scheme(base_url@) is Some,
        r matches Err(m) ==> m@ == "failed to parse opencode API base URL: "@ + base_url@,
{
    match parse_url_scheme(base_url) {
        Some(_) => Ok(()),
        None => Err(concat2("failed to parse opencode API base URL: ", base_url)),
    }
}

/// `/global/health`.
pub fn health_path() -> (r: String)
    ensures
        r@ == "/global/health"@,
{
    owned("/global/health")
}

/// `/session`.
pub fn sessions_path() -> (r: String)
    ensures
        r@ == "/session"@,
{
    owned("/session")
}

/// `/session/status`.
pub fn session_status_path() -> (r: String)
    ensures
        r@ == "/session/status"@,
{
    owned("/session/status")
}

/// `/session/{id}`.
pub fn session_path(session_id: &str) -> (r: String)
    ensures
        r@ == "/session/"@ + session_id@,
{
    concat2("/session/", session_id)
}

/// `/session/{id}/prompt_async`.
pub fn prompt_async_path(session_id: &str) -> (r: String)
    ensures
        r@ == "/session/"@ + session_id@ + "/prompt_async"@,
{
    let mut p = concat2("/session/", session_id);
    p.append("/prompt_async");
    p
}

/// `/session/{id}/abort`.
pub fn abort_path(session_id: &str) -> (r: String)
    ensures
        r@ == "/session/"@ + session_id@ + "/abort"@,
{
    let mut p = concat2("/session/", session_id);
    p.append("/abort");
    p
}

/// A prompt made of one text part.
pub fn text_prompt(agent: Option<String>, model: Option<PromptModelInput>, text: &str) -> (r:
    PromptAsyncRequest)
    ensures
        r.agent == agent,
        r.model == model,
        r.no_reply is None,
        r.parts@.len() == 1,
        r.parts@[0] matches PromptPartInput::Text { text: t } && t@ == text@,
{
    let mut parts: Vec<PromptPartInput> = Vec::new();
    parts.push(PromptPartInput::Text { text: owned(text) });
    PromptAsyncRequest { agent, model, no_reply: None, parts }
}

/// `{operation} failed: {status} {reason} - {body}`, the reason being `Unknown`
/// when the status has none.
pub fn api_failure_message(operation: &str, status: u16, reason: Option<&str>, body: &str) -> (r:
    String)
    ensures
        r@ == operation@ + " failed: "@ + decimal(status as nat) + " "@ + match reason {
            Some(x) => x@,
            None => "Unknown"@,
        } + " - "@ + body@,
{
    let mut m = concat2(operation, " failed: ");
    m.append(u64_to_decimal(status as u64).as_str());
    m.append(" ");
    match reason {
        Some(x) => m.append(x),
        None => m.append("Unknown"),
    }
    m.append(" - ");
    m.append(body);
    m
}

/// Whether a prompt was accepted: `204`, or any other success.
pub fn prompt_accepted(status: u16) -> (r: bool)
    ensures
        r == (status == 204 || is_success_status(status)),
{
    status == 204 || (200 <= status && status < 300)
}

} // verus!
