//! The Forgejo API as this service uses it: its endpoints, its authorization,
//! the bodies it is sent, and how its answers are judged.
//!
//! The caller sends each request and hands back the status it got.

use vstd::prelude::*;

use crate::forgejo::models::{CommentPayload, WebhookConfig, WebhookPayload};
use crate::text::{
    concat2, decimal, owned, starts_with, starts_with_spec, trim_end_char, trim_end_char_spec,
    u64_to_decimal, views,
};

verus! {

/// Where and as whom the Forgejo API is called.
#[derive(Debug, Clone)]
pub struct ForgejoApi {
    base_url: String,
    token: String,
    bot_username: String,
}

impl ForgejoApi {
    pub closed spec fn base_url_spec(&self) -> Seq<char> {
        self.base_url@
    }

    pub closed spec fn token_spec(&self) -> Seq<char> {
        self.token@
    }

    pub closed spec fn bot_username_spec(&self) -> Seq<char> {
        self.bot_username@
    }

    /// The API at `base_url` (without its trailing slashes), called with `token` as
    /// the account `bot_username`.
    pub fn new(base_url: &str, token: &str, bot_username: &str) -> (r: ForgejoApi)
        ensures
            r.base_url_spec() == trim_end_char_spec(base_url@, '/'),
            r.token_spec() == token@,
            r.bot_username_spec() == bot_username@,
    {
        ForgejoApi {
            base_url: trim_end_char(base_url, '/'),
            token: owned(token),
            bot_username: owned(bot_username),
        }
    }

    /// The `Authorization` header: `token {token}`.
    pub fn auth_header(&self) -> (r: String)
        ensures
            r@ == "token "@ + self.token_spec(),
    {
        concat2("token ", self.token.as_str())
    }

    /// The full URL of an API path; a path without its leading `/` gets one.
    pub fn api_url(&self, path: &str) -> (r: String)
        ensures
            r@ == self.base_url_spec() + if starts_with_spec(path@, "/"@) {
                path@
            } else {
                "/"@ + path@
            },
    {
        let mut u = self.base_url.clone();
        if !starts_with(path, "/") {
            u.append("/");
        }
        u.append(path);
        u
    }

    /// The account the API is called as.
    pub fn bot_username(&self) -> (r: &str)
        ensures
            r@ == self.bot_username_spec(),
    {
        self.bot_username.as_str()
    }

    /// The API's base URL.
    pub fn base_url(&self) -> (r: &str)
        ensures
            r@ == self.base_url_spec(),
    {
        self.base_url.as_str()
    }
}

// ---------------------------------------------------------------------------
// Endpoints
// ---------------------------------------------------------------------------

/// `/api/v1/repos/{repo}/issues/{id}`.
pub fn issue_path(repo: &str, issue_id: u64) -> (r: String)
    ensures
        r@ == "/api/v1/repos/"@ + repo@ + "/issues/"@ + decimal(issue_id as nat),
{
    let mut p = concat2("/api/v1/repos/", repo);
    p.append("/issues/");
    p.append(u64_to_decimal(issue_id).as_str());
    p
}

/// `/api/v1/user`.
pub fn user_path() -> (r: String)
    ensures
        r@ == "/api/v1/user"@,
{
    owned("/api/v1/user")
}

/// `/api/v1/repos/{repo}/issues/{id}/comments`: an issue's or a pull request's
/// timeline comments.
pub fn issue_comments_path(repo: &str, issue_id: u64) -> (r: String)
    ensures
        r@ == "/api/v1/repos/"@ + repo@ + "/issues/"@ + decimal(issue_id as nat) + "/comments"@,
{
    let mut p = issue_path(repo, issue_id);
    p.append("/comments");
    p
}

/// `/api/v1/repos/{repo}/pulls/{id}/comments`: a pull request's review comments.
pub fn pr_review_comments_path(repo: &str, pr_id: u64) -> (r: String)
    ensures
        r@ == "/api/v1/repos/"@ + repo@ + "/pulls/"@ + decimal(pr_id as nat) + "/comments"@,
{
    let mut p = concat2("/api/v1/repos/", repo);
    p.append("/pulls/");
    p.append(u64_to_decimal(pr_id).as_str());
    p.append("/comments");
    p
}

/// `/api/v1/repos/{repo}/hooks`.
pub fn hooks_path(repo: &str) -> (r: String)
    ensures
        r@ == "/api/v1/repos/"@ + repo@ + "/hooks"@,
{
    let mut p = concat2("/api/v1/repos/", repo);
    p.append("/hooks");
    p
}

/// `/api/v1/repos/{repo}/hooks/{id}`.
pub fn hook_path(repo: &str, hook_id: u64) -> (r: String)
    ensures
        r@ == "/api/v1/repos/"@ + repo@ + "/hooks/"@ + decimal(hook_id as nat),
{
    let mut p = concat2("/api/v1/repos/", repo);
    p.append("/hooks/");
    p.append(u64_to_decimal(hook_id).as_str());
    p
}

/// `/api/v1/repos/{repo}/collaborators`.
pub fn collaborators_path(repo: &str) -> (r: String)
    ensures
        r@ == "/api/v1/repos/"@ + repo@ + "/collaborators"@,
{
    let mut p = concat2("/api/v1/repos/", repo);
    p.append("/collaborators");
    p
}

// ---------------------------------------------------------------------------
// Request bodies
// ---------------------------------------------------------------------------

/// The body of a new comment.
pub fn comment_payload(body: &str) -> (r: CommentPayload)
    ensures
        r.body@ == body@,
{
    CommentPayload { body: owned(body) }
}

/// The body of a new webhook: an active `gitea` hook delivering JSON to `url`,
/// signed with `secret`, for issues, issue comments and pull requests.
pub fn webhook_payload(url: &str, secret: &str) -> (r: WebhookPayload)
    ensures
        r.hook_type@ == "gitea"@,
        r.config.url@ == url@,
        r.config.content_type@ == "json"@,
        r.config.secret@ == secret@,
        views(r.events@) == seq!["issues"@, "issue_comment"@, "pull_request"@],
        r.active,
{
    let events = vec![owned("issues"), owned("issue_comment"), owned("pull_request")];
    assert(views(events@) =~= seq!["issues"@, "issue_comment"@, "pull_request"@]);
    WebhookPayload {
        hook_type: owned("gitea"),
        config: WebhookConfig { url: owned(url), content_type: owned("json"), secret: owned(secret) },
        events,
        active: true,
    }
}

// ---------------------------------------------------------------------------
// Answers
// ---------------------------------------------------------------------------

/// Whether a status is a success (2xx).
pub open spec fn is_success_status(status: u16) -> bool {
    200 <= status < 300
}

/// `{prefix}: {status} {reason} - {body}`, the reason being `Unknown` when the
/// status has none.
pub open spec fn http_failure_text(
    prefix: Seq<char>,
    status: u16,
    reason: Option<Seq<char>>,
    body: Seq<char>,
) -> Seq<char> {
    prefix + ": "@ + decimal(status as nat) + " "@ + match reason {
        Some(r) => r,
        None => "Unknown"@,
    } + " - "@ + body
}

/// The message of a request that got a status other than success.
pub fn http_failure_message(prefix: &str, status: u16, reason: Option<&str>, body: &str) -> (r:
    String)
    ensures
        r@ == http_failure_text(
            prefix@,
            status,
            match reason {
                Some(x) => Some(x@),
                None => None,
            },
            body@,
        ),
{
    let mut m = concat2(prefix, ": ");
    m.append(u64_to_decimal(status as u64).as_str());
    m.append(" ");
    match reason {
        Some(r) => m.append(r),
        None => m.append("Unknown"),
    }
    m.append(" - ");
    m.append(body);
    m
}

/// Whether deleting a webhook went through: `204`, `404` (already gone) or any
/// other success.
pub fn webhook_delete_succeeded(status: u16) -> (r: bool)
    ensures
        r == (status == 204 || status == 404 || is_success_status(status)),
{
    status == 204 || status == 404 || (200 <= status && status < 300)
}

/// Whether the token may act on the repository: its collaborator listing
/// succeeded (`None` when the request could not be sent).
pub fn token_permitted(status: Option<u16>) -> (r: bool)
    ensures
        r == match status {
            Some(s) => is_success_status(s),
            None => false,
        },
{
    match status {
        Some(s) => 200 <= s && s < 300,
        None => false,
    }
}

} // verus!
