//! Records exchanged with the Forgejo API.

use vstd::prelude::*;

verus! {

/// User object returned by the Forgejo API.
#[derive(Debug, Clone)]
pub struct User {
    pub id: u64,
    pub login: String,
}

/// Issue returned by the Forgejo API.
#[derive(Debug, Clone)]
pub struct Issue {
    pub id: u64,
    pub number: u64,
    pub title: String,
    pub body: Option<String>,
    pub state: String,
    pub created_at: String,
    pub updated_at: String,
}

/// Comment on an issue returned by the Forgejo API.
#[derive(Debug, Clone)]
pub struct IssueComment {
    pub id: u64,
    pub body: String,
    pub user: User,
    pub created_at: String,
    pub updated_at: String,
}

/// Git reference object (head or base).
#[derive(Debug, Clone)]
pub struct GitRef {
    pub ref_field: String,
    pub sha: String,
}

/// Pull request returned by the Forgejo API.
#[derive(Debug, Clone)]
pub struct PullRequest {
    pub id: u64,
    pub number: u64,
    pub title: String,
    pub body: Option<String>,
    pub head: GitRef,
    pub base: GitRef,
    pub state: String,
    pub created_at: String,
    pub updated_at: String,
}

/// Review comment on a pull request returned by the Forgejo API.
#[derive(Debug, Clone)]
pub struct PullRequestReviewComment {
    pub id: u64,
    pub body: String,
    pub user: User,
    pub path: String,
    pub line: Option<u64>,
    pub created_at: String,
    pub updated_at: String,
}

/// Webhook returned by the Forgejo API.
#[derive(Debug, Clone)]
pub struct Webhook {
    pub id: u64,
    pub url: String,
    pub events: Vec<String>,
    pub active: bool,
}

/// Payload for creating a webhook.
#[derive(Debug, Clone)]
pub struct WebhookPayload {
    pub hook_type: String,
    pub config: WebhookConfig,
    pub events: Vec<String>,
    pub active: bool,
}

/// Webhook configuration.
#[derive(Debug, Clone)]
pub struct WebhookConfig {
    pub url: String,
    pub content_type: String,
    pub secret: String,
}

/// Payload for creating a comment.
#[derive(Debug, Clone)]
pub struct CommentPayload {
    pub body: String,
}

} // verus!
