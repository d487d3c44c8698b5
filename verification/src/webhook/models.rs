//! Payloads of the Forgejo (Gitea-compatible) webhooks.

use vstd::prelude::*;

verus! {

/// X-Gitea-Event header values.
#[derive(Debug, Clone, Copy, PartialEq, Eq, Structural)]
pub enum GiteaEvent {
    Issues,
    IssueComment,
    PullRequest,
    PullRequestReviewComment,
    Other,
}

/// User object in webhook payloads.
#[derive(Debug, Clone)]
pub struct User {
    pub id: u64,
    pub login: String,
}

/// Repository object in webhook payloads.
#[derive(Debug, Clone)]
pub struct Repository {
    pub id: u64,
    pub full_name: String,
}

/// Issue or PR object in webhook payloads.
#[derive(Debug, Clone)]
pub struct IssueOrPR {
    pub number: u64,
    pub title: String,
    pub body: Option<String>,
}

/// Git reference object (head or base).
#[derive(Debug, Clone)]
pub struct GitRef {
    pub ref_field: String,
    pub sha: String,
}

/// Comment object in issue_comment webhooks.
#[derive(Debug, Clone)]
pub struct IssueCommentWebhook {
    pub id: u64,
    pub body: String,
    pub user: User,
}

/// Marker that an issue is a pull request, with the pull request's API URL.
#[derive(Debug, Clone)]
pub struct PullRequestLink {
    pub url: Option<String>,
}

/// Issue object in issue_comment webhooks (simplified); `pull_request` is present
/// when the comment was made on a pull request's timeline.
#[derive(Debug, Clone)]
pub struct IssueWebhook {
    pub number: u64,
    pub title: String,
    pub body: Option<String>,
    pub state: String,
    pub pull_request: Option<PullRequestLink>,
}

/// Pull request object in webhook payloads.
#[derive(Debug, Clone)]
pub struct PullRequestWebhook {
    pub number: u64,
    pub title: String,
    pub body: Option<String>,
    pub head: GitRef,
    pub base: GitRef,
    pub user: User,
    pub state: String,
}

/// Review comment object in webhook payloads.
#[derive(Debug, Clone)]
pub struct ReviewCommentWebhook {
    pub id: u64,
    pub body: String,
    pub user: User,
    pub path: String,
    pub line: Option<u64>,
}

/// Payload for issue_comment events.
#[derive(Debug, Clone)]
pub struct IssueCommentPayload {
    pub action: String,
    pub issue: IssueWebhook,
    pub comment: IssueCommentWebhook,
    pub repository: Repository,
    pub sender: User,
}

/// Payload for pull_request events.
#[derive(Debug, Clone)]
pub struct PullRequestPayload {
    pub action: String,
    pub pull_request: PullRequestWebhook,
    pub repository: Repository,
    pub sender: User,
}

/// Payload for pull_request_review_comment events.
#[derive(Debug, Clone)]
pub struct PullRequestReviewCommentPayload {
    pub action: String,
    pub pull_request: PullRequestWebhook,
    pub review_comment: ReviewCommentWebhook,
    pub repository: Repository,
    pub sender: User,
}

} // verus!
