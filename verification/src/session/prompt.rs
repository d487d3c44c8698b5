//! Prompts handed to the agent for each session action.

use vstd::prelude::*;
use vstd::string::*;

use crate::forgejo::models::{Issue, IssueComment, PullRequestReviewComment};
use crate::session::SessionAction;
use crate::text::{
    concat2, contains_spec, decimal, join, lemma_contains_concat, lemma_contains_self, lemma_contains_trans,
    lemma_join_contains_part, lemma_join_push, owned, u64_to_decimal,
};

verus! {

/// Explicit context values the agent must use for Forgejo tool arguments.
#[derive(Debug, Clone)]
pub struct PromptContext<'a> {
    pub repo_full_name: &'a str,
    pub issue_id: u64,
    pub pr_id: Option<u64>,
    pub base_branch: &'a str,
    pub work_branch: &'a str,
}

// ---------------------------------------------------------------------------
// Timestamps
// ---------------------------------------------------------------------------

/// What chrono gives for a timestamp: `Some` of its rendering as
/// `%Y-%m-%d %H:%M UTC` when `DateTime::parse_from_rfc3339` accepts it, else `None`.
pub uninterp spec fn rfc3339_minute_text(ts: Seq<char>) -> Option<Seq<char>>;

/// Parses `ts` with `chrono::DateTime::parse_from_rfc3339` and renders the result
/// with the format `%Y-%m-%d %H:%M UTC`. The contract names the outcome
/// `rfc3339_minute_text`; which strings chrono accepts, and the rendering, are not
/// restated here.
#[verifier::external_body]
fn rfc3339_to_minute_text(ts: &str) -> (r: Option<String>)
    ensures
        r matches Some(s) ==> rfc3339_minute_text(ts@) == Some(s@),
        r is None ==> rfc3339_minute_text(ts@) is None,
{
    match chrono::DateTime::parse_from_rfc3339(ts) {
        Ok(dt) => Some(dt.format("%Y-%m-%d %H:%M UTC").to_string()),
        Err(_) => None,
    }
}

/// A timestamp as shown in prompts: the RFC 3339 rendering when it parses, else the
/// text unchanged.
pub open spec fn timestamp_text(ts: Seq<char>) -> Seq<char> {
    match rfc3339_minute_text(ts) {
        Some(f) => f,
        None => ts,
    }
}

/// Formats a timestamp for display; text that is not RFC 3339 passes through.
pub fn format_timestamp(ts: &str) -> (r: String)
    ensures
        r@ == timestamp_text(ts@),
{
    match rfc3339_to_minute_text(ts) {
        Some(f) => f,
        None => owned(ts),
    }
}

// ---------------------------------------------------------------------------
// Comment listings
// ---------------------------------------------------------------------------

pub open spec fn issue_comment_line(c: IssueComment) -> Seq<char> {
    c.user.login@ + " ("@ + timestamp_text(c.created_at@) + "): "@ + c.body@
}

pub open spec fn line_suffix(line: Option<u64>) -> Seq<char> {
    match line {
        Some(l) => ":"@ + decimal(l as nat),
        None => seq![],
    }
}

pub open spec fn review_comment_line(c: PullRequestReviewComment) -> Seq<char> {
    c.user.login@ + " on "@ + c.path@ + line_suffix(c.line) + " ("@ + timestamp_text(
        c.created_at@,
    ) + "): "@ + c.body@
}

pub open spec fn issue_comments_text(comments: Seq<IssueComment>) -> Seq<char> {
    join(comments.map_values(|c: IssueComment| issue_comment_line(c)), "\n\n"@)
}

pub open spec fn review_comments_text(comments: Seq<PullRequestReviewComment>) -> Seq<char> {
    join(comments.map_values(|c: PullRequestReviewComment| review_comment_line(c)), "\n\n"@)
}

/// Each comment as `login (time): body`, separated by blank lines.
pub fn format_issue_comments(comments: &[IssueComment]) -> (r: String)
    ensures
        r@ == issue_comments_text(comments@),
{
    let mut out = String::new();
    let mut i: usize = 0;
    while i < comments.len()
        invariant
            i <= comments.len(),
            out@ == issue_comments_text(comments@.take(i as int)),
        decreases comments.len() - i,
    {
        let c = &comments[i];
        let ts = format_timestamp(c.created_at.as_str());
        let mut line = owned(c.user.login.as_str());
        line.append(" (");
        line.append(ts.as_str());
        line.append("): ");
        line.append(c.body.as_str());
        proof {
            let f = |c: IssueComment| issue_comment_line(c);
            assert(comments@.take(i + 1) =~= comments@.take(i as int).push(comments@[i as int]));
            assert(comments@.take(i + 1).map_values(f) =~= comments@.take(i as int).map_values(
                f,
            ).push(f(comments@[i as int])));
            lemma_join_push(comments@.take(i as int).map_values(f), "\n\n"@, f(comments@[i as int]));
        }
        if i > 0 {
            out.append("\n\n");
        }
        out.append(line.as_str());
        i = i + 1;
    }
    assert(comments@.take(comments.len() as int) =~= comments@);
    out
}

/// Each review comment as `login on path[:line] (time): body`, separated by blank
/// lines.
pub fn format_pr_review_comments(comments: &[PullRequestReviewComment]) -> (r: String)
    ensures
        r@ == review_comments_text(comments@),
{
    let mut out = String::new();
    let mut i: usize = 0;
    while i < comments.len()
        invariant
            i <= comments.len(),
            out@ == review_comments_text(comments@.take(i as int)),
        decreases comments.len() - i,
    {
        let c = &comments[i];
        let ts = format_timestamp(c.created_at.as_str());
        let mut line = owned(c.user.login.as_str());
        line.append(" on ");
        line.append(c.path.as_str());
        match c.line {
            Some(l) => {
                line.append(":");
                line.append(u64_to_decimal(l).as_str());
            },
            None => {},
        }
        line.append(" (");
        line.append(ts.as_str());
        line.append("): ");
        line.append(c.body.as_str());
        proof {
            let f = |c: PullRequestReviewComment| review_comment_line(c);
            assert(line@ =~= f(comments@[i as int]));
            assert(comments@.take(i + 1) =~= comments@.take(i as int).push(comments@[i as int]));
            assert(comments@.take(i + 1).map_values(f) =~= comments@.take(i as int).map_values(
                f,
            ).push(f(comments@[i as int])));
            lemma_join_push(comments@.take(i as int).map_values(f), "\n\n"@, f(comments@[i as int]));
        }
        if i > 0 {
            out.append("\n\n");
        }
        out.append(line.as_str());
        i = i + 1;
    }
    assert(comments@.take(comments.len() as int) =~= comments@);
    out
}

// ---------------------------------------------------------------------------
// Prompt pieces
// ---------------------------------------------------------------------------

pub open spec fn pr_id_text(pr_id: Option<u64>) -> Seq<char> {
    match pr_id {
        Some(id) => decimal(id as nat),
        None => "(none)"@,
    }
}

pub open spec fn pr_number_of(pr_id: Option<u64>) -> u64 {
    match pr_id {
        Some(id) => id,
        None => 0,
    }
}

pub open spec fn body_text(body: Option<String>) -> Seq<char> {
    match body {
        Some(b) => b@,
        None => "(no body)"@,
    }
}

pub open spec fn or_placeholder(text: Seq<char>, placeholder: Seq<char>) -> Seq<char> {
    if text.len() == 0 {
        placeholder
    } else {
        text
    }
}

fn pr_id_string(pr_id: Option<u64>) -> (r: String)
    ensures
        r@ == pr_id_text(pr_id),
{
    match pr_id {
        Some(id) => u64_to_decimal(id),
        None => owned("(none)"),
    }
}

fn body_string(body: &Option<String>) -> (r: String)
    ensures
        r@ == body_text(*body),
{
    match body {
        Some(b) => b.clone(),
        None => owned("(no body)"),
    }
}

fn or_placeholder_string(text: String, placeholder: &str) -> (r: String)
    ensures
        r@ == or_placeholder(text@, placeholder@),
{
    if text.as_str().unicode_len() == 0 {
        owned(placeholder)
    } else {
        text
    }
}

// ---------------------------------------------------------------------------
// Prompts
// ---------------------------------------------------------------------------

pub open spec fn plan_prompt_text(ctx: PromptContext, issue: Issue, comments: Seq<IssueComment>) -> Seq<char> {
    r#"You are working on issue #"#@ + decimal(issue.number as nat) + r#".

Explicit context (use these exact values for Forgejo tool arguments):
- repo: "#@ + ctx.repo_full_name@ + r#"
- issue_id: "#@ + decimal(ctx.issue_id as nat) + r#"
- pr_id: "#@ + pr_id_text(ctx.pr_id) + r#"
- base_branch: "#@ + ctx.base_branch@ + r#"
- work_branch: "#@ + ctx.work_branch@ + r#"

Issue Title: "#@ + issue.title@ + r#"

Issue Body:
"#@ + body_text(issue.body) + r#"

Issue Comments:
"#@ + or_placeholder(issue_comments_text(comments), "(no comments)"@) + r#"

You are operating in a single issue-to-PR workflow.

Your task:
1. Start by posting at least one concrete planning comment on this issue (approach, assumptions, tradeoffs)
2. If you need guidance or have questions while planning, ask them in an issue comment and wait for a user reply
3. After posting a planning comment, stop and wait for a new user comment before starting implementation
4. On a later trigger, if requirements are clear, post a short issue comment that you are starting implementation
5. Implement the solution, commit changes, and open a pull request linked to this issue
6. Post a final issue comment with what was done and the PR link

This run is headless (no interactive human chat).
Do not provide your deliverable as a plain assistant response.

Post your response as a comment on this issue using Forgejo MCP tools.
Split repo="#@ + ctx.repo_full_name@ + r#" into owner/repo and use issue index="#@ + decimal(ctx.issue_id as nat) + r#"."#@
}

pub open spec fn build_prompt_text(ctx: PromptContext, issue: Issue, comments: Seq<IssueComment>) -> Seq<char> {
    r#"You are continuing work on issue #"#@ + decimal(issue.number as nat) + r#".

Explicit context (use these exact values for Forgejo tool arguments):
- repo: "#@ + ctx.repo_full_name@ + r#"
- issue_id: "#@ + decimal(ctx.issue_id as nat) + r#"
- pr_id: "#@ + pr_id_text(ctx.pr_id) + r#"
- base_branch: "#@ + ctx.base_branch@ + r#"
- work_branch: "#@ + ctx.work_branch@ + r#"

Issue Title: "#@ + issue.title@ + r#"

Issue Body:
"#@ + body_text(issue.body) + r#"

Issue Comments:
"#@ + or_placeholder(issue_comments_text(comments), "(no comments)"@) + r#"

Build mode is active. Your task: Implement the solution and open a pull request.

1. Review the issue and any comments for context
2. Make the necessary code changes in the worktree
3. Commit your changes with a meaningful commit message
4. Create a pull request using Forgejo MCP tools
5. Link the PR to this issue in the description

Use explicit tool arguments for every Forgejo operation.

This run is headless (no interactive human chat).
Do not provide your deliverable as a plain assistant response.

When creating the PR via Forgejo MCP, set arguments to:
- owner/repo parsed from repo="#@ + ctx.repo_full_name@ + r#"
- head="#@ + ctx.work_branch@ + r#"
- base="#@ + ctx.base_branch@ + r#"

The PR body must include `Closes #"#@ + decimal(ctx.issue_id as nat) + r#"` on its own line."#@
}

pub open spec fn revision_prompt_text(
    ctx: PromptContext,
    issue: Issue,
    review_comments: Seq<PullRequestReviewComment>,
) -> Seq<char> {
    r#"Your PR #"#@ + decimal(pr_number_of(ctx.pr_id) as nat) + r#" on issue #"#@ + decimal(issue.number as nat) + r#" has received review comments.

Explicit context (use these exact values for Forgejo tool arguments):
- repo: "#@ + ctx.repo_full_name@ + r#"
- issue_id: "#@ + decimal(ctx.issue_id as nat) + r#"
- pr_id: "#@ + pr_id_text(ctx.pr_id) + r#"
- base_branch: "#@ + ctx.base_branch@ + r#"
- work_branch: "#@ + ctx.work_branch@ + r#"

Issue Title: "#@ + issue.title@ + r#"

Issue Body:
"#@ + body_text(issue.body) + r#"

Review Comments:
"#@ + or_placeholder(review_comments_text(review_comments), "(no review comments)"@) + r#"

Your task: Address these review comments and force-push an updated commit.

1. Review each comment carefully
2. Make the necessary changes to address the feedback
3. Commit your changes
4. Force-push the updated branch
5. Verify all comments are addressed

This run is headless (no interactive human chat).
Do not provide your deliverable as a plain assistant response.

Use explicit tool arguments for every Forgejo operation (repo/pr_id must match the context block)."#@
}

pub open spec fn prompt_text(
    phase: SessionAction,
    ctx: PromptContext,
    issue: Issue,
    issue_comments: Seq<IssueComment>,
    pr_review_comments: Seq<PullRequestReviewComment>,
) -> Seq<char> {
    match phase {
        SessionAction::Plan => plan_prompt_text(ctx, issue, issue_comments),
        SessionAction::Build => build_prompt_text(ctx, issue, issue_comments),
        SessionAction::Revision => revision_prompt_text(ctx, issue, pr_review_comments),
    }
}

/// Builds the prompt for the agent according to the session action.
pub fn build_prompt(
    phase: SessionAction,
    context: &PromptContext,
    issue: &Issue,
    issue_comments: &[IssueComment],
    pr_review_comments: &[PullRequestReviewComment],
) -> (r: String)
    ensures
        r@ == prompt_text(phase, *context, *issue, issue_comments@, pr_review_comments@),
{
    match phase {
        SessionAction::Plan => build_plan_prompt(context, issue, issue_comments),
        SessionAction::Build => build_build_prompt(context, issue, issue_comments),
        SessionAction::Revision => build_revision_prompt(context, issue, pr_review_comments),
    }
}

fn build_plan_prompt(ctx: &PromptContext, issue: &Issue, comments: &[IssueComment]) -> (r: String)
    ensures
        r@ == plan_prompt_text(*ctx, *issue, comments@),
{
    let comments_text = or_placeholder_string(format_issue_comments(comments), "(no comments)");
    let issue_number = u64_to_decimal(issue.number);
    let issue_id = u64_to_decimal(ctx.issue_id);
    let pr_id = pr_id_string(ctx.pr_id);
    let body = body_string(&issue.body);
    let mut s = owned(r#"You are working on issue #"#);
    s.append(issue_number.as_str());
    s.append(r#".

Explicit context (use these exact values for Forgejo tool arguments):
- repo: "#);
    s.append(ctx.repo_full_name);
    s.append(r#"
- issue_id: "#);
    s.append(issue_id.as_str());
    s.append(r#"
- pr_id: "#);
    s.append(pr_id.as_str());
    s.append(r#"
- base_branch: "#);
    s.append(ctx.base_branch);
    s.append(r#"
- work_branch: "#);
    s.append(ctx.work_branch);
    s.append(r#"

Issue Title: "#);
    s.append(issue.title.as_str());
    s.append(r#"

Issue Body:
"#);
    s.append(body.as_str());
    s.append(r#"

Issue Comments:
"#);
    s.append(comments_text.as_str());
    s.append(r#"

You are operating in a single issue-to-PR workflow.

Your task:
1. Start by posting at least one concrete planning comment on this issue (approach, assumptions, tradeoffs)
2. If you need guidance or have questions while planning, ask them in an issue comment and wait for a user reply
3. After posting a planning comment, stop and wait for a new user comment before starting implementation
4. On a later trigger, if requirements are clear, post a short issue comment that you are starting implementation
5. Implement the solution, commit changes, and open a pull request linked to this issue
6. Post a final issue comment with what was done and the PR link

This run is headless (no interactive human chat).
Do not provide your deliverable as a plain assistant response.

Post your response as a comment on this issue using Forgejo MCP tools.
Split repo="#);
    s.append(ctx.repo_full_name);
    s.append(r#" into owner/repo and use issue index="#);
    s.append(issue_id.as_str());
    s.append(r#"."#);
    s
}

fn build_build_prompt(ctx: &PromptContext, issue: &Issue, comments: &[IssueComment]) -> (r: String)
    ensures
        r@ == build_prompt_text(*ctx, *issue, comments@),
{
    let comments_text = or_placeholder_string(format_issue_comments(comments), "(no comments)");
    let issue_number = u64_to_decimal(issue.number);
    let issue_id = u64_to_decimal(ctx.issue_id);
    let pr_id = pr_id_string(ctx.pr_id);
    let body = body_string(&issue.body);
    let mut s = owned(r#"You are continuing work on issue #"#);
    s.append(issue_number.as_str());
    s.append(r#".

Explicit context (use these exact values for Forgejo tool arguments):
- repo: "#);
    s.append(ctx.repo_full_name);
    s.append(r#"
- issue_id: "#);
    s.append(issue_id.as_str());
    s.append(r#"
- pr_id: "#);
    s.append(pr_id.as_str());
    s.append(r#"
- base_branch: "#);
    s.append(ctx.base_branch);
    s.append(r#"
- work_branch: "#);
    s.append(ctx.work_branch);
    s.append(r#"

Issue Title: "#);
    s.append(issue.title.as_str());
    s.append(r#"

Issue Body:
"#);
    s.append(body.as_str());
    s.append(r#"

Issue Comments:
"#);
    s.append(comments_text.as_str());
    s.append(r#"

Build mode is active. Your task: Implement the solution and open a pull request.

1. Review the issue and any comments for context
2. Make the necessary code changes in the worktree
3. Commit your changes with a meaningful commit message
4. Create a pull request using Forgejo MCP tools
5. Link the PR to this issue in the description

Use explicit tool arguments for every Forgejo operation.

This run is headless (no interactive human chat).
Do not provide your deliverable as a plain assistant response.

When creating the PR via Forgejo MCP, set arguments to:
- owner/repo parsed from repo="#);
    s.append(ctx.repo_full_name);
    s.append(r#"
- head="#);
    s.append(ctx.work_branch);
    s.append(r#"
- base="#);
    s.append(ctx.base_branch);
    s.append(r#"

The PR body must include `Closes #"#);
    s.append(issue_id.as_str());
    s.append(r#"` on its own line."#);
    s
}

fn build_revision_prompt(
    ctx: &PromptContext,
    issue: &Issue,
    review_comments: &[PullRequestReviewComment],
) -> (r: String)
    ensures
        r@ == revision_prompt_text(*ctx, *issue, review_comments@),
{
    let pr_num: u64 = match ctx.pr_id {
        Some(id) => id,
        None => 0,
    };
    let review_text = or_placeholder_string(
        format_pr_review_comments(review_comments),
        "(no review comments)",
    );
    let pr_number = u64_to_decimal(pr_num);
    let issue_number = u64_to_decimal(issue.number);
    let issue_id = u64_to_decimal(ctx.issue_id);
    let pr_id = pr_id_string(ctx.pr_id);
    let body = body_string(&issue.body);
    let mut s = owned(r#"Your PR #"#);
    s.append(pr_number.as_str());
    s.append(r#" on issue #"#);
    s.append(issue_number.as_str());
    s.append(r#" has received review comments.

Explicit context (use these exact values for Forgejo tool arguments):
- repo: "#);
    s.append(ctx.repo_full_name);
    s.append(r#"
- issue_id: "#);
    s.append(issue_id.as_str());
    s.append(r#"
- pr_id: "#);
    s.append(pr_id.as_str());
    s.append(r#"
- base_branch: "#);
    s.append(ctx.base_branch);
    s.append(r#"
- work_branch: "#);
    s.append(ctx.work_branch);
    s.append(r#"

Issue Title: "#);
    s.append(issue.title.as_str());
    s.append(r#"

Issue Body:
"#);
    s.append(body.as_str());
    s.append(r#"

Review Comments:
"#);
    s.append(review_text.as_str());
    s.append(r#"

Your task: Address these review comments and force-push an updated commit.

1. Review each comment carefully
2. Make the necessary changes to address the feedback
3. Commit your changes
4. Force-push the updated branch
5. Verify all comments are addressed

This run is headless (no interactive human chat).
Do not provide your deliverable as a plain assistant response.

Use explicit tool arguments for every Forgejo operation (repo/pr_id must match the context block)."#);
    s
}

// ---------------------------------------------------------------------------
// What the prompts carry
// ---------------------------------------------------------------------------

/// A non-empty listing stands in place of its placeholder.
proof fn lemma_placeholder_keeps(text: Seq<char>, placeholder: Seq<char>, x: Seq<char>)
    requires
        contains_spec(text, x),
        x.len() > 0,
    ensures
        contains_spec(or_placeholder(text, placeholder), x),
{
    let k = choose|k: int| crate::text::occurs_at(text, x, k);
    assert(text.len() > 0);
}

/// A comment's line holds its author and its body.
proof fn lemma_issue_line_parts(c: IssueComment)
    ensures
        contains_spec(issue_comment_line(c), c.user.login@),
        contains_spec(issue_comment_line(c), c.body@),
        issue_comment_line(c).len() > 0,
{
    broadcast use lemma_contains_concat;
    reveal_strlit(" (");
    lemma_contains_self(c.user.login@);
    lemma_contains_self(c.body@);
}

/// A review comment's line holds its author, its file and its body.
proof fn lemma_review_line_parts(c: PullRequestReviewComment)
    ensures
        contains_spec(review_comment_line(c), c.user.login@),
        contains_spec(review_comment_line(c), c.path@),
        contains_spec(review_comment_line(c), c.body@),
        review_comment_line(c).len() > 0,
{
    broadcast use lemma_contains_concat;
    reveal_strlit(" on ");
    lemma_contains_self(c.user.login@);
    lemma_contains_self(c.path@);
    lemma_contains_self(c.body@);
}

/// The listing of issue comments holds every comment's line, author and body.
pub proof fn law_issue_listing_has_every_comment(comments: Seq<IssueComment>, i: int)
    requires
        0 <= i < comments.len(),
    ensures
        contains_spec(issue_comments_text(comments), issue_comment_line(comments[i])),
        contains_spec(issue_comments_text(comments), comments[i].user.login@),
        contains_spec(issue_comments_text(comments), comments[i].body@),
{
    let lines = comments.map_values(|c: IssueComment| issue_comment_line(c));
    lemma_join_contains_part(lines, "\n\n"@, i);
    lemma_issue_line_parts(comments[i]);
    lemma_contains_trans(issue_comments_text(comments), issue_comment_line(comments[i]), comments[i].user.login@);
    lemma_contains_trans(issue_comments_text(comments), issue_comment_line(comments[i]), comments[i].body@);
}

/// The listing of review comments holds every review comment's line, author, file
/// and body.
pub proof fn law_review_listing_has_every_comment(comments: Seq<PullRequestReviewComment>, i: int)
    requires
        0 <= i < comments.len(),
    ensures
        contains_spec(review_comments_text(comments), review_comment_line(comments[i])),
        contains_spec(review_comments_text(comments), comments[i].user.login@),
        contains_spec(review_comments_text(comments), comments[i].path@),
        contains_spec(review_comments_text(comments), comments[i].body@),
{
    let lines = comments.map_values(|c: PullRequestReviewComment| review_comment_line(c));
    lemma_join_contains_part(lines, "\n\n"@, i);
    lemma_review_line_parts(comments[i]);
    let all = review_comments_text(comments);
    let line = review_comment_line(comments[i]);
    lemma_contains_trans(all, line, comments[i].user.login@);
    lemma_contains_trans(all, line, comments[i].path@);
    lemma_contains_trans(all, line, comments[i].body@);
}

/// Plan and build prompts show the agent every issue comment: its line, its
/// author and its body.
pub proof fn law_prompts_show_every_issue_comment(
    ctx: PromptContext,
    issue: Issue,
    comments: Seq<IssueComment>,
    review_comments: Seq<PullRequestReviewComment>,
    i: int,
)
    requires
        0 <= i < comments.len(),
    ensures
        contains_spec(prompt_text(SessionAction::Plan, ctx, issue, comments, review_comments), issue_comment_line(comments[i])),
        contains_spec(prompt_text(SessionAction::Build, ctx, issue, comments, review_comments), issue_comment_line(comments[i])),
        contains_spec(prompt_text(SessionAction::Plan, ctx, issue, comments, review_comments), comments[i].body@),
        contains_spec(prompt_text(SessionAction::Build, ctx, issue, comments, review_comments), comments[i].body@),
        contains_spec(prompt_text(SessionAction::Plan, ctx, issue, comments, review_comments), comments[i].user.login@),
        contains_spec(prompt_text(SessionAction::Build, ctx, issue, comments, review_comments), comments[i].user.login@),
{
    let line = issue_comment_line(comments[i]);
    let listing = or_placeholder(issue_comments_text(comments), "(no comments)"@);
    law_issue_listing_has_every_comment(comments, i);
    lemma_issue_line_parts(comments[i]);
    lemma_placeholder_keeps(issue_comments_text(comments), "(no comments)"@, line);
    lemma_contains_trans(listing, line, comments[i].body@);
    lemma_contains_trans(listing, line, comments[i].user.login@);
    assert(contains_spec(plan_prompt_text(ctx, issue, comments), line)
        && contains_spec(plan_prompt_text(ctx, issue, comments), comments[i].body@)
        && contains_spec(plan_prompt_text(ctx, issue, comments), comments[i].user.login@)) by {
        broadcast use lemma_contains_concat;
    }
    assert(contains_spec(build_prompt_text(ctx, issue, comments), line)
        && contains_spec(build_prompt_text(ctx, issue, comments), comments[i].body@)
        && contains_spec(build_prompt_text(ctx, issue, comments), comments[i].user.login@)) by {
        broadcast use lemma_contains_concat;
    }
}

/// Revision prompts show the agent every review comment: its line, its author,
/// its file and its body.
pub proof fn law_revision_prompt_shows_every_review_comment(
    ctx: PromptContext,
    issue: Issue,
    comments: Seq<IssueComment>,
    review_comments: Seq<PullRequestReviewComment>,
    i: int,
)
    requires
        0 <= i < review_comments.len(),
    ensures
        contains_spec(prompt_text(SessionAction::Revision, ctx, issue, comments, review_comments), review_comment_line(review_comments[i])),
        contains_spec(prompt_text(SessionAction::Revision, ctx, issue, comments, review_comments), review_comments[i].body@),
        contains_spec(prompt_text(SessionAction::Revision, ctx, issue, comments, review_comments), review_comments[i].path@),
        contains_spec(prompt_text(SessionAction::Revision, ctx, issue, comments, review_comments), review_comments[i].user.login@),
{
    let c = review_comments[i];
    let line = review_comment_line(c);
    let listing = or_placeholder(review_comments_text(review_comments), "(no review comments)"@);
    law_review_listing_has_every_comment(review_comments, i);
    lemma_review_line_parts(c);
    lemma_placeholder_keeps(review_comments_text(review_comments), "(no review comments)"@, line);
    lemma_contains_trans(listing, line, c.body@);
    lemma_contains_trans(listing, line, c.path@);
    lemma_contains_trans(listing, line, c.user.login@);
    assert(contains_spec(revision_prompt_text(ctx, issue, review_comments), line)
        && contains_spec(revision_prompt_text(ctx, issue, review_comments), c.body@)
        && contains_spec(revision_prompt_text(ctx, issue, review_comments), c.path@)
        && contains_spec(revision_prompt_text(ctx, issue, review_comments), c.user.login@)) by {
        broadcast use lemma_contains_concat;
    }
}

} // verus!
