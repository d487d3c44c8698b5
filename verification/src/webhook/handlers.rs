//! The decisions of the webhook handlers: which deliveries are acted on, what each
//! delivery is answered, what is posted on Forgejo, and which sessions are
//! dispatched.
//!
//! A handler alternates lookups and writes with decisions. The caller performs
//! each lookup and hands its outcome to the function for the next decision.

use vstd::prelude::*;
use vstd::string::*;

use crate::config::Config;
use crate::db::{new_record_id, NewSession, Session};
use crate::session::worktree::{bare_clone_path, worktree_path, bare_clone_path_spec, worktree_path_spec};
use crate::session::{
    comment_text_error, comment_text_no_context, derive_session_id, mode_name, session_id_spec,
    state_name, SessionAction, SessionMode, SessionState, SessionTrigger,
};
use crate::text::{concat2, contains, contains_spec, decimal, owned, str_eq, u64_to_decimal};
use crate::webhook::inflight::KeySet;
use crate::webhook::models::{
    IssueCommentPayload, PullRequestPayload, PullRequestReviewCommentPayload,
};
use crate::webhook::{extract_issue_id_from_branch, issue_id_from_branch_spec};

verus! {

// ---------------------------------------------------------------------------
// Replies, comments and lookups
// ---------------------------------------------------------------------------

/// The HTTP answer to a delivery.
#[derive(Debug, Clone, PartialEq, Eq)]
pub struct HttpReply {
    pub status: u16,
    pub body: String,
}

/// A `200` answer with `body`.
pub fn ok_response(body: &str) -> (r: HttpReply)
    ensures
        r.status == 200,
        r.body@ == body@,
{
    HttpReply { status: 200, body: owned(body) }
}

/// A comment to post: on a pull request, or on an issue.
#[derive(Debug, Clone, PartialEq, Eq)]
pub struct PostComment {
    pub on_pull_request: bool,
    pub number: u64,
    pub body: String,
}

/// The outcome of looking up a record.
#[derive(Debug, Clone)]
pub enum Lookup<T> {
    Found(T),
    NotFound,
    Failed(String),
}

/// What a handler does once its lookups are done: the answer, the comment to
/// post, whether the issue's dispatch lock is released now, and the session to
/// dispatch.
#[derive(Debug, Clone)]
pub struct HandlerOutcome {
    pub reply: HttpReply,
    pub comment: Option<PostComment>,
    pub release_lock: bool,
    pub dispatch: Option<SessionTrigger>,
}

/// `200` answers carry the handlers' fixed bodies.
pub open spec fn ok_reply(r: HttpReply, body: Seq<char>) -> bool {
    r.status == 200 && r.body@ == body
}

/// The answer to a comment written by the bot's own account.
pub fn bot_comment_reply(sender_id: u64, bot_user_id: u64) -> (r: Option<HttpReply>)
    ensures
        sender_id == bot_user_id ==> (r matches Some(reply) && ok_reply(reply, "OK - ignored bot comment"@)),
        sender_id != bot_user_id ==> r is None,
{
    if sender_id == bot_user_id {
        Some(ok_response("OK - ignored bot comment"))
    } else {
        None
    }
}

/// Whether a comment calls the bot: it holds `@forgebot`.
pub fn mentions_forgebot(body: &str) -> (r: bool)
    ensures
        r == contains_spec(body@, "@forgebot"@),
{
    contains(body, "@forgebot")
}

// ---------------------------------------------------------------------------
// Keys of processed deliveries and of issues with a dispatch in flight
// ---------------------------------------------------------------------------

pub open spec fn issue_lock_key_spec(repo_full_name: Seq<char>, issue_id: u64) -> Seq<char> {
    repo_full_name + "#"@ + decimal(issue_id as nat)
}

/// `{repo}#{issue}`: the key under which an issue's dispatch is in flight.
pub fn issue_lock_key(repo_full_name: &str, issue_id: u64) -> (r: String)
    ensures
        r@ == issue_lock_key_spec(repo_full_name@, issue_id),
{
    let mut k = concat2(repo_full_name, "#");
    k.append(u64_to_decimal(issue_id).as_str());
    k
}

pub open spec fn event_key_spec(payload: IssueCommentPayload) -> Seq<char> {
    "issue_comment:"@ + payload.repository.full_name@ + ":"@ + decimal(payload.comment.id as nat)
        + ":"@ + payload.action@
}

/// `issue_comment:{repo}:{comment_id}:{action}`: the key of a delivery.
pub fn issue_comment_event_key(payload: &IssueCommentPayload) -> (r: String)
    ensures
        r@ == event_key_spec(*payload),
{
    let mut k = concat2("issue_comment:", payload.repository.full_name.as_str());
    k.append(":");
    k.append(u64_to_decimal(payload.comment.id).as_str());
    k.append(":");
    k.append(payload.action.as_str());
    k
}

/// Records the delivery as processed; returns whether it was new.
pub fn mark_issue_comment_event_seen(processed: &mut KeySet, payload: &IssueCommentPayload) -> (r:
    bool)
    requires
        old(processed).wf(),
    ensures
        final(processed).wf(),
        r == !old(processed)@.contains(event_key_spec(*payload)),
        final(processed)@ == old(processed)@.insert(event_key_spec(*payload)),
{
    let key = issue_comment_event_key(payload);
    processed.insert(key.as_str())
}

/// Takes the issue's dispatch lock; returns whether it was free.
pub fn acquire_issue_dispatch_lock(in_flight: &mut KeySet, repo_full_name: &str, issue_id: u64) -> (r:
    bool)
    requires
        old(in_flight).wf(),
    ensures
        final(in_flight).wf(),
        r == !old(in_flight)@.contains(issue_lock_key_spec(repo_full_name@, issue_id)),
        final(in_flight)@ == old(in_flight)@.insert(issue_lock_key_spec(repo_full_name@, issue_id)),
{
    let key = issue_lock_key(repo_full_name, issue_id);
    in_flight.insert(key.as_str())
}

/// Releases the issue's dispatch lock.
pub fn release_issue_dispatch_lock(in_flight: &mut KeySet, repo_full_name: &str, issue_id: u64)
    requires
        old(in_flight).wf(),
    ensures
        final(in_flight).wf(),
        final(in_flight)@ == old(in_flight)@.remove(issue_lock_key_spec(repo_full_name@, issue_id)),
{
    let key = issue_lock_key(repo_full_name, issue_id);
    in_flight.remove(key.as_str());
}

// ---------------------------------------------------------------------------
// issue_comment
// ---------------------------------------------------------------------------

/// The pull request a comment was made on, when it was made on a pull request's
/// timeline.
pub fn pr_number_from_issue_comment(payload: &IssueCommentPayload) -> (r: Option<u64>)
    ensures
        r == match payload.issue.pull_request {
            Some(_) => Some(payload.issue.number),
            None => None::<u64>,
        },
{
    match &payload.issue.pull_request {
        Some(_) => Some(payload.issue.number),
        None => None,
    }
}

/// Whether the comment's repository is watched, as far as its lookup tells.
#[derive(Debug, Clone, Copy, PartialEq, Eq, Structural)]
pub enum RepoWatch {
    Watched,
    NotWatched,
    LookupFailed,
}

/// Where an admitted comment goes: to the session of the pull request it was made
/// on, or to its issue's session.
#[derive(Debug, Clone, Copy, PartialEq, Eq, Structural)]
pub enum IssueCommentRoute {
    PullRequest(u64),
    Issue,
}

pub open spec fn route_spec(payload: IssueCommentPayload) -> IssueCommentRoute {
    match payload.issue.pull_request {
        Some(_) => IssueCommentRoute::PullRequest(payload.issue.number),
        None => IssueCommentRoute::Issue,
    }
}

/// The admission of an `issue_comment` delivery from someone other than the bot:
/// the answer it gets, or its route; and the processed and in-flight key sets
/// after it. A comment in a repository that is not watched, or that does not
/// call the bot, is answered and leaves both sets alone (a failed watch lookup
/// does not refuse it). A delivery seen before is answered as a duplicate. Any
/// other is recorded as seen; it is then refused while its issue has a dispatch
/// in flight, and otherwise takes the issue's lock.
pub open spec fn admit_spec(
    payload: IssueCommentPayload,
    watch: RepoWatch,
    processed: Set<Seq<char>>,
    in_flight: Set<Seq<char>>,
) -> (Result<IssueCommentRoute, Seq<char>>, Set<Seq<char>>, Set<Seq<char>>) {
    let ek = event_key_spec(payload);
    let lk = issue_lock_key_spec(payload.repository.full_name@, payload.issue.number);
    if watch == RepoWatch::NotWatched {
        (Err("OK - repo not watched"@), processed, in_flight)
    } else if !contains_spec(payload.comment.body@, "@forgebot"@) {
        (Err("OK - no @forgebot trigger"@), processed, in_flight)
    } else if processed.contains(ek) {
        (Err("OK - duplicate issue_comment ignored"@), processed, in_flight)
    } else if in_flight.contains(lk) {
        (Err("OK - dispatch already in-flight"@), processed.insert(ek), in_flight)
    } else {
        (Ok(route_spec(payload)), processed.insert(ek), in_flight.insert(lk))
    }
}

/// Admits an `issue_comment` delivery from someone other than the bot, given the
/// outcome of its repository's watch lookup.
pub fn admit_issue_comment(
    payload: &IssueCommentPayload,
    watch: RepoWatch,
    processed: &mut KeySet,
    in_flight: &mut KeySet,
) -> (r: Result<IssueCommentRoute, HttpReply>)
    requires
        old(processed).wf(),
        old(in_flight).wf(),
    ensures
        final(processed).wf(),
        final(in_flight).wf(),
        final(processed)@ == admit_spec(*payload, watch, old(processed)@, old(in_flight)@).1,
        final(in_flight)@ == admit_spec(*payload, watch, old(processed)@, old(in_flight)@).2,
        match admit_spec(*payload, watch, old(processed)@, old(in_flight)@).0 {
            Ok(route) => r == Ok::<IssueCommentRoute, HttpReply>(route),
            Err(body) => r matches Err(reply) && ok_reply(reply, body),
        },
{
    if watch == RepoWatch::NotWatched {
        return Err(ok_response("OK - repo not watched"));
    }
    if !mentions_forgebot(payload.comment.body.as_str()) {
        return Err(ok_response("OK - no @forgebot trigger"));
    }
    if !mark_issue_comment_event_seen(processed, payload) {
        assert(old(processed)@.insert(event_key_spec(*payload)) =~= old(processed)@);
        return Err(ok_response("OK - duplicate issue_comment ignored"));
    }
    if !acquire_issue_dispatch_lock(in_flight, payload.repository.full_name.as_str(), payload.issue.number) {
        assert(old(in_flight)@.insert(
            issue_lock_key_spec(payload.repository.full_name@, payload.issue.number),
        ) =~= old(in_flight)@);
        return Err(ok_response("OK - dispatch already in-flight"));
    }
    match pr_number_from_issue_comment(payload) {
        Some(pr) => Ok(IssueCommentRoute::PullRequest(pr)),
        None => Ok(IssueCommentRoute::Issue),
    }
}

/// The comment a failed session lookup is reported with.
pub open spec fn load_failure_text(error_text: Seq<char>) -> Seq<char> {
    "❌ Error: "@ + "Failed to load session: "@ + error_text
}

fn load_failure_comment(error_text: &str) -> (r: String)
    ensures
        r@ == load_failure_text(error_text@),
{
    let m = concat2("Failed to load session: ", error_text);
    let r = comment_text_error(m.as_str());
    assert(r@ =~= load_failure_text(error_text@));
    r
}

pub open spec fn comment_spec(c: PostComment, on_pull_request: bool, number: u64, body: Seq<char>) -> bool {
    c.on_pull_request == on_pull_request && c.number == number && c.body@ == body
}

/// The revision that a comment on a pull request's timeline dispatches, for the
/// issue of the pull request's session.
pub open spec fn revision_trigger_spec(t: SessionTrigger, repo: Seq<char>, session: Session, pr: u64) -> bool {
    &&& t.repo_full_name@ == repo
    &&& t.issue_id == session.issue_id as u64
    &&& t.pr_id == Some(pr)
    &&& t.action == SessionAction::Revision
}

/// What an admitted comment on pull request `pr_number`'s timeline leads to, given
/// the lookup of the pull request's session: a revision dispatch, or a comment on
/// the pull request and the release of the issue's lock.
pub fn pr_timeline_outcome(
    payload: &IssueCommentPayload,
    pr_number: u64,
    lookup: Lookup<Session>,
) -> (r: HandlerOutcome)
    ensures
        match lookup {
            Lookup::Found(s) => ok_reply(r.reply, "OK - dispatching session"@) && r.comment is None
                && !r.release_lock && (r.dispatch matches Some(t) && revision_trigger_spec(
                t,
                payload.repository.full_name@,
                s,
                pr_number,
            )),
            Lookup::NotFound => ok_reply(r.reply, "OK - no session context"@) && (r.comment matches Some(
                c,
            ) && comment_spec(
                c,
                true,
                pr_number,
                "❌ I don't have context for this PR. Please ensure this PR was created through forgebot."@,
            )) && r.release_lock && r.dispatch is None,
            Lookup::Failed(e) => ok_reply(r.reply, "OK - error logged"@) && (r.comment matches Some(c)
                && comment_spec(c, true, pr_number, load_failure_text(e@))) && r.release_lock
                && r.dispatch is None,
        },
{
    match lookup {
        Lookup::Found(s) => HandlerOutcome {
            reply: ok_response("OK - dispatching session"),
            comment: None,
            release_lock: false,
            dispatch: Some(
                SessionTrigger {
                    repo_full_name: payload.repository.full_name.clone(),
                    issue_id: s.issue_id as u64,
                    pr_id: Some(pr_number),
                    action: SessionAction::Revision,
                },
            ),
        },
        Lookup::NotFound => HandlerOutcome {
            reply: ok_response("OK - no session context"),
            comment: Some(
                PostComment { on_pull_request: true, number: pr_number, body: comment_text_no_context() },
            ),
            release_lock: true,
            dispatch: None,
        },
        Lookup::Failed(e) => HandlerOutcome {
            reply: ok_response("OK - error logged"),
            comment: Some(
                PostComment {
                    on_pull_request: true,
                    number: pr_number,
                    body: load_failure_comment(e.as_str()),
                },
            ),
            release_lock: true,
            dispatch: None,
        },
    }
}

/// The next step of finding an issue's session after looking it up.
#[derive(Debug, Clone)]
pub enum IssueSessionStep {
    /// The session exists.
    Ready(Session),
    /// There is none: create it.
    Create,
    /// The lookup failed: post this comment and stop.
    Failed(PostComment),
}

/// The next step after looking up the session of the comment's issue.
pub fn issue_session_after_lookup(payload: &IssueCommentPayload, lookup: Lookup<Session>) -> (r:
    IssueSessionStep)
    ensures
        match lookup {
            Lookup::Found(s) => r == IssueSessionStep::Ready(s),
            Lookup::NotFound => r is Create,
            Lookup::Failed(e) => r matches IssueSessionStep::Failed(c) && comment_spec(
                c,
                false,
                payload.issue.number,
                load_failure_text(e@),
            ),
        },
{
    match lookup {
        Lookup::Found(s) => IssueSessionStep::Ready(s),
        Lookup::NotFound => IssueSessionStep::Create,
        Lookup::Failed(e) => IssueSessionStep::Failed(
            PostComment {
                on_pull_request: false,
                number: payload.issue.number,
                body: load_failure_comment(e.as_str()),
            },
        ),
    }
}

/// The record of the session an issue comment creates under the record ID `id`:
/// idle, collaborating, without a pull request, under the issue's derived session
/// ID and worktree.
pub fn issue_session_record_with_id(id: String, payload: &IssueCommentPayload, config: &Config) -> (r:
    NewSession)
    ensures
        r.id == id,
        r.repo_full_name@ == payload.repository.full_name@,
        r.issue_id == payload.issue.number as i64,
        r.pr_id is None,
        r.opencode_session_id@ == session_id_spec(payload.repository.full_name@, payload.issue.number),
        r.worktree_path@ == worktree_path_spec(
            config.opencode.worktree_base@,
            payload.repository.full_name@,
            payload.issue.number,
        ),
        r.state@ == state_name(SessionState::Idle),
        r.mode@ == mode_name(SessionMode::Collab),
{
    NewSession {
        id,
        repo_full_name: payload.repository.full_name.clone(),
        issue_id: payload.issue.number as i64,
        pr_id: None,
        opencode_session_id: derive_session_id(
            payload.repository.full_name.as_str(),
            payload.issue.number,
        ),
        worktree_path: worktree_path(
            &config.opencode,
            payload.repository.full_name.as_str(),
            payload.issue.number,
        ),
        state: SessionState::Idle.as_str().to_string(),
        mode: SessionMode::Collab.as_str().to_string(),
    }
}

/// The record of the session an issue comment creates, under a fresh random
/// record ID.
pub fn issue_session_record(payload: &IssueCommentPayload, config: &Config) -> (r: NewSession)
    ensures
        crate::db::is_uuid_v4_text(r.id@),
        r.repo_full_name@ == payload.repository.full_name@,
        r.issue_id == payload.issue.number as i64,
        r.pr_id is None,
        r.opencode_session_id@ == session_id_spec(payload.repository.full_name@, payload.issue.number),
        r.worktree_path@ == worktree_path_spec(
            config.opencode.worktree_base@,
            payload.repository.full_name@,
            payload.issue.number,
        ),
        r.state@ == state_name(SessionState::Idle),
        r.mode@ == mode_name(SessionMode::Collab),
{
    issue_session_record_with_id(new_record_id(), payload, config)
}

/// The comment a failed session insert is reported with, on the issue.
pub fn issue_session_insert_failure(payload: &IssueCommentPayload, error_text: &str) -> (c:
    PostComment)
    ensures
        comment_spec(
            c,
            false,
            payload.issue.number,
            "❌ Error: "@ + "Failed to create session: "@ + error_text@,
        ),
{
    let m = concat2("Failed to create session: ", error_text);
    let body = comment_text_error(m.as_str());
    assert(body@ =~= "❌ Error: "@ + "Failed to create session: "@ + error_text@);
    PostComment { on_pull_request: false, number: payload.issue.number, body }
}

/// How finding an issue's session ended.
#[derive(Debug, Clone)]
pub enum IssueCommentSessionResult {
    Ready(Session),
    ErrorLogged,
    CreationError,
}

/// How finding an issue's session ended, given the lookup right after creating it.
pub fn issue_session_after_reload(lookup: Lookup<Session>) -> (r: IssueCommentSessionResult)
    ensures
        match lookup {
            Lookup::Found(s) => r == IssueCommentSessionResult::Ready(s),
            _ => r is CreationError,
        },
{
    match lookup {
        Lookup::Found(s) => IssueCommentSessionResult::Ready(s),
        _ => IssueCommentSessionResult::CreationError,
    }
}

/// What an admitted comment on an issue leads to once its session is found: a
/// plan dispatch for the issue; otherwise the release of the issue's lock.
pub fn issue_route_outcome(payload: &IssueCommentPayload, result: IssueCommentSessionResult) -> (r:
    HandlerOutcome)
    ensures
        r.comment is None,
        match result {
            IssueCommentSessionResult::Ready(_) => ok_reply(r.reply, "OK - dispatching session"@)
                && !r.release_lock && (r.dispatch matches Some(t) && t.repo_full_name@
                == payload.repository.full_name@ && t.issue_id == payload.issue.number && t.pr_id
                is None && t.action == SessionAction::Plan),
            IssueCommentSessionResult::ErrorLogged => ok_reply(r.reply, "OK - error logged"@)
                && r.release_lock && r.dispatch is None,
            IssueCommentSessionResult::CreationError => ok_reply(
                r.reply,
                "OK - session creation error"@,
            ) && r.release_lock && r.dispatch is None,
        },
{
    match result {
        IssueCommentSessionResult::Ready(_) => HandlerOutcome {
            reply: ok_response("OK - dispatching session"),
            comment: None,
            release_lock: false,
            dispatch: Some(
                SessionTrigger {
                    repo_full_name: payload.repository.full_name.clone(),
                    issue_id: payload.issue.number,
                    pr_id: None,
                    action: SessionAction::Plan,
                },
            ),
        },
        IssueCommentSessionResult::ErrorLogged => HandlerOutcome {
            reply: ok_response("OK - error logged"),
            comment: None,
            release_lock: true,
            dispatch: None,
        },
        IssueCommentSessionResult::CreationError => HandlerOutcome {
            reply: ok_response("OK - session creation error"),
            comment: None,
            release_lock: true,
            dispatch: None,
        },
    }
}

// ---------------------------------------------------------------------------
// pull_request
// ---------------------------------------------------------------------------

/// What a `pull_request` delivery is about.
#[derive(Debug, Clone, Copy, PartialEq, Eq, Structural)]
pub enum PullRequestRoute {
    Opened,
    Closed,
    Unhandled,
}

/// Routes a `pull_request` action: `opened`; `closed` or `merged`; anything else.
pub fn pull_request_route(action: &str) -> (r: PullRequestRoute)
    ensures
        r == if action@ == "opened"@ {
            PullRequestRoute::Opened
        } else if action@ == "closed"@ || action@ == "merged"@ {
            PullRequestRoute::Closed
        } else {
            PullRequestRoute::Unhandled
        },
{
    if str_eq(action, "opened") {
        PullRequestRoute::Opened
    } else if str_eq(action, "closed") || str_eq(action, "merged") {
        PullRequestRoute::Closed
    } else {
        PullRequestRoute::Unhandled
    }
}

/// The answer to a `pull_request` action that is not handled.
pub fn unhandled_pull_request_reply() -> (r: HttpReply)
    ensures
        ok_reply(r, "OK - unhandled action"@),
{
    ok_response("OK - unhandled action")
}

/// The issue a pull request's head branch is the agent branch of; a pull request
/// from any other branch is answered as not the bot's.
pub fn pr_head_issue(payload: &PullRequestPayload) -> (r: Result<u64, HttpReply>)
    ensures
        match issue_id_from_branch_spec(payload.pull_request.head.ref_field@) {
            Some(id) => r == Ok::<u64, HttpReply>(id),
            None => r matches Err(reply) && ok_reply(reply, "OK - not a forgebot PR"@),
        },
{
    match extract_issue_id_from_branch(payload.pull_request.head.ref_field.as_str()) {
        Some(id) => Ok(id),
        None => Err(ok_response("OK - not a forgebot PR")),
    }
}

/// The session an opened pull request is linked to, given its lookup; without
/// one the delivery is answered.
pub fn pr_opened_session(lookup: Lookup<Session>) -> (r: Result<Session, HttpReply>)
    ensures
        match lookup {
            Lookup::Found(s) => r == Ok::<Session, HttpReply>(s),
            Lookup::NotFound => r matches Err(reply) && ok_reply(reply, "OK - no session found"@),
            Lookup::Failed(_) => r matches Err(reply) && ok_reply(reply, "OK - database error"@),
        },
{
    match lookup {
        Lookup::Found(s) => Ok(s),
        Lookup::NotFound => Err(ok_response("OK - no session found")),
        Lookup::Failed(_) => Err(ok_response("OK - database error")),
    }
}

/// The pull request ID stored on the linked session.
pub fn pr_link_id(payload: &PullRequestPayload) -> (r: i64)
    ensures
        r == payload.pull_request.number as i64,
{
    payload.pull_request.number as i64
}

/// The answer once the session's pull request ID was (or failed to be) stored.
pub fn pr_opened_reply(updated: bool) -> (r: HttpReply)
    ensures
        updated ==> ok_reply(r, "OK - PR linked to session"@),
        !updated ==> ok_reply(r, "OK - update error"@),
{
    if updated {
        ok_response("OK - PR linked to session")
    } else {
        ok_response("OK - update error")
    }
}

/// The session whose worktree a closed pull request frees, given its lookup;
/// without one the delivery is answered.
pub fn pr_closed_session(lookup: Lookup<Session>) -> (r: Result<Session, HttpReply>)
    ensures
        match lookup {
            Lookup::Found(s) => r == Ok::<Session, HttpReply>(s),
            Lookup::NotFound => r matches Err(reply) && ok_reply(reply, "OK - no session"@),
            Lookup::Failed(_) => r matches Err(reply) && ok_reply(reply, "OK - database error"@),
        },
{
    match lookup {
        Lookup::Found(s) => Ok(s),
        Lookup::NotFound => Err(ok_response("OK - no session")),
        Lookup::Failed(_) => Err(ok_response("OK - database error")),
    }
}

/// The worktree removal that a closed pull request queues.
#[derive(Debug, Clone)]
pub struct WorktreeCleanup {
    pub worktree_path: String,
    pub bare_clone_path: String,
    pub git_binary: String,
    pub reply: HttpReply,
}

/// The removal of the worktree of issue `issue_id` of the pull request's
/// repository, and the answer that it was queued.
pub fn pr_closed_cleanup(payload: &PullRequestPayload, issue_id: u64, config: &Config) -> (r:
    WorktreeCleanup)
    ensures
        r.worktree_path@ == worktree_path_spec(
            config.opencode.worktree_base@,
            payload.repository.full_name@,
            issue_id,
        ),
        r.bare_clone_path@ == bare_clone_path_spec(
            config.opencode.worktree_base@,
            payload.repository.full_name@,
        ),
        r.git_binary@ == config.opencode.git_binary@,
        ok_reply(r.reply, "OK - worktree cleanup queued"@),
{
    WorktreeCleanup {
        worktree_path: worktree_path(
            &config.opencode,
            payload.repository.full_name.as_str(),
            issue_id,
        ),
        bare_clone_path: bare_clone_path(&config.opencode, payload.repository.full_name.as_str()),
        git_binary: config.opencode.git_binary.clone(),
        reply: ok_response("OK - worktree cleanup queued"),
    }
}

// ---------------------------------------------------------------------------
// pull_request_review_comment
// ---------------------------------------------------------------------------

/// The answer to a review comment that does not call the bot.
pub fn review_comment_trigger_reply(payload: &PullRequestReviewCommentPayload) -> (r: Option<
    HttpReply,
>)
    ensures
        contains_spec(payload.review_comment.body@, "@forgebot"@) ==> r is None,
        !contains_spec(payload.review_comment.body@, "@forgebot"@) ==> (r matches Some(reply)
            && ok_reply(reply, "OK - no @forgebot trigger"@)),
{
    if mentions_forgebot(payload.review_comment.body.as_str()) {
        None
    } else {
        Some(ok_response("OK - no @forgebot trigger"))
    }
}

/// What a review comment that calls the bot leads to, given the lookup of the pull
/// request's session: an acknowledgement on the pull request and a revision
/// dispatch; or a comment on the pull request that says why not.
pub fn review_comment_outcome(payload: &PullRequestReviewCommentPayload, lookup: Lookup<Session>) -> (r:
    HandlerOutcome)
    ensures
        !r.release_lock,
        match lookup {
            Lookup::Found(s) => ok_reply(r.reply, "OK - dispatching revision"@) && (r.comment matches Some(
                c,
            ) && comment_spec(
                c,
                true,
                payload.pull_request.number,
                "🤖 forgebot is addressing review comments..."@,
            )) && (r.dispatch matches Some(t) && revision_trigger_spec(
                t,
                payload.repository.full_name@,
                s,
                payload.pull_request.number,
            )),
            Lookup::NotFound => ok_reply(r.reply, "OK - no session context"@) && (r.comment matches Some(
                c,
            ) && comment_spec(
                c,
                true,
                payload.pull_request.number,
                "❌ I don't have context for this PR. Please ensure this PR was created through forgebot."@,
            )) && r.dispatch is None,
            Lookup::Failed(e) => ok_reply(r.reply, "OK - error logged"@) && (r.comment matches Some(c)
                && comment_spec(c, true, payload.pull_request.number, load_failure_text(e@)))
                && r.dispatch is None,
        },
{
    let pr = payload.pull_request.number;
    match lookup {
        Lookup::Found(s) => HandlerOutcome {
            reply: ok_response("OK - dispatching revision"),
            comment: Some(
                PostComment {
                    on_pull_request: true,
                    number: pr,
                    body: owned("🤖 forgebot is addressing review comments..."),
                },
            ),
            release_lock: false,
            dispatch: Some(
                SessionTrigger {
                    repo_full_name: payload.repository.full_name.clone(),
                    issue_id: s.issue_id as u64,
                    pr_id: Some(pr),
                    action: SessionAction::Revision,
                },
            ),
        },
        Lookup::NotFound => HandlerOutcome {
            reply: ok_response("OK - no session context"),
            comment: Some(
                PostComment { on_pull_request: true, number: pr, body: comment_text_no_context() },
            ),
            release_lock: false,
            dispatch: None,
        },
        Lookup::Failed(e) => HandlerOutcome {
            reply: ok_response("OK - error logged"),
            comment: Some(
                PostComment {
                    on_pull_request: true,
                    number: pr,
                    body: load_failure_comment(e.as_str()),
                },
            ),
            release_lock: false,
            dispatch: None,
        },
    }
}

/// The answer to a delivery of an event that is not handled (`200`, so that
/// Forgejo does not retry it).
pub fn handle_unknown_event_reply() -> (r: HttpReply)
    ensures
        ok_reply(r, "OK"@),
{
    ok_response("OK")
}

// ---------------------------------------------------------------------------
// Laws of admission
// ---------------------------------------------------------------------------

/// A delivery that was admitted is never admitted again: its redelivery is
/// answered as a duplicate, whatever is in flight by then.
pub proof fn law_redelivery_is_duplicate(
    payload: IssueCommentPayload,
    watch: RepoWatch,
    processed: Set<Seq<char>>,
    in_flight: Set<Seq<char>>,
    later_in_flight: Set<Seq<char>>,
)
    requires
        admit_spec(payload, watch, processed, in_flight).0 is Ok,
    ensures
        admit_spec(payload, watch, admit_spec(payload, watch, processed, in_flight).1, later_in_flight).0
            == Err::<IssueCommentRoute, Seq<char>>("OK - duplicate issue_comment ignored"@),
{
}

/// While an issue has an admitted dispatch in flight, no other comment on the same
/// issue is admitted.
pub proof fn law_one_dispatch_per_issue(
    first: IssueCommentPayload,
    second: IssueCommentPayload,
    watch1: RepoWatch,
    watch2: RepoWatch,
    processed: Set<Seq<char>>,
    in_flight: Set<Seq<char>>,
)
    requires
        admit_spec(first, watch1, processed, in_flight).0 is Ok,
        second.repository.full_name@ == first.repository.full_name@,
        second.issue.number == first.issue.number,
    ensures
        admit_spec(
            second,
            watch2,
            admit_spec(first, watch1, processed, in_flight).1,
            admit_spec(first, watch1, processed, in_flight).2,
        ).0 is Err,
{
}

/// Releasing the lock of an admitted dispatch gives back the in-flight keys from
/// before the admission.
pub proof fn law_release_undoes_admission(
    payload: IssueCommentPayload,
    watch: RepoWatch,
    processed: Set<Seq<char>>,
    in_flight: Set<Seq<char>>,
)
    requires
        admit_spec(payload, watch, processed, in_flight).0 is Ok,
    ensures
        admit_spec(payload, watch, processed, in_flight).2.remove(
            issue_lock_key_spec(payload.repository.full_name@, payload.issue.number),
        ) == in_flight,
{
    assert(in_flight.insert(issue_lock_key_spec(payload.repository.full_name@, payload.issue.number)).remove(
        issue_lock_key_spec(payload.repository.full_name@, payload.issue.number),
    ) =~= in_flight);
}

/// A comment that mentions `@forgebot` anywhere in its body, on a repository that
/// is watched (or whose lookup failed), is admitted when its delivery is new and
/// its issue has no dispatch in flight: it goes to the pull request's session when
/// the issue is a pull request, else to the issue's; its delivery is recorded as
/// seen and its issue's lock is taken.
pub proof fn law_mention_anywhere_is_admitted(
    payload: IssueCommentPayload,
    watch: RepoWatch,
    processed: Set<Seq<char>>,
    in_flight: Set<Seq<char>>,
    before: Seq<char>,
    after: Seq<char>,
)
    requires
        watch != RepoWatch::NotWatched,
        payload.comment.body@ == before + "@forgebot"@ + after,
        !processed.contains(event_key_spec(payload)),
        !in_flight.contains(issue_lock_key_spec(payload.repository.full_name@, payload.issue.number)),
    ensures
        admit_spec(payload, watch, processed, in_flight).0 == Ok::<IssueCommentRoute, Seq<char>>(
            match payload.issue.pull_request {
                Some(_) => IssueCommentRoute::PullRequest(payload.issue.number),
                None => IssueCommentRoute::Issue,
            },
        ),
        admit_spec(payload, watch, processed, in_flight).1 == processed.insert(event_key_spec(payload)),
        admit_spec(payload, watch, processed, in_flight).2 == in_flight.insert(
            issue_lock_key_spec(payload.repository.full_name@, payload.issue.number),
        ),
{
    let body = payload.comment.body@;
    let at = before.len() as int;
    assert(body.subrange(at, at + "@forgebot"@.len()) =~= "@forgebot"@);
    assert(crate::text::occurs_at(body, "@forgebot"@, at));
}

/// A comment whose body holds `@forgebot` nowhere is answered "OK - no @forgebot
/// trigger" on a watched repository, and leaves both key sets alone.
pub proof fn law_no_mention_is_not_admitted(
    payload: IssueCommentPayload,
    watch: RepoWatch,
    processed: Set<Seq<char>>,
    in_flight: Set<Seq<char>>,
)
    requires
        watch != RepoWatch::NotWatched,
        forall|before: Seq<char>, after: Seq<char>|
            payload.comment.body@ != before + "@forgebot"@ + after,
    ensures
        admit_spec(payload, watch, processed, in_flight) == (
            Err::<IssueCommentRoute, Seq<char>>("OK - no @forgebot trigger"@),
            processed,
            in_flight,
        ),
{
    let body = payload.comment.body@;
    if contains_spec(body, "@forgebot"@) {
        let k = choose|k: int| crate::text::occurs_at(body, "@forgebot"@, k);
        let before = body.subrange(0, k);
        let after = body.subrange(k + "@forgebot"@.len(), body.len() as int);
        assert(body =~= before + "@forgebot"@ + after);
    }
}

} // verus!
