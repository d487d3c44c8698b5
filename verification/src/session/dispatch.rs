//! The decisions of dispatching a session: whether it may run, what is posted on
//! its issue at each step, what its record holds, and the variables its run gets
//! on top of the env loader's.

use vstd::prelude::*;
use vstd::string::*;

use crate::db::{new_record_id, NewSession, Session};
use crate::envmap::map_of;
use crate::session::opencode_errors::OpencodeError;
use crate::session::{
    action_mode, action_state, external_session_id_spec, is_busy_state, mode_name, session_web_url_spec,
    opencode_session_web_url, state_name, SessionAction, SessionState, SessionTrigger,
};
use crate::text::{decimal, owned, starts_with, starts_with_spec, u64_to_decimal};

verus! {

// ---------------------------------------------------------------------------
// Whether a session may run
// ---------------------------------------------------------------------------

/// The state of the issue's existing session, when it is busy.
pub open spec fn busy_state_spec(existing: Option<Session>) -> Option<SessionState> {
    match existing {
        Some(s) => if is_busy_state(s.state) {
            Some(s.state)
        } else {
            None
        },
        None => None,
    }
}

/// The state of the issue's existing session, when it is busy: a new trigger is
/// then refused.
pub fn busy_state(existing: &Option<Session>) -> (r: Option<SessionState>)
    ensures
        r == busy_state_spec(*existing),
{
    match existing {
        Some(s) => if s.state.is_busy() {
            Some(s.state)
        } else {
            None
        },
        None => None,
    }
}

/// While a session runs (its state is the one its action sets), a new trigger for
/// its issue is refused, and the refusal names that state.
pub proof fn law_running_session_refuses_triggers(s: Session, a: SessionAction)
    requires
        s.state == action_state(a),
    ensures
        busy_state_spec(Some(s)) == Some(s.state),
{
}

/// Once a run ends (its session is `idle` or `error`), the next trigger is admitted.
pub proof fn law_finished_session_admits_triggers(s: Session)
    requires
        s.state == SessionState::Idle || s.state == SessionState::Error,
    ensures
        busy_state_spec(Some(s)) is None,
{
}

/// The error a refused trigger ends with.
pub fn session_busy_error(session: &Session) -> (e: OpencodeError)
    ensures
        e matches OpencodeError::SessionBusy { session_id, state } && session_id@ == session.id@
            && state@ == state_name(session.state),
{
    OpencodeError::SessionBusy {
        session_id: session.id.clone(),
        state: session.state.as_str().to_string(),
    }
}

// ---------------------------------------------------------------------------
// What is posted on the issue
// ---------------------------------------------------------------------------

pub open spec fn acknowledgement_text(action: SessionAction, session_id: Seq<char>) -> Seq<char> {
    match action {
        SessionAction::Plan => "🤖 forgebot is joining the discussion on this issue.\n\nSession: `"@
            + session_id + "`"@,
        SessionAction::Build =>
            "🤖 forgebot is implementing this issue and preparing a PR.\n\nSession: `"@
                + session_id + "`"@,
        SessionAction::Revision =>
            "🤖 forgebot is addressing review comments. Revising...\n\nSession: `"@ + session_id
                + "`"@,
    }
}

/// The comment that acknowledges a trigger once its session starts.
pub fn acknowledgement_comment(action: SessionAction, session_id: &str) -> (s: String)
    ensures
        s@ == acknowledgement_text(action, session_id@),
{
    let mut s = match action {
        SessionAction::Plan => owned("🤖 forgebot is joining the discussion on this issue.\n\nSession: `"),
        SessionAction::Build => owned(
            "🤖 forgebot is implementing this issue and preparing a PR.\n\nSession: `",
        ),
        SessionAction::Revision => owned(
            "🤖 forgebot is addressing review comments. Revising...\n\nSession: `",
        ),
    };
    s.append(session_id);
    s.append("`");
    s
}

pub open spec fn success_text(action: SessionAction) -> Seq<char> {
    match action {
        SessionAction::Plan =>
            "✅ Collaboration update posted. Add the build flag in a comment when you're ready for implementation and PR creation."@,
        SessionAction::Build => "✅ Implementation complete! A pull request has been created."@,
        SessionAction::Revision => "✅ Review comments addressed and changes pushed."@,
    }
}

/// The comment posted when a run succeeds.
pub fn success_comment(action: SessionAction) -> (s: String)
    ensures
        s@ == success_text(action),
{
    match action {
        SessionAction::Plan => owned(
            "✅ Collaboration update posted. Add the build flag in a comment when you're ready for implementation and PR creation.",
        ),
        SessionAction::Build => owned("✅ Implementation complete! A pull request has been created."),
        SessionAction::Revision => owned("✅ Review comments addressed and changes pushed."),
    }
}

/// The comment posted when a run fails.
pub fn failure_comment(error_text: &str) -> (s: String)
    ensures
        s@ == "❌ Task failed. Error: "@ + error_text@
            + "\n\nSession set to error state. Please re-trigger when ready."@,
{
    let mut s = owned("❌ Task failed. Error: ");
    s.append(error_text);
    s.append("\n\nSession set to error state. Please re-trigger when ready.");
    s
}

/// The comment posted when the repository's env loader fails.
pub fn env_loader_failure_comment(env_loader: &str, error_text: &str) -> (s: String)
    ensures
        s@ == "❌ forgebot: env loader '"@ + env_loader@
            + "' failed and the session cannot continue. Fix the loader configuration and re-trigger when ready. Error output: "@
            + error_text@,
{
    let mut s = owned("❌ forgebot: env loader '");
    s.append(env_loader);
    s.append(
        "' failed and the session cannot continue. Fix the loader configuration and re-trigger when ready. Error output: ",
    );
    s.append(error_text);
    s
}

/// The error a dispatch ends with when the env loader fails.
pub fn env_loading_error(repo_full_name: &str, error_text: &str) -> (s: String)
    ensures
        s@ == "environment loading failed for "@ + repo_full_name@ + ": "@ + error_text@,
{
    let mut s = owned("environment loading failed for ");
    s.append(repo_full_name);
    s.append(": ");
    s.append(error_text);
    s
}

/// The comment posted on the issue of a session that was running when the
/// service stopped.
pub fn recovery_comment() -> (s: String)
    ensures
        s@ == "⚠️ forgebot restarted mid-run. The session has been reset. Please retry your command."@,
{
    owned("⚠️ forgebot restarted mid-run. The session has been reset. Please retry your command.")
}

// ---------------------------------------------------------------------------
// What a session's run needs
// ---------------------------------------------------------------------------

/// The pull request whose review comments the prompt needs: a revision's PR.
pub fn review_comments_pr(trigger: &SessionTrigger) -> (r: Option<u64>)
    ensures
        r == match trigger.action {
            SessionAction::Revision => trigger.pr_id,
            _ => None::<u64>,
        },
{
    match trigger.action {
        SessionAction::Revision => trigger.pr_id,
        _ => None,
    }
}

/// The variables a session's run gets on top of the env loader's output
/// (`FORGEBOT_ISSUE_ID`, and `FORGEBOT_PR_ID` where there is a pull request).
pub open spec fn session_env_spec(
    trigger: SessionTrigger,
    env_extras: Seq<(String, String)>,
) -> Map<Seq<char>, Seq<char>> {
    let with_issue = map_of(env_extras).insert("FORGEBOT_ISSUE_ID"@, decimal(trigger.issue_id as nat));
    match trigger.pr_id {
        Some(pr) => with_issue.insert("FORGEBOT_PR_ID"@, decimal(pr as nat)),
        None => with_issue,
    }
}

/// The env loader's output with the session's `FORGEBOT_ISSUE_ID` and
/// `FORGEBOT_PR_ID` added.
pub fn build_session_env(
    trigger: &SessionTrigger,
    env_extras: &Vec<(String, String)>,
) -> (r: Vec<(String, String)>)
    ensures
        map_of(r@) == session_env_spec(*trigger, env_extras@),
{
    let mut env: Vec<(String, String)> = Vec::new();
    let mut i: usize = 0;
    while i < env_extras.len()
        invariant
            i <= env_extras.len(),
            env@.len() == i,
            forall|j: int| 0 <= j < i ==> (#[trigger] env@[j]).0@ == env_extras@[j].0@ && env@[j].1@ == env_extras@[j].1@,
        decreases env_extras.len() - i,
    {
        env.push((env_extras[i].0.clone(), env_extras[i].1.clone()));
        i = i + 1;
    }
    proof {
        lemma_same_views_same_map(env@, env_extras@);
    }
    let ghost copied = env@;
    env.push(("FORGEBOT_ISSUE_ID".to_string(), u64_to_decimal(trigger.issue_id)));
    assert(env@.drop_last() =~= copied);
    assert(map_of(env@) == map_of(env_extras@).insert("FORGEBOT_ISSUE_ID"@, decimal(trigger.issue_id as nat)));
    match trigger.pr_id {
        Some(pr) => {
            let ghost with_issue = env@;
            env.push(("FORGEBOT_PR_ID".to_string(), u64_to_decimal(pr)));
            assert(env@.drop_last() =~= with_issue);
            assert(map_of(env@) == map_of(with_issue).insert("FORGEBOT_PR_ID"@, decimal(pr as nat)));
        },
        None => {},
    }
    env
}

proof fn lemma_same_views_same_map(a: Seq<(String, String)>, b: Seq<(String, String)>)
    requires
        a.len() == b.len(),
        forall|j: int| 0 <= j < a.len() ==> (#[trigger] a[j]).0@ == b[j].0@ && a[j].1@ == b[j].1@,
    ensures
        map_of(a) == map_of(b),
    decreases a.len(),
{
    if a.len() > 0 {
        lemma_same_views_same_map(a.drop_last(), b.drop_last());
        assert(a[a.len() - 1].0@ == b[b.len() - 1].0@);
    }
}

/// The opencode session to continue: the record's, unless it is a derived `ses_`
/// ID, which opencode never issued.
pub fn external_session_id(session: &Session) -> (r: Option<&str>)
    ensures
        match r {
            Some(s) => external_session_id_spec(session.opencode_session_id@) == Some(s@),
            None => external_session_id_spec(session.opencode_session_id@) is None,
        },
{
    if starts_with(session.opencode_session_id.as_str(), "ses_") {
        None
    } else {
        Some(session.opencode_session_id.as_str())
    }
}

// ---------------------------------------------------------------------------
// The session record
// ---------------------------------------------------------------------------

/// The record of a new session for `trigger` under the record ID `id`: idle, in the
/// mode its action calls for.
pub fn new_session_with_id(
    id: String,
    trigger: &SessionTrigger,
    session_id: &str,
    worktree_path: &str,
) -> (r: NewSession)
    ensures
        r.id == id,
        r.repo_full_name@ == trigger.repo_full_name@,
        r.issue_id == trigger.issue_id as i64,
        r.pr_id == match trigger.pr_id {
            Some(p) => Some(p as i64),
            None => None::<i64>,
        },
        r.opencode_session_id@ == session_id@,
        r.worktree_path@ == worktree_path@,
        r.state@ == state_name(SessionState::Idle),
        r.mode@ == mode_name(action_mode(trigger.action)),
{
    NewSession {
        id,
        repo_full_name: trigger.repo_full_name.clone(),
        issue_id: trigger.issue_id as i64,
        pr_id: match trigger.pr_id {
            Some(p) => Some(p as i64),
            None => None,
        },
        opencode_session_id: session_id.to_string(),
        worktree_path: worktree_path.to_string(),
        state: SessionState::Idle.as_str().to_string(),
        mode: trigger.action.session_mode().as_str().to_string(),
    }
}

/// The record of a new session for `trigger`, under a fresh random record ID.
pub fn new_session_record(trigger: &SessionTrigger, session_id: &str, worktree_path: &str) -> (r:
    NewSession)
    ensures
        crate::db::is_uuid_v4_text(r.id@),
        r.repo_full_name@ == trigger.repo_full_name@,
        r.issue_id == trigger.issue_id as i64,
        r.pr_id == match trigger.pr_id {
            Some(p) => Some(p as i64),
            None => None::<i64>,
        },
        r.opencode_session_id@ == session_id@,
        r.worktree_path@ == worktree_path@,
        r.state@ == state_name(SessionState::Idle),
        r.mode@ == mode_name(action_mode(trigger.action)),
{
    new_session_with_id(new_record_id(), trigger, session_id, worktree_path)
}

// ---------------------------------------------------------------------------
// After a successful run
// ---------------------------------------------------------------------------

/// Whether a link to the session's opencode web UI is posted, and why not.
#[derive(Debug, Clone, PartialEq, Eq)]
pub enum WebLink {
    /// The record continues an opencode session of its own.
    SkipExternalSession,
    /// No web host is configured.
    SkipNoWebHost,
    /// No opencode session ID is known.
    SkipMissingSessionId,
    /// The link, and the comment that carries it.
    Post { url: String, comment: String },
}

/// What follows a successful run: the opencode session ID to store on the record,
/// the web UI link, and the success comment.
#[derive(Debug, Clone)]
pub struct DispatchSuccessPlan {
    pub new_opencode_session_id: Option<String>,
    pub web_link: WebLink,
    pub success_comment: String,
}

pub open spec fn web_link_comment_text(url: Seq<char>) -> Seq<char> {
    "🔗 Opencode session Web UI: ["@ + url + "]("@ + url + ")"@
}

/// The web UI link decision: only a record under a derived `ses_` ID gets one, and
/// only with a web host and the ID that the run reported.
pub open spec fn web_link_spec(
    record: Session,
    captured: Option<Seq<char>>,
    web_host: Option<Seq<char>>,
    link: WebLink,
) -> bool {
    if !starts_with_spec(record.opencode_session_id@, "ses_"@) {
        link == WebLink::SkipExternalSession
    } else {
        match web_host {
            None => link == WebLink::SkipNoWebHost,
            Some(host) => match captured {
                None => link == WebLink::SkipMissingSessionId,
                Some(id) => link matches WebLink::Post { url, comment } && url@
                    == session_web_url_spec(host, record.worktree_path@, id) && comment@
                    == web_link_comment_text(url@),
            },
        }
    }
}

/// What follows a successful run of `action` for the session `record`, given the
/// opencode session ID the run reported, if any, and the configured web host.
pub fn dispatch_success_plan(
    action: SessionAction,
    record: &Session,
    captured_session_id: Option<String>,
    web_host: Option<&str>,
) -> (r: DispatchSuccessPlan)
    ensures
        r.new_opencode_session_id == captured_session_id,
        web_link_spec(
            *record,
            match captured_session_id {
                Some(s) => Some(s@),
                None => None,
            },
            match web_host {
                Some(h) => Some(h@),
                None => None,
            },
            r.web_link,
        ),
        r.success_comment@ == success_text(action),
{
    let should_post_web_link = starts_with(record.opencode_session_id.as_str(), "ses_");
    let web_link = if !should_post_web_link {
        WebLink::SkipExternalSession
    } else {
        match web_host {
            None => WebLink::SkipNoWebHost,
            Some(host) => match &captured_session_id {
                None => WebLink::SkipMissingSessionId,
                Some(id) => {
                    let url = opencode_session_web_url(
                        host,
                        record.worktree_path.as_str(),
                        id.as_str(),
                    );
                    let mut comment = owned("🔗 Opencode session Web UI: [");
                    comment.append(url.as_str());
                    comment.append("](");
                    comment.append(url.as_str());
                    comment.append(")");
                    WebLink::Post { url, comment }
                },
            },
        }
    };
    DispatchSuccessPlan {
        new_opencode_session_id: captured_session_id,
        web_link,
        success_comment: success_comment(action),
    }
}

} // verus!
