//! Removing a watched repository: which webhook is deleted, which worktrees are
//! removed, and when the repository record may go.
//!
//! The caller runs the stages (the session listing, the Forgejo calls, the file
//! removals, the last session check, the record deletion) in the order that
//! `next_removal_stage` gives, and aborts at the first failure, leaving the
//! repository record in place.

use vstd::prelude::*;

use crate::config::{webhook_url, Config};
use crate::db::{has_active_sessions, Session};
use crate::forgejo::models::Webhook;
use crate::forgejo::{find_webhook_by_url, webhook_id_for_url};
use crate::session::is_busy_state;
use crate::session::repo_cleanup_errors::RepoCleanupError;
use crate::text::{decimal, owned, u64_to_decimal, views};

verus! {

/// The webhook to delete: the first one that delivers to this service's webhook
/// URL (`{forgebot_host}/webhook`); none when no webhook does.
pub fn webhook_to_delete(config: &Config, hooks: &Vec<Webhook>) -> (r: Option<u64>)
    ensures
        r == webhook_id_for_url(hooks@, config.server.forgebot_host@ + "/webhook"@),
{
    let url = webhook_url(config);
    find_webhook_by_url(hooks, url.as_str())
}

/// The worktrees to remove: those of all the repository's sessions, in order.
pub fn worktrees_to_remove(sessions: &Vec<Session>) -> (r: Vec<String>)
    ensures
        views(r@) == sessions@.map_values(|s: Session| s.worktree_path@),
{
    let mut out: Vec<String> = Vec::new();
    let mut i: usize = 0;
    while i < sessions.len()
        invariant
            i <= sessions.len(),
            views(out@) == sessions@.take(i as int).map_values(|s: Session| s.worktree_path@),
        decreases sessions.len() - i,
    {
        let ghost before = out@;
        out.push(sessions[i].worktree_path.clone());
        assert(views(out@) =~= views(before).push(sessions@[i as int].worktree_path@));
        assert(sessions@.take(i + 1).map_values(|s: Session| s.worktree_path@) =~= sessions@.take(
            i as int,
        ).map_values(|s: Session| s.worktree_path@).push(sessions@[i as int].worktree_path@));
        i = i + 1;
    }
    assert(sessions@.take(sessions.len() as int) =~= sessions@);
    out
}

/// The last check before the record is deleted, on the sessions listed right
/// before: the removal is refused while any of them is busy.
pub fn final_session_check(full_name: &str, sessions: &Vec<Session>) -> (r: Result<(), RepoCleanupError>)
    ensures
        r is Ok <==> !(exists|i: int| 0 <= i < sessions@.len() && is_busy_state(#[trigger] sessions@[i].state)),
        r matches Err(e) ==> (e matches RepoCleanupError::ActiveSessions(repo) && repo@ == full_name@),
{
    if has_active_sessions(sessions.as_slice()) {
        Err(RepoCleanupError::ActiveSessions(owned(full_name)))
    } else {
        Ok(())
    }
}

/// A step of the removal that can fail.
#[derive(Debug, Clone, Copy, PartialEq, Eq, Structural)]
pub enum CleanupStep {
    ListSessions,
    ListWebhooks,
    DeleteWebhook(u64),
    FinalSessionCheck,
    DeleteRepo,
}

pub open spec fn cleanup_failure_text(step: CleanupStep, full_name: Seq<char>) -> Seq<char> {
    match step {
        CleanupStep::ListSessions => "failed to list sessions for repo: "@ + full_name,
        CleanupStep::ListWebhooks => "failed to list webhooks for repo: "@ + full_name,
        CleanupStep::DeleteWebhook(id) => "failed to delete webhook "@ + decimal(id as nat)
            + " for repo: "@ + full_name,
        CleanupStep::FinalSessionCheck => "failed to check for active sessions before deletion: "@
            + full_name,
        CleanupStep::DeleteRepo => "failed to delete repo from database: "@ + full_name,
    }
}

/// What a removal that failed at `step` reports.
pub fn cleanup_failure_message(step: CleanupStep, full_name: &str) -> (s: String)
    ensures
        s@ == cleanup_failure_text(step, full_name@),
{
    let mut s = match step {
        CleanupStep::ListSessions => owned("failed to list sessions for repo: "),
        CleanupStep::ListWebhooks => owned("failed to list webhooks for repo: "),
        CleanupStep::DeleteWebhook(id) => {
            let mut s = owned("failed to delete webhook ");
            s.append(u64_to_decimal(id).as_str());
            s.append(" for repo: ");
            s
        },
        CleanupStep::FinalSessionCheck => owned(
            "failed to check for active sessions before deletion: ",
        ),
        CleanupStep::DeleteRepo => owned("failed to delete repo from database: "),
    };
    s.append(full_name);
    s
}

/// The stages of removing a repository, in the order they run, and the two ends.
#[derive(Debug, Clone, Copy, PartialEq, Eq, Structural)]
pub enum RemovalStage {
    ListSessions,
    ListWebhooks,
    DeleteWebhook,
    RemoveWorktrees,
    RemoveBareClone,
    FinalSessionCheck,
    DeleteRepo,
    Removed,
    Aborted,
}

/// The stage after `stage`: the next one in order when it succeeded, `Aborted`
/// when it failed; the two ends stay where they are.
pub open spec fn next_removal_stage_spec(stage: RemovalStage, succeeded: bool) -> RemovalStage {
    match stage {
        RemovalStage::Removed => RemovalStage::Removed,
        RemovalStage::Aborted => RemovalStage::Aborted,
        _ => if !succeeded {
            RemovalStage::Aborted
        } else {
            match stage {
                RemovalStage::ListSessions => RemovalStage::ListWebhooks,
                RemovalStage::ListWebhooks => RemovalStage::DeleteWebhook,
                RemovalStage::DeleteWebhook => RemovalStage::RemoveWorktrees,
                RemovalStage::RemoveWorktrees => RemovalStage::RemoveBareClone,
                RemovalStage::RemoveBareClone => RemovalStage::FinalSessionCheck,
                RemovalStage::FinalSessionCheck => RemovalStage::DeleteRepo,
                _ => RemovalStage::Removed,
            }
        },
    }
}

/// The stage after `stage`, given whether it succeeded.
pub fn next_removal_stage(stage: RemovalStage, succeeded: bool) -> (r: RemovalStage)
    ensures
        r == next_removal_stage_spec(stage, succeeded),
{
    match stage {
        RemovalStage::Removed => RemovalStage::Removed,
        RemovalStage::Aborted => RemovalStage::Aborted,
        _ => if !succeeded {
            RemovalStage::Aborted
        } else {
            match stage {
                RemovalStage::ListSessions => RemovalStage::ListWebhooks,
                RemovalStage::ListWebhooks => RemovalStage::DeleteWebhook,
                RemovalStage::DeleteWebhook => RemovalStage::RemoveWorktrees,
                RemovalStage::RemoveWorktrees => RemovalStage::RemoveBareClone,
                RemovalStage::RemoveBareClone => RemovalStage::FinalSessionCheck,
                RemovalStage::FinalSessionCheck => RemovalStage::DeleteRepo,
                _ => RemovalStage::Removed,
            }
        },
    }
}

/// Where a removal that starts at `stage` ends up after the given outcomes, one
/// for each stage it runs.
pub open spec fn removal_after(stage: RemovalStage, outcomes: Seq<bool>) -> RemovalStage
    decreases outcomes.len(),
{
    if outcomes.len() == 0 {
        stage
    } else {
        removal_after(next_removal_stage_spec(stage, outcomes[0]), outcomes.drop_first())
    }
}

/// The number of stages still to run from `stage` until the record is deleted.
pub open spec fn stages_left(stage: RemovalStage) -> nat {
    match stage {
        RemovalStage::ListSessions => 7,
        RemovalStage::ListWebhooks => 6,
        RemovalStage::DeleteWebhook => 5,
        RemovalStage::RemoveWorktrees => 4,
        RemovalStage::RemoveBareClone => 3,
        RemovalStage::FinalSessionCheck => 2,
        RemovalStage::DeleteRepo => 1,
        _ => 0,
    }
}

/// A removal deletes the repository record only when every one of its seven
/// stages succeeded; one failure at any stage aborts it for good.
pub proof fn law_removal_needs_every_stage(outcomes: Seq<bool>)
    ensures
        removal_after(RemovalStage::ListSessions, outcomes) == RemovalStage::Removed <==> (
        outcomes.len() >= 7 && forall|i: int| 0 <= i < 7 ==> #[trigger] outcomes[i]),
        (exists|i: int| 0 <= i < outcomes.len() && i < 7 && !#[trigger] outcomes[i])
            ==> removal_after(RemovalStage::ListSessions, outcomes) == RemovalStage::Aborted,
{
    lemma_removal_after(RemovalStage::ListSessions, outcomes);
}

proof fn lemma_removal_after(stage: RemovalStage, outcomes: Seq<bool>)
    requires
        stage != RemovalStage::Aborted,
    ensures
        removal_after(stage, outcomes) == RemovalStage::Removed <==> (outcomes.len()
            >= stages_left(stage) && forall|i: int|
            0 <= i < stages_left(stage) ==> #[trigger] outcomes[i]),
        (exists|i: int| 0 <= i < outcomes.len() && i < stages_left(stage) && !#[trigger] outcomes[i])
            ==> removal_after(stage, outcomes) == RemovalStage::Aborted,
    decreases outcomes.len(),
{
    if outcomes.len() > 0 {
        let next = next_removal_stage_spec(stage, outcomes[0]);
        if next == RemovalStage::Aborted {
            lemma_aborted_stays(outcomes.drop_first());
        } else {
            lemma_removal_after(next, outcomes.drop_first());
            assert forall|i: int| 0 < i < stages_left(stage) && i < outcomes.len() implies
                outcomes[i] == outcomes.drop_first()[i - 1] by {}
            if stage == RemovalStage::Removed {
            } else {
                if outcomes.len() >= stages_left(stage) && forall|i: int|
                    0 <= i < stages_left(stage) ==> #[trigger] outcomes[i] {
                    assert forall|j: int| 0 <= j < stages_left(next) implies #[trigger]
                        outcomes.drop_first()[j] by {
                        assert(outcomes[j + 1]);
                    }
                }
                if exists|i: int| 0 <= i < outcomes.len() && i < stages_left(stage) && !#[trigger] outcomes[i] {
                    let i = choose|i: int| 0 <= i < outcomes.len() && i < stages_left(stage) && !#[trigger] outcomes[i];
                    assert(i > 0);
                    assert(!outcomes.drop_first()[i - 1]);
                }
                if removal_after(next, outcomes.drop_first()) == RemovalStage::Removed {
                    assert forall|j: int| 0 <= j < stages_left(stage) implies #[trigger] outcomes[j] by {
                        if j > 0 {
                            assert(outcomes.drop_first()[j - 1]);
                        }
                    }
                }
            }
        }
    }
}

proof fn lemma_aborted_stays(outcomes: Seq<bool>)
    ensures
        removal_after(RemovalStage::Aborted, outcomes) == RemovalStage::Aborted,
    decreases outcomes.len(),
{
    if outcomes.len() > 0 {
        lemma_aborted_stays(outcomes.drop_first());
    }
}

} // verus!
