//! Cloning a watched repository: the bare clone's place, the git command, and
//! the clone status each outcome leaves the repository in.
//!
//! The caller runs the steps (status updates, file checks, the git process) and
//! hands each outcome to the function for the next decision.

use vstd::prelude::*;

use crate::config::Config;
use crate::db::errors::DbError;
use crate::db::{repo_name_problem, validate_repo_full_name, Repo};
use crate::session::clone_errors::CloneError;
use crate::session::worktree::{bare_clone_path, bare_clone_path_spec};
use crate::session::{clone_status_name, CloneStatus};
use crate::text::{concat2, owned, views};

verus! {

/// How long `git clone --bare` may run, in seconds (ten minutes).
pub const CLONE_TIMEOUT_SECS: u64 = 600;

/// The repository name, checked before anything is done; a refused name ends the
/// clone with the validation's message.
pub fn check_clone_name(repo_full_name: &str) -> (r: Result<(), CloneError>)
    ensures
        r is Ok <==> repo_name_problem(repo_full_name@) is None,
        r matches Err(e) ==> e is InvalidRepoName,
{
    match validate_repo_full_name(repo_full_name) {
        Ok(()) => Ok(()),
        Err(e) => Err(CloneError::InvalidRepoName(e.render())),
    }
}

/// The error of a clone status update that failed.
pub fn status_update_error(repo_full_name: &str, status: CloneStatus, db_message: &str) -> (e:
    CloneError)
    ensures
        e matches CloneError::StatusUpdate { repo, status: s, message } && repo@
            == repo_full_name@ && s@ == clone_status_name(status) && message@ == db_message@,
{
    CloneError::StatusUpdate {
        repo: owned(repo_full_name),
        status: status.as_str().to_string(),
        message: owned(db_message),
    }
}

/// `https://{forgejo_url}/{repo}.git`.
pub open spec fn clone_url_spec(forgejo_url: Seq<char>, repo_full_name: Seq<char>) -> Seq<char> {
    "https://"@ + forgejo_url + "/"@ + repo_full_name + ".git"@
}

/// The URL a repository is cloned from.
pub fn clone_url(config: &Config, repo_full_name: &str) -> (r: String)
    ensures
        r@ == clone_url_spec(config.forgejo.url@, repo_full_name@),
{
    let mut u = concat2("https://", config.forgejo.url.as_str());
    u.append("/");
    u.append(repo_full_name);
    u.append(".git");
    u
}

/// Arguments of `git clone --bare <url> <path>`.
pub fn clone_args(url: &str, bare_path: &str) -> (r: Vec<String>)
    ensures
        views(r@) == seq!["clone"@, "--bare"@, url@, bare_path@],
{
    let v = vec![owned("clone"), owned("--bare"), owned(url), owned(bare_path)];
    assert(views(v@) =~= seq!["clone"@, "--bare"@, url@, bare_path@]);
    v
}

/// The directory the bare clone is created in: the worktree base, of which the
/// bare clone path is one component more.
pub fn clone_parent_dir(config: &Config) -> (r: String)
    ensures
        r@ == config.opencode.worktree_base@,
{
    config.opencode.worktree_base.clone()
}

/// What is found where the bare clone goes, before cloning.
#[derive(Debug, Clone, Copy, PartialEq, Eq, Structural)]
pub enum ExistingClone {
    /// Nothing: clone.
    Absent,
    /// A directory with a `HEAD` file: a finished clone.
    Complete,
    /// A directory without `HEAD`: another clone may be running.
    Incomplete,
}

/// Classifies what is at the bare clone path.
pub fn existing_clone(dir_exists: bool, head_exists: bool) -> (r: ExistingClone)
    ensures
        !dir_exists ==> r == ExistingClone::Absent,
        dir_exists && head_exists ==> r == ExistingClone::Complete,
        dir_exists && !head_exists ==> r == ExistingClone::Incomplete,
{
    if !dir_exists {
        ExistingClone::Absent
    } else if head_exists {
        ExistingClone::Complete
    } else {
        ExistingClone::Incomplete
    }
}

/// How `git clone --bare` ended.
#[derive(Debug, Clone, PartialEq, Eq)]
pub enum CloneRun {
    /// The process exited; its success and its standard error.
    Finished { success: bool, stderr: String },
    /// The process could not be run.
    ExecFailed(String),
    /// It ran longer than the timeout.
    TimedOut,
}

/// The status a clone attempt leaves the repository in, the error message stored
/// with it, and what the attempt returns.
#[derive(Debug)]
pub struct CloneCompletion {
    pub status: CloneStatus,
    pub error_message: Option<String>,
    pub result: Result<(), CloneError>,
}

/// The completion of a clone attempt: ready with no message and success, or
/// failed with a message and an error.
pub open spec fn completion_spec(
    c: CloneCompletion,
    ready: bool,
    message: Seq<char>,
    check: spec_fn(CloneError) -> bool,
) -> bool {
    if ready {
        c.status == CloneStatus::Ready && c.error_message is None && c.result is Ok
    } else {
        c.status == CloneStatus::Failed && (c.error_message matches Some(m) && m@ == message)
            && (c.result matches Err(e) && check(e))
    }
}

/// What a clone attempt ends in when a directory is already where the bare clone
/// goes: a finished clone is taken as ready; an unfinished one fails the attempt.
pub fn existing_clone_completion(repo_full_name: &str, found: ExistingClone) -> (r: Option<
    CloneCompletion,
>)
    ensures
        found == ExistingClone::Absent ==> r is None,
        found == ExistingClone::Complete ==> (r matches Some(c) && completion_spec(
            c,
            true,
            seq![],
            |e: CloneError| true,
        )),
        found == ExistingClone::Incomplete ==> (r matches Some(c) && completion_spec(
            c,
            false,
            "Clone directory already exists but appears incomplete (another clone may be in progress)"@,
            |e: CloneError| e matches CloneError::IncompleteExistingClone(repo) && repo@ == repo_full_name@,
        )),
{
    match found {
        ExistingClone::Absent => None,
        ExistingClone::Complete => Some(
            CloneCompletion { status: CloneStatus::Ready, error_message: None, result: Ok(()) },
        ),
        ExistingClone::Incomplete => Some(
            CloneCompletion {
                status: CloneStatus::Failed,
                error_message: Some(
                    owned(
                        "Clone directory already exists but appears incomplete (another clone may be in progress)",
                    ),
                ),
                result: Err(CloneError::IncompleteExistingClone(owned(repo_full_name))),
            },
        ),
    }
}

/// What a clone attempt ends in once `git clone --bare` has ended: ready on
/// success; otherwise failed, with the git error, the execution error or the
/// timeout as its message.
pub fn clone_run_completion(repo_full_name: &str, run: CloneRun) -> (r: CloneCompletion)
    ensures
        match run {
            CloneRun::Finished { success, stderr } => if success {
                completion_spec(r, true, seq![], |e: CloneError| true)
            } else {
                completion_spec(
                    r,
                    false,
                    "git clone failed: "@ + stderr@,
                    |e: CloneError| e matches CloneError::CloneFailed { repo, stderr: m } && repo@
                        == repo_full_name@ && m@ == "git clone failed: "@ + stderr@,
                )
            },
            CloneRun::ExecFailed(msg) => completion_spec(
                r,
                false,
                "Failed to execute git clone: "@ + msg@,
                |e: CloneError| e matches CloneError::ExecuteClone(m) && m@ == msg@,
            ),
            CloneRun::TimedOut => completion_spec(
                r,
                false,
                "Clone operation timed out after 10 minutes"@,
                |e: CloneError| e matches CloneError::Timeout { repo, seconds } && repo@
                    == repo_full_name@ && seconds == CLONE_TIMEOUT_SECS,
            ),
        },
{
    match run {
        CloneRun::Finished { success, stderr } => {
            if success {
                CloneCompletion { status: CloneStatus::Ready, error_message: None, result: Ok(()) }
            } else {
                let msg = concat2("git clone failed: ", stderr.as_str());
                CloneCompletion {
                    status: CloneStatus::Failed,
                    error_message: Some(msg.clone()),
                    result: Err(CloneError::CloneFailed { repo: owned(repo_full_name), stderr: msg }),
                }
            }
        },
        CloneRun::ExecFailed(m) => {
            let msg = concat2("Failed to execute git clone: ", m.as_str());
            CloneCompletion {
                status: CloneStatus::Failed,
                error_message: Some(msg),
                result: Err(CloneError::ExecuteClone(m)),
            }
        },
        CloneRun::TimedOut => CloneCompletion {
            status: CloneStatus::Failed,
            error_message: Some(owned("Clone operation timed out after 10 minutes")),
            result: Err(
                CloneError::Timeout { repo: owned(repo_full_name), seconds: CLONE_TIMEOUT_SECS },
            ),
        },
    }
}

/// Every clone attempt that gets past its status update ends ready exactly when
/// it succeeds, and a failed one always leaves a message.
pub proof fn law_clone_ends_ready_iff_ok(c: CloneCompletion, ready: bool, message: Seq<char>, check: spec_fn(CloneError) -> bool)
    requires
        completion_spec(c, ready, message, check),
    ensures
        (c.status == CloneStatus::Ready) == (c.result is Ok),
        c.status == CloneStatus::Ready || c.status == CloneStatus::Failed,
        c.status == CloneStatus::Failed ==> c.error_message is Some,
{
}

// ---------------------------------------------------------------------------
// After a restart
// ---------------------------------------------------------------------------

/// The message stored on a clone that a restart interrupted.
pub fn interrupted_clone_message() -> (s: String)
    ensures
        s@ == "Clone interrupted by service restart"@,
{
    owned("Clone interrupted by service restart")
}

/// The repositories whose clone was running when the service stopped: those in
/// `cloning`, in order. They are set to `failed` on start.
pub fn stuck_clones(repos: &Vec<Repo>) -> (r: Vec<String>)
    ensures
        views(r@) == repos@.filter(|x: Repo| x.clone_status == CloneStatus::Cloning).map_values(
            |x: Repo| x.full_name@,
        ),
{
    let ghost f = |x: Repo| x.clone_status == CloneStatus::Cloning;
    let ghost g = |x: Repo| x.full_name@;
    let mut out: Vec<String> = Vec::new();
    let mut i: usize = 0;
    while i < repos.len()
        invariant
            i <= repos.len(),
            f == (|x: Repo| x.clone_status == CloneStatus::Cloning),
            g == (|x: Repo| x.full_name@),
            views(out@) == repos@.take(i as int).filter(f).map_values(g),
        decreases repos.len() - i,
    {
        proof {
            reveal(Seq::filter);
            assert(repos@.take(i + 1).drop_last() =~= repos@.take(i as int));
            assert(repos@.take(i + 1).last() == repos@[i as int]);
        }
        if repos[i].clone_status == CloneStatus::Cloning {
            let ghost before = out@;
            out.push(repos[i].full_name.clone());
            proof {
                assert(repos@.take(i + 1).filter(f) =~= repos@.take(i as int).filter(f).push(repos@[i as int]));
                assert(views(out@) =~= views(before).push(repos@[i as int].full_name@));
                assert(repos@.take(i + 1).filter(f).map_values(g) =~= repos@.take(i as int).filter(f).map_values(g).push(g(repos@[i as int])));
            }
        } else {
            proof {
                assert(repos@.take(i + 1).filter(f) =~= repos@.take(i as int).filter(f));
            }
        }
        i = i + 1;
    }
    assert(repos@.take(repos.len() as int) =~= repos@);
    out
}

} // verus!
