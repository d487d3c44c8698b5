//! Where repositories and issue worktrees live on disk, and the git commands that
//! create and remove worktrees.

use vstd::prelude::*;
use vstd::string::*;

use crate::config::OpencodeConfig;
use crate::session::worktree_errors::WorktreeError;
use crate::text::{
    concat2, decimal, field0, field1, owned, split_once_char, to_lowercase,
    u64_to_decimal, unicode_lowercase,
};

verus! {

/// `base` joined with the relative component `comp`, as `Path::join` does for a
/// component that does not start with `/`.
pub open spec fn join_spec(base: Seq<char>, comp: Seq<char>) -> Seq<char> {
    if base.len() == 0 || base.last() == '/' {
        base + comp
    } else {
        base + "/"@ + comp
    }
}

/// Joins a relative path component onto a base path.
pub fn join_path(base: &str, comp: &str) -> (r: String)
    ensures
        r@ == join_spec(base@, comp@),
{
    let n = base.unicode_len();
    if n == 0 || base.get_char(n - 1) == '/' {
        concat2(base, comp)
    } else {
        let mut r = concat2(base, "/");
        r.append(comp);
        r
    }
}

/// The owner and repository of `owner/repo`, lowercased; a missing part is empty.
pub open spec fn repo_parts_spec(repo_full_name: Seq<char>) -> (Seq<char>, Seq<char>) {
    (
        unicode_lowercase(field0(repo_full_name, '/')),
        unicode_lowercase(
            match field1(repo_full_name, '/') {
                Some(r) => r,
                None => seq![],
            },
        ),
    )
}

/// The directory name of a repository's clone: `{owner}_{repo}`.
pub open spec fn repo_dir_spec(repo_full_name: Seq<char>) -> Seq<char> {
    repo_parts_spec(repo_full_name).0 + "_"@ + repo_parts_spec(repo_full_name).1
}

/// `<worktree_base>/_worktrees/<owner>_<repo>/<issue_id>`.
pub open spec fn worktree_path_spec(base: Seq<char>, repo_full_name: Seq<char>, issue_id: u64) -> Seq<char> {
    join_spec(
        join_spec(join_spec(base, "_worktrees"@), repo_dir_spec(repo_full_name)),
        decimal(issue_id as nat),
    )
}

/// `<worktree_base>/<owner>_<repo>`.
pub open spec fn bare_clone_path_spec(base: Seq<char>, repo_full_name: Seq<char>) -> Seq<char> {
    join_spec(base, repo_dir_spec(repo_full_name))
}

/// Parses `owner/repo` into its two parts, lowercased. A name without a slash gives
/// an empty repository part; text after a second slash is ignored.
pub fn parse_repo_full_name(repo_full_name: &str) -> (r: (String, String))
    ensures
        (r.0@, r.1@) == repo_parts_spec(repo_full_name@),
{
    let (owner, rest) = split_once_char(repo_full_name, '/');
    let repo = match rest {
        Some(r) => {
            let (second, _) = split_once_char(r.as_str(), '/');
            second
        },
        None => String::new(),
    };
    (to_lowercase(owner.as_str()), to_lowercase(repo.as_str()))
}

fn repo_dir(repo_full_name: &str) -> (r: String)
    ensures
        r@ == repo_dir_spec(repo_full_name@),
{
    let (owner, repo) = parse_repo_full_name(repo_full_name);
    let mut d = concat2(owner.as_str(), "_");
    d.append(repo.as_str());
    d
}

/// The path of an issue's worktree: `<worktree_base>/_worktrees/<owner>_<repo>/<issue_id>`.
pub fn worktree_path(config: &OpencodeConfig, repo_full_name: &str, issue_id: u64) -> (r: String)
    ensures
        r@ == worktree_path_spec(config.worktree_base@, repo_full_name@, issue_id),
{
    let a = join_path(config.worktree_base.as_str(), "_worktrees");
    let b = join_path(a.as_str(), repo_dir(repo_full_name).as_str());
    join_path(b.as_str(), u64_to_decimal(issue_id).as_str())
}

/// The path of a repository's bare clone: `<worktree_base>/<owner>_<repo>`.
pub fn bare_clone_path(config: &OpencodeConfig, repo_full_name: &str) -> (r: String)
    ensures
        r@ == bare_clone_path_spec(config.worktree_base@, repo_full_name@),
{
    join_path(config.worktree_base.as_str(), repo_dir(repo_full_name).as_str())
}

/// The file whose presence shows that a bare clone exists: `<bare clone>/HEAD`.
pub fn clone_head_path(config: &OpencodeConfig, repo_full_name: &str) -> (r: String)
    ensures
        r@ == join_spec(bare_clone_path_spec(config.worktree_base@, repo_full_name@), "HEAD"@),
{
    join_path(bare_clone_path(config, repo_full_name).as_str(), "HEAD")
}

/// Arguments of `git worktree add <path> -b <branch>`, run in the bare clone.
pub fn worktree_add_args(worktree_dir: &str, branch_name: &str) -> (r: Vec<String>)
    ensures
        r@.map_values(|s: String| s@) == seq!["worktree"@, "add"@, worktree_dir@, "-b"@, branch_name@],
{
    let v = vec![
        owned("worktree"),
        owned("add"),
        owned(worktree_dir),
        owned("-b"),
        owned(branch_name),
    ];
    assert(v@.map_values(|s: String| s@) =~= seq![
        "worktree"@,
        "add"@,
        worktree_dir@,
        "-b"@,
        branch_name@,
    ]);
    v
}

/// Arguments of `git worktree remove --force <path>`, run in the bare clone.
pub fn worktree_remove_args(worktree_dir: &str) -> (r: Vec<String>)
    ensures
        r@.map_values(|s: String| s@) == seq!["worktree"@, "remove"@, "--force"@, worktree_dir@],
{
    let v = vec![owned("worktree"), owned("remove"), owned("--force"), owned(worktree_dir)];
    assert(v@.map_values(|s: String| s@) =~= seq![
        "worktree"@,
        "remove"@,
        "--force"@,
        worktree_dir@,
    ]);
    v
}

// ---------------------------------------------------------------------------
// Creating and removing worktrees
// ---------------------------------------------------------------------------

/// `<worktree_base>/_worktrees/<owner>_<repo>`: the directory of a repository's
/// worktrees, of which each worktree path is one component more.
pub open spec fn worktree_parent_spec(base: Seq<char>, repo_full_name: Seq<char>) -> Seq<char> {
    join_spec(join_spec(base, "_worktrees"@), repo_dir_spec(repo_full_name))
}

/// What creating an issue's worktree involves: the bare clone it is added from,
/// the worktree's path and the directory created for it, and its branch,
/// `agent/issue-{issue_id}`.
#[derive(Debug, Clone)]
pub struct WorktreePlan {
    pub bare_clone_dir: String,
    pub worktree_dir: String,
    pub parent_dir: String,
    pub branch_name: String,
    pub add_args: Vec<String>,
}

/// The plan for creating the worktree of issue `issue_id`.
pub fn plan_create_worktree(config: &OpencodeConfig, repo_full_name: &str, issue_id: u64) -> (r:
    WorktreePlan)
    ensures
        r.bare_clone_dir@ == bare_clone_path_spec(config.worktree_base@, repo_full_name@),
        r.worktree_dir@ == worktree_path_spec(config.worktree_base@, repo_full_name@, issue_id),
        r.parent_dir@ == worktree_parent_spec(config.worktree_base@, repo_full_name@),
        r.worktree_dir@ == join_spec(r.parent_dir@, decimal(issue_id as nat)),
        r.branch_name@ == "agent/issue-"@ + decimal(issue_id as nat),
        r.add_args@.map_values(|s: String| s@) == seq![
            "worktree"@,
            "add"@,
            r.worktree_dir@,
            "-b"@,
            r.branch_name@,
        ],
{
    let a = join_path(config.worktree_base.as_str(), "_worktrees");
    let parent_dir = join_path(a.as_str(), repo_dir(repo_full_name).as_str());
    let worktree_dir = worktree_path(config, repo_full_name, issue_id);
    let branch_name = concat2("agent/issue-", u64_to_decimal(issue_id).as_str());
    let add_args = worktree_add_args(worktree_dir.as_str(), branch_name.as_str());
    WorktreePlan {
        bare_clone_dir: bare_clone_path(config, repo_full_name),
        worktree_dir,
        parent_dir,
        branch_name,
        add_args,
    }
}

/// The error when the repository has no bare clone to add a worktree from.
pub fn bare_clone_missing(config: &OpencodeConfig, repo_full_name: &str) -> (e: WorktreeError)
    ensures
        e matches WorktreeError::BareCloneMissing(p) && p@ == bare_clone_path_spec(
            config.worktree_base@,
            repo_full_name@,
        ),
{
    WorktreeError::BareCloneMissing(bare_clone_path(config, repo_full_name))
}

/// The outcome of `git worktree add` for issue `issue_id`.
pub fn worktree_add_result(repo_full_name: &str, issue_id: u64, success: bool, stderr: &str) -> (r:
    Result<(), WorktreeError>)
    ensures
        success ==> r is Ok,
        !success ==> (r matches Err(WorktreeError::CommandFailed { operation, target, stderr: e })
            && operation@ == "git worktree add"@ && target@ == repo_full_name@ + " issue "@
            + decimal(issue_id as nat) && e@ == stderr@),
{
    if success {
        Ok(())
    } else {
        let mut target = concat2(repo_full_name, " issue ");
        target.append(u64_to_decimal(issue_id).as_str());
        Err(
            WorktreeError::CommandFailed {
                operation: owned("git worktree add"),
                target,
                stderr: owned(stderr),
            },
        )
    }
}

/// The outcome of `git worktree remove --force` for the worktree at `path`.
pub fn worktree_remove_result(path: &str, success: bool, stderr: &str) -> (r: Result<(), WorktreeError>)
    ensures
        success ==> r is Ok,
        !success ==> (r matches Err(WorktreeError::CommandFailed { operation, target, stderr: e })
            && operation@ == "git worktree remove"@ && target@ == path@ && e@ == stderr@),
{
    if success {
        Ok(())
    } else {
        Err(
            WorktreeError::CommandFailed {
                operation: owned("git worktree remove"),
                target: owned(path),
                stderr: owned(stderr),
            },
        )
    }
}

} // verus!
