//! Records of the `repos`, `sessions` and `pending_worktrees` tables, and the rules
//! that the database layer applies to values before they are stored.

pub mod errors;

use vstd::prelude::*;
use vstd::string::*;

use crate::errors::SessionError;
use crate::session::{
    clone_status_name, parse_clone_status_spec, parse_state_spec, is_busy_state, CloneStatus,
    SessionMode, SessionState,
};
use crate::text::{
    after_char, before_char, chars_of, concat2, count_char, count_char_exec,
    is_ascii_alphanumeric, is_ascii_alphanumeric_exec, owned, split_once_char,
};
use errors::DbError;

verus! {

/// Repository record.
#[derive(Debug, Clone)]
pub struct Repo {
    pub id: String,
    pub full_name: String,
    pub default_branch: String,
    pub env_loader: String,
    pub clone_status: CloneStatus,
    pub clone_error: Option<String>,
    pub clone_attempts: i64,
    pub last_clone_attempt_at: Option<String>,
    pub created_at: String,
    pub updated_at: String,
}

/// Session record.
#[derive(Debug, Clone)]
pub struct Session {
    pub id: String,
    pub repo_full_name: String,
    pub issue_id: i64,
    pub pr_id: Option<i64>,
    pub opencode_session_id: String,
    pub worktree_path: String,
    pub state: SessionState,
    pub mode: SessionMode,
    pub created_at: String,
    pub updated_at: String,
}

/// New session data for insertion (without generated fields).
#[derive(Debug, Clone)]
pub struct NewSession {
    pub id: String,
    pub repo_full_name: String,
    pub issue_id: i64,
    pub pr_id: Option<i64>,
    pub opencode_session_id: String,
    pub worktree_path: String,
    pub state: String,
    pub mode: String,
}

/// Pending worktree record.
#[derive(Debug, Clone)]
pub struct PendingWorktree {
    pub session_id: String,
    pub worktree_path: String,
    pub scheduled_at: String,
}

/// Whether `s` has the form of a random (version 4) UUID in lowercase hyphenated
/// text: 36 characters, hyphens at 8, 13, 18 and 23, lowercase hex digits
/// elsewhere, the version digit `4` at 14 and a variant digit `8`, `9`, `a` or `b`
/// at 19.
pub open spec fn is_uuid_v4_text(s: Seq<char>) -> bool {
    &&& s.len() == 36
    &&& forall|i: int|
        0 <= i < 36 ==> if i == 8 || i == 13 || i == 18 || i == 23 {
            #[trigger] s[i] == '-'
        } else {
            ('0' <= s[i] <= '9') || ('a' <= s[i] <= 'f')
        }
    &&& s[14] == '4'
    &&& (s[19] == '8' || s[19] == '9' || s[19] == 'a' || s[19] == 'b')
}

/// A fresh random (version 4) UUID in its hyphenated text form, from `uuid`'s
/// `Uuid::new_v4` and its `Display`, used as a record ID. Which UUID comes is left
/// unsaid (it is drawn at random); its form is stated.
#[verifier::external_body]
pub(crate) fn new_record_id() -> (r: String)
    ensures
        is_uuid_v4_text(r@),
{
    uuid::Uuid::new_v4().to_string()
}

// ---------------------------------------------------------------------------
// Repository names
// ---------------------------------------------------------------------------

/// Why a repository name is refused.
#[derive(Debug, Clone, Copy, PartialEq, Eq, Structural)]
pub enum RepoNameProblem {
    SlashCount,
    EmptyPart,
    BadCharacters,
}

pub open spec fn repo_name_char_ok(c: char) -> bool {
    is_ascii_alphanumeric(c) || c == '_' || c == '-'
}

pub open spec fn repo_part_chars_ok(p: Seq<char>) -> bool {
    forall|i: int| 0 <= i < p.len() ==> repo_name_char_ok(#[trigger] p[i])
}

/// The first problem found in a repository name, checking the slash count, then
/// the owner part, then the repository part.
pub open spec fn repo_name_problem(s: Seq<char>) -> Option<RepoNameProblem> {
    if count_char(s, '/') != 1 {
        Some(RepoNameProblem::SlashCount)
    } else {
        let owner = before_char(s, '/');
        let repo = match after_char(s, '/') {
            Some(r) => r,
            None => seq![],
        };
        if owner.len() == 0 {
            Some(RepoNameProblem::EmptyPart)
        } else if !repo_part_chars_ok(owner) {
            Some(RepoNameProblem::BadCharacters)
        } else if repo.len() == 0 {
            Some(RepoNameProblem::EmptyPart)
        } else if !repo_part_chars_ok(repo) {
            Some(RepoNameProblem::BadCharacters)
        } else {
            None
        }
    }
}

pub open spec fn repo_name_message(s: Seq<char>, p: RepoNameProblem) -> Seq<char> {
    "Invalid repository name '"@ + s + match p {
        RepoNameProblem::SlashCount => "' - must contain exactly one '/'"@,
        RepoNameProblem::EmptyPart => "' - empty owner or repository name"@,
        RepoNameProblem::BadCharacters =>
            "' - parts must contain only alphanumeric, hyphens, and underscores"@,
    }
}

fn part_chars_ok(p: &str) -> (r: bool)
    ensures
        r == repo_part_chars_ok(p@),
{
    let v = chars_of(p);
    let mut i: usize = 0;
    while i < v.len()
        invariant
            i <= v.len(),
            v@ == p@,
            forall|k: int| 0 <= k < i ==> repo_name_char_ok(v@[k]),
        decreases v.len() - i,
    {
        let c = v[i];
        if !(is_ascii_alphanumeric_exec(c) || c == '_' || c == '-') {
            return false;
        }
        i = i + 1;
    }
    true
}

fn repo_name_error(full_name: &str, problem: RepoNameProblem) -> (e: DbError)
    ensures
        e matches DbError::InvalidRepoFullName(m) && m@ == repo_name_message(full_name@, problem),
{
    let mut m = concat2("Invalid repository name '", full_name);
    match problem {
        RepoNameProblem::SlashCount => m.append("' - must contain exactly one '/'"),
        RepoNameProblem::EmptyPart => m.append("' - empty owner or repository name"),
        RepoNameProblem::BadCharacters => m.append(
            "' - parts must contain only alphanumeric, hyphens, and underscores",
        ),
    }
    DbError::InvalidRepoFullName(m)
}

/// Validates `owner/repo`: exactly one `/`, and two non-empty parts made only of
/// ASCII letters, digits, `-` and `_`.
pub fn validate_repo_full_name(full_name: &str) -> (r: Result<(), DbError>)
    ensures
        r is Ok <==> repo_name_problem(full_name@) is None,
        r matches Err(e) ==> e matches DbError::InvalidRepoFullName(m) && m@ == repo_name_message(
            full_name@,
            repo_name_problem(full_name@)->0,
        ),
{
    if count_char_exec(full_name, '/') != 1 {
        return Err(repo_name_error(full_name, RepoNameProblem::SlashCount));
    }
    let (owner, rest) = split_once_char(full_name, '/');
    let repo = match rest {
        Some(r) => r,
        None => String::new(),
    };
    if owner.as_str().unicode_len() == 0 {
        return Err(repo_name_error(full_name, RepoNameProblem::EmptyPart));
    }
    if !part_chars_ok(owner.as_str()) {
        return Err(repo_name_error(full_name, RepoNameProblem::BadCharacters));
    }
    if repo.as_str().unicode_len() == 0 {
        return Err(repo_name_error(full_name, RepoNameProblem::EmptyPart));
    }
    if !part_chars_ok(repo.as_str()) {
        return Err(repo_name_error(full_name, RepoNameProblem::BadCharacters));
    }
    Ok(())
}

// ---------------------------------------------------------------------------
// Stored enumerations
// ---------------------------------------------------------------------------

/// Reads a stored clone status; an unknown value is an error carrying it.
pub fn parse_clone_status(value: String) -> (r: Result<CloneStatus, DbError>)
    ensures
        r matches Ok(s) ==> parse_clone_status_spec(value@) == Some(s),
        r matches Err(e) ==> parse_clone_status_spec(value@) is None && (e matches DbError::ParseCloneStatus {
            value: v,
            source: SessionError::UnknownCloneStatus(u),
        } && v@ == value@ && u@ == value@),
{
    match CloneStatus::parse(value.as_str()) {
        Ok(s) => Ok(s),
        Err(source) => Err(DbError::ParseCloneStatus { value, source }),
    }
}

/// Reads a stored session state; an unknown value is an error carrying it.
pub fn parse_session_state(value: String) -> (r: Result<SessionState, DbError>)
    ensures
        r matches Ok(s) ==> parse_state_spec(value@) == Some(s),
        r matches Err(e) ==> parse_state_spec(value@) is None && (e matches DbError::ParseSessionState {
            value: v,
            source: SessionError::UnknownState(u),
        } && v@ == value@ && u@ == value@),
{
    match SessionState::parse(value.as_str()) {
        Ok(s) => Ok(s),
        Err(source) => Err(DbError::ParseSessionState { value, source }),
    }
}

/// The clone status an update names; an unknown name is refused before any write.
pub fn clone_status_for_update(status: &str) -> (r: Result<CloneStatus, DbError>)
    ensures
        r matches Ok(s) ==> parse_clone_status_spec(status@) == Some(s),
        r matches Err(e) ==> parse_clone_status_spec(status@) is None && (e matches DbError::InvalidCloneStatus(
            v,
        ) && v@ == status@),
{
    match CloneStatus::parse(status) {
        Ok(s) => Ok(s),
        Err(_) => Err(DbError::InvalidCloneStatus(owned(status))),
    }
}

/// The session state an update names; an unknown name is refused before any write.
pub fn session_state_for_update(state: &str) -> (r: Result<SessionState, DbError>)
    ensures
        r matches Ok(s) ==> parse_state_spec(state@) == Some(s),
        r matches Err(e) ==> parse_state_spec(state@) is None && (e matches DbError::InvalidSessionState(
            v,
        ) && v@ == state@),
{
    match SessionState::parse(state) {
        Ok(s) => Ok(s),
        Err(_) => Err(DbError::InvalidSessionState(owned(state))),
    }
}

/// The error for an update that matched no row.
pub fn not_found(entity: &str, key: &str) -> (e: DbError)
    ensures
        e matches DbError::NotFound { entity: en, key: k } && en@ == entity@ && k@ == key@,
{
    DbError::NotFound { entity: owned(entity), key: owned(key) }
}

// ---------------------------------------------------------------------------
// Clone status rules
// ---------------------------------------------------------------------------

/// A retry resets the clone status to `pending` only from `failed`; this is the
/// condition of the guarded update, so of concurrent retries only the first applies.
pub fn clone_retry_resets(current: CloneStatus) -> (r: bool)
    ensures
        r == (current == CloneStatus::Failed),
{
    match current {
        CloneStatus::Failed => true,
        _ => false,
    }
}

/// The setup page offers a retry unless a clone is running or done.
pub fn retry_clone_permitted(current: CloneStatus) -> (r: bool)
    ensures
        r == !(current == CloneStatus::Cloning || current == CloneStatus::Ready),
{
    match current {
        CloneStatus::Cloning | CloneStatus::Ready => false,
        _ => true,
    }
}

/// A webhook may be registered only once the clone is ready.
pub fn webhook_registration_permitted(current: CloneStatus) -> (r: bool)
    ensures
        r == (current == CloneStatus::Ready),
{
    match current {
        CloneStatus::Ready => true,
        _ => false,
    }
}

/// Whether any of the sessions is in a busy state.
pub fn has_active_sessions(sessions: &[Session]) -> (r: bool)
    ensures
        r == exists|i: int| 0 <= i < sessions@.len() && is_busy_state(#[trigger] sessions@[i].state),
{
    let mut i: usize = 0;
    while i < sessions.len()
        invariant
            i <= sessions@.len(),
            forall|k: int| 0 <= k < i ==> !is_busy_state(#[trigger] sessions@[k].state),
        decreases sessions.len() - i,
    {
        if sessions[i].state.is_busy() {
            return true;
        }
        i = i + 1;
    }
    false
}

/// The SQL placeholders for `n` bound values: `?, ?, …, ?`.
pub open spec fn placeholders_spec(n: nat) -> Seq<char>
    decreases n,
{
    if n == 0 {
        seq![]
    } else if n == 1 {
        "?"@
    } else {
        placeholders_spec((n - 1) as nat) + ", ?"@
    }
}

/// Placeholders for an `IN (...)` clause with `n` values.
pub fn sql_placeholders(n: usize) -> (r: String)
    ensures
        r@ == placeholders_spec(n as nat),
{
    let mut s = String::new();
    let mut i: usize = 0;
    while i < n
        invariant
            i <= n,
            s@ == placeholders_spec(i as nat),
        decreases n - i,
    {
        if i == 0 {
            s.append("?");
        } else {
            s.append(", ?");
        }
        i = i + 1;
    }
    s
}

/// A name that passes validation names exactly the repository whose owner and
/// repository parts it holds.
pub proof fn law_valid_repo_name_parts(s: Seq<char>)
    requires
        repo_name_problem(s) is None,
    ensures
        after_char(s, '/') is Some,
        before_char(s, '/') + "/"@ + after_char(s, '/')->0 == s,
        repo_part_chars_ok(before_char(s, '/')),
        repo_part_chars_ok(after_char(s, '/')->0),
{
    crate::text::lemma_find_from_sound(s, seq!['/'], 0);
    if after_char(s, '/') is None {
        lemma_count_zero(s, '/');
    }
    let i = crate::text::find_spec(s, seq!['/'])->0;
    assert(crate::text::occurs_at(s, seq!['/'], i));
    assert(s.subrange(i, i + 1)[0] == s[i]);
    assert(s[i] == '/');
    reveal_strlit("/");
    assert(before_char(s, '/') + "/"@ + after_char(s, '/')->0 =~= s);
}

proof fn lemma_count_zero(s: Seq<char>, c: char)
    requires
        forall|j: int| 0 <= j ==> !crate::text::occurs_at(s, seq![c], j),
    ensures
        count_char(s, c) == 0,
    decreases s.len(),
{
    if s.len() > 0 {
        let t = s.drop_last();
        assert forall|j: int| 0 <= j implies !crate::text::occurs_at(t, seq![c], j) by {
            if crate::text::occurs_at(t, seq![c], j) {
                assert(t.subrange(j, j + 1) =~= s.subrange(j, j + 1));
                assert(crate::text::occurs_at(s, seq![c], j));
            }
        }
        lemma_count_zero(t, c);
        let k = s.len() - 1;
        if s.last() == c {
            assert(s.subrange(k, k + 1) =~= seq![c]);
            assert(crate::text::occurs_at(s, seq![c], k));
        }
        assert(count_char(s, c) == count_char(t, c) + if s.last() == c {
            1nat
        } else {
            0nat
        });
    }
}

} // verus!
