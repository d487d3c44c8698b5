//! Session vocabulary: actions, modes, states, clone statuses, bot comment texts and
//! deterministic session identifiers.

use vstd::prelude::*;
use vstd::utf8::encode_utf8;

pub mod clone;
pub mod clone_errors;
pub mod dispatch;
pub mod env_loader;
pub mod env_loader_errors;
pub mod opencode;
pub mod opencode_api;
pub mod opencode_errors;
pub mod prompt;
pub mod repo_cleanup;
pub mod repo_cleanup_errors;
pub mod worktree;
pub mod worktree_errors;

pub use prompt::{build_prompt, PromptContext};

use crate::errors::SessionError;
use vstd::string::*;

use crate::text::{
    char_is_alphanumeric, chars_of, concat2, decimal, field0, field1, owned, push_char,
    split_once_char, starts_with_spec, str_eq, to_lowercase, trim_end_char, trim_end_char_spec,
    u64_to_decimal, unicode_alphanumeric, unicode_lowercase,
};

verus! {

/// What a trigger asks the agent to do.
#[derive(Debug, Clone, Copy, PartialEq, Eq, Structural)]
pub enum SessionAction {
    Plan,
    Build,
    Revision,
}

/// How a session collaborates on its issue.
#[derive(Debug, Clone, Copy, PartialEq, Eq, Structural)]
pub enum SessionMode {
    Collab,
    Build,
}

/// Lifecycle state of a session row.
#[derive(Debug, Clone, Copy, PartialEq, Eq, Structural)]
pub enum SessionState {
    Planning,
    Building,
    Revising,
    Idle,
    Busy,
    Error,
}

/// Status of a repository's bare clone.
#[derive(Debug, Clone, Copy, PartialEq, Eq, Structural)]
pub enum CloneStatus {
    Pending,
    Cloning,
    Ready,
    Failed,
}

// ---------------------------------------------------------------------------
// Names
// ---------------------------------------------------------------------------

pub open spec fn mode_name(m: SessionMode) -> Seq<char> {
    match m {
        SessionMode::Collab => "collab"@,
        SessionMode::Build => "build"@,
    }
}

pub open spec fn action_name(a: SessionAction) -> Seq<char> {
    match a {
        SessionAction::Plan => "plan"@,
        SessionAction::Build => "build"@,
        SessionAction::Revision => "revision"@,
    }
}

pub open spec fn state_name(s: SessionState) -> Seq<char> {
    match s {
        SessionState::Planning => "planning"@,
        SessionState::Building => "building"@,
        SessionState::Revising => "revising"@,
        SessionState::Idle => "idle"@,
        SessionState::Busy => "busy"@,
        SessionState::Error => "error"@,
    }
}

pub open spec fn clone_status_name(s: CloneStatus) -> Seq<char> {
    match s {
        CloneStatus::Pending => "pending"@,
        CloneStatus::Cloning => "cloning"@,
        CloneStatus::Ready => "ready"@,
        CloneStatus::Failed => "failed"@,
    }
}

pub open spec fn parse_mode_spec(s: Seq<char>) -> Option<SessionMode> {
    if s == "collab"@ {
        Some(SessionMode::Collab)
    } else if s == "build"@ {
        Some(SessionMode::Build)
    } else {
        None
    }
}

pub open spec fn parse_action_spec(s: Seq<char>) -> Option<SessionAction> {
    if s == "plan"@ {
        Some(SessionAction::Plan)
    } else if s == "build"@ {
        Some(SessionAction::Build)
    } else if s == "revision"@ {
        Some(SessionAction::Revision)
    } else {
        None
    }
}

pub open spec fn parse_state_spec(s: Seq<char>) -> Option<SessionState> {
    if s == "planning"@ {
        Some(SessionState::Planning)
    } else if s == "building"@ {
        Some(SessionState::Building)
    } else if s == "revising"@ {
        Some(SessionState::Revising)
    } else if s == "idle"@ {
        Some(SessionState::Idle)
    } else if s == "busy"@ {
        Some(SessionState::Busy)
    } else if s == "error"@ {
        Some(SessionState::Error)
    } else {
        None
    }
}

pub open spec fn parse_clone_status_spec(s: Seq<char>) -> Option<CloneStatus> {
    if s == "pending"@ {
        Some(CloneStatus::Pending)
    } else if s == "cloning"@ {
        Some(CloneStatus::Cloning)
    } else if s == "ready"@ {
        Some(CloneStatus::Ready)
    } else if s == "failed"@ {
        Some(CloneStatus::Failed)
    } else {
        None
    }
}

/// A state in which an agent run is in progress.
pub open spec fn is_busy_state(s: SessionState) -> bool {
    s == SessionState::Planning || s == SessionState::Building || s == SessionState::Revising
}

pub open spec fn action_state(a: SessionAction) -> SessionState {
    match a {
        SessionAction::Plan => SessionState::Planning,
        SessionAction::Build => SessionState::Building,
        SessionAction::Revision => SessionState::Revising,
    }
}

pub open spec fn action_mode(a: SessionAction) -> SessionMode {
    match a {
        SessionAction::Plan => SessionMode::Collab,
        SessionAction::Build | SessionAction::Revision => SessionMode::Build,
    }
}

pub open spec fn mode_action(m: SessionMode) -> SessionAction {
    match m {
        SessionMode::Collab => SessionAction::Plan,
        SessionMode::Build => SessionAction::Build,
    }
}

impl SessionMode {
    pub fn as_str(self) -> (s: &'static str)
        ensures
            s@ == mode_name(self),
    {
        match self {
            SessionMode::Collab => "collab",
            SessionMode::Build => "build",
        }
    }

    /// The action a trigger in this mode runs.
    pub fn action(self) -> (a: SessionAction)
        ensures
            a == mode_action(self),
    {
        match self {
            SessionMode::Collab => SessionAction::Plan,
            SessionMode::Build => SessionAction::Build,
        }
    }

    /// Parses a mode name; an unknown name is an error naming it.
    pub fn parse(value: &str) -> (r: Result<SessionMode, SessionError>)
        ensures
            r matches Ok(m) ==> parse_mode_spec(value@) == Some(m),
            r matches Err(e) ==> parse_mode_spec(value@) is None && e == SessionError::Message(
                e->Message_0,
            ) && e->Message_0@ == "Unknown session mode: "@ + value@,
    {
        if str_eq(value, "collab") {
            Ok(SessionMode::Collab)
        } else if str_eq(value, "build") {
            Ok(SessionMode::Build)
        } else {
            Err(SessionError::Message(concat2("Unknown session mode: ", value)))
        }
    }
}

impl SessionAction {
    pub fn as_str(self) -> (s: &'static str)
        ensures
            s@ == action_name(self),
    {
        match self {
            SessionAction::Plan => "plan",
            SessionAction::Build => "build",
            SessionAction::Revision => "revision",
        }
    }

    /// The state a session is put in while this action runs.
    pub fn state(self) -> (s: SessionState)
        ensures
            s == action_state(self),
    {
        match self {
            SessionAction::Plan => SessionState::Planning,
            SessionAction::Build => SessionState::Building,
            SessionAction::Revision => SessionState::Revising,
        }
    }

    /// The opencode agent every action runs with.
    pub fn agent_mode(self) -> (s: &'static str)
        ensures
            s@ == "forgebot"@,
    {
        "forgebot"
    }

    /// The session mode recorded for a session created by this action.
    pub fn session_mode(self) -> (m: SessionMode)
        ensures
            m == action_mode(self),
    {
        match self {
            SessionAction::Plan => SessionMode::Collab,
            SessionAction::Build | SessionAction::Revision => SessionMode::Build,
        }
    }

    /// Parses an action name; an unknown name is an error naming it.
    pub fn parse(value: &str) -> (r: Result<SessionAction, SessionError>)
        ensures
            r matches Ok(a) ==> parse_action_spec(value@) == Some(a),
            r matches Err(e) ==> parse_action_spec(value@) is None && e
                == SessionError::UnknownAction(e->UnknownAction_0) && e->UnknownAction_0@
                == value@,
    {
        if str_eq(value, "plan") {
            Ok(SessionAction::Plan)
        } else if str_eq(value, "build") {
            Ok(SessionAction::Build)
        } else if str_eq(value, "revision") {
            Ok(SessionAction::Revision)
        } else {
            Err(SessionError::UnknownAction(value.to_owned()))
        }
    }
}

impl SessionState {
    pub fn as_str(self) -> (s: &'static str)
        ensures
            s@ == state_name(self),
    {
        match self {
            SessionState::Planning => "planning",
            SessionState::Building => "building",
            SessionState::Revising => "revising",
            SessionState::Idle => "idle",
            SessionState::Busy => "busy",
            SessionState::Error => "error",
        }
    }

    /// Whether an agent run is in progress in this state.
    pub fn is_busy(self) -> (b: bool)
        ensures
            b == is_busy_state(self),
    {
        match self {
            SessionState::Planning | SessionState::Building | SessionState::Revising => true,
            _ => false,
        }
    }

    /// Parses a state name; an unknown name is an error naming it.
    pub fn parse(value: &str) -> (r: Result<SessionState, SessionError>)
        ensures
            r matches Ok(s) ==> parse_state_spec(value@) == Some(s),
            r matches Err(e) ==> parse_state_spec(value@) is None && e
                == SessionError::UnknownState(e->UnknownState_0) && e->UnknownState_0@ == value@,
    {
        if str_eq(value, "planning") {
            Ok(SessionState::Planning)
        } else if str_eq(value, "building") {
            Ok(SessionState::Building)
        } else if str_eq(value, "revising") {
            Ok(SessionState::Revising)
        } else if str_eq(value, "idle") {
            Ok(SessionState::Idle)
        } else if str_eq(value, "busy") {
            Ok(SessionState::Busy)
        } else if str_eq(value, "error") {
            Ok(SessionState::Error)
        } else {
            Err(SessionError::UnknownState(value.to_owned()))
        }
    }

    /// Whether this state is named `other`.
    pub fn matches_name(self, other: &str) -> (b: bool)
        ensures
            b == (state_name(self) == other@),
    {
        str_eq(self.as_str(), other)
    }
}

impl CloneStatus {
    pub fn as_str(self) -> (s: &'static str)
        ensures
            s@ == clone_status_name(self),
    {
        match self {
            CloneStatus::Pending => "pending",
            CloneStatus::Cloning => "cloning",
            CloneStatus::Ready => "ready",
            CloneStatus::Failed => "failed",
        }
    }

    /// Parses a clone status name; an unknown name is an error naming it.
    pub fn parse(value: &str) -> (r: Result<CloneStatus, SessionError>)
        ensures
            r matches Ok(s) ==> parse_clone_status_spec(value@) == Some(s),
            r matches Err(e) ==> parse_clone_status_spec(value@) is None && e
                == SessionError::UnknownCloneStatus(e->UnknownCloneStatus_0)
                && e->UnknownCloneStatus_0@ == value@,
    {
        if str_eq(value, "pending") {
            Ok(CloneStatus::Pending)
        } else if str_eq(value, "cloning") {
            Ok(CloneStatus::Cloning)
        } else if str_eq(value, "ready") {
            Ok(CloneStatus::Ready)
        } else if str_eq(value, "failed") {
            Ok(CloneStatus::Failed)
        } else {
            Err(SessionError::UnknownCloneStatus(value.to_owned()))
        }
    }

    /// Whether this status is named `other`.
    pub fn matches_name(self, other: &str) -> (b: bool)
        ensures
            b == (clone_status_name(self) == other@),
    {
        str_eq(self.as_str(), other)
    }
}

/// Every state a session row may hold.
pub fn session_active_states() -> (v: Vec<SessionState>)
    ensures
        v@ == seq![
            SessionState::Planning,
            SessionState::Building,
            SessionState::Revising,
            SessionState::Idle,
            SessionState::Busy,
            SessionState::Error,
        ],
{
    vec![
        SessionState::Planning,
        SessionState::Building,
        SessionState::Revising,
        SessionState::Idle,
        SessionState::Busy,
        SessionState::Error,
    ]
}

/// The states in which an agent run is in progress.
pub fn session_busy_states() -> (v: Vec<SessionState>)
    ensures
        v@ == seq![SessionState::Planning, SessionState::Building, SessionState::Revising],
        forall|s: SessionState| v@.contains(s) <==> is_busy_state(s),
{
    let v = vec![SessionState::Planning, SessionState::Building, SessionState::Revising];
    proof {
        assert forall|s: SessionState| v@.contains(s) <==> is_busy_state(s) by {
            if is_busy_state(s) {
                if s == SessionState::Planning {
                    assert(v@[0] == s);
                } else if s == SessionState::Building {
                    assert(v@[1] == s);
                } else {
                    assert(v@[2] == s);
                }
            }
        }
    }
    v
}

impl std::str::FromStr for SessionMode {
    type Err = SessionError;

    fn from_str(value: &str) -> (r: Result<SessionMode, SessionError>)
        ensures
            r matches Ok(m) ==> parse_mode_spec(value@) == Some(m),
            r matches Err(e) ==> parse_mode_spec(value@) is None && e == SessionError::Message(
                e->Message_0,
            ) && e->Message_0@ == "Unknown session mode: "@ + value@,
    {
        SessionMode::parse(value)
    }
}

impl std::str::FromStr for SessionAction {
    type Err = SessionError;

    fn from_str(value: &str) -> (r: Result<SessionAction, SessionError>)
        ensures
            r matches Ok(a) ==> parse_action_spec(value@) == Some(a),
            r matches Err(e) ==> parse_action_spec(value@) is None && e
                == SessionError::UnknownAction(e->UnknownAction_0) && e->UnknownAction_0@
                == value@,
    {
        SessionAction::parse(value)
    }
}

impl std::str::FromStr for SessionState {
    type Err = SessionError;

    fn from_str(value: &str) -> (r: Result<SessionState, SessionError>)
        ensures
            r matches Ok(s) ==> parse_state_spec(value@) == Some(s),
            r matches Err(e) ==> parse_state_spec(value@) is None && e
                == SessionError::UnknownState(e->UnknownState_0) && e->UnknownState_0@ == value@,
    {
        SessionState::parse(value)
    }
}

impl std::str::FromStr for CloneStatus {
    type Err = SessionError;

    fn from_str(value: &str) -> (r: Result<CloneStatus, SessionError>)
        ensures
            r matches Ok(s) ==> parse_clone_status_spec(value@) == Some(s),
            r matches Err(e) ==> parse_clone_status_spec(value@) is None && e
                == SessionError::UnknownCloneStatus(e->UnknownCloneStatus_0)
                && e->UnknownCloneStatus_0@ == value@,
    {
        CloneStatus::parse(value)
    }
}

/// Trigger information for starting a session.
#[derive(Debug, Clone)]
pub struct SessionTrigger {
    pub repo_full_name: String,
    pub issue_id: u64,
    pub pr_id: Option<u64>,
    pub action: SessionAction,
}

// ---------------------------------------------------------------------------
// Bot comment texts
// ---------------------------------------------------------------------------

pub fn comment_text_thinking() -> (s: String)
    ensures
        s@ == "🤖 forgebot is thinking..."@,
{
    owned("🤖 forgebot is thinking...")
}

pub fn comment_text_working() -> (s: String)
    ensures
        s@ == "🤖 forgebot is working on it..."@,
{
    owned("🤖 forgebot is working on it...")
}

pub fn comment_text_busy() -> (s: String)
    ensures
        s@
            == "🤖 forgebot is currently working on this issue. Please wait until it's done before sending another command."@,
{
    owned(
        "🤖 forgebot is currently working on this issue. Please wait until it's done before sending another command.",
    )
}

pub fn comment_text_error(err: &str) -> (s: String)
    ensures
        s@ == "❌ Error: "@ + err@,
{
    concat2("❌ Error: ", err)
}

pub fn comment_text_no_context() -> (s: String)
    ensures
        s@
            == "❌ I don't have context for this PR. Please ensure this PR was created through forgebot."@,
{
    owned(
        "❌ I don't have context for this PR. Please ensure this PR was created through forgebot.",
    )
}

// ---------------------------------------------------------------------------
// The opencode web UI
// ---------------------------------------------------------------------------

/// The character of the URL-safe base64 alphabet (`A`-`Z`, `a`-`z`, `0`-`9`,
/// `-`, `_`) for a six-bit value.
pub open spec fn base64_url_char(v: int) -> char {
    if v < 26 {
        ('A' as int + v) as char
    } else if v < 52 {
        ('a' as int + (v - 26)) as char
    } else if v < 62 {
        ('0' as int + (v - 52)) as char
    } else if v == 62 {
        '-'
    } else {
        '_'
    }
}

/// Base64 with the URL-safe alphabet and no padding: each group of three bytes
/// gives four characters, a last group of one byte two, of two bytes three.
pub open spec fn base64_url_no_pad(b: Seq<u8>) -> Seq<char>
    decreases b.len(),
{
    if b.len() == 0 {
        seq![]
    } else if b.len() == 1 {
        seq![base64_url_char(b[0] as int / 4), base64_url_char((b[0] as int % 4) * 16)]
    } else if b.len() == 2 {
        seq![
            base64_url_char(b[0] as int / 4),
            base64_url_char((b[0] as int % 4) * 16 + b[1] as int / 16),
            base64_url_char((b[1] as int % 16) * 4),
        ]
    } else {
        seq![
            base64_url_char(b[0] as int / 4),
            base64_url_char((b[0] as int % 4) * 16 + b[1] as int / 16),
            base64_url_char((b[1] as int % 16) * 4 + b[2] as int / 64),
            base64_url_char(b[2] as int % 64),
        ] + base64_url_no_pad(b.skip(3))
    }
}

/// Encodes the UTF-8 bytes of `text` with
/// `base64::engine::general_purpose::URL_SAFE_NO_PAD` (`Engine::encode`): the
/// URL-safe alphabet, without `=` padding.
#[verifier::external_body]
fn encode_url_safe_no_pad(text: &str) -> (r: String)
    ensures
        r@ == base64_url_no_pad(encode_utf8(text@)),
{
    base64::Engine::encode(&base64::engine::general_purpose::URL_SAFE_NO_PAD, text)
}

/// `{host}/{dir}/session/{id}`, where `host` is the web host without trailing
/// slashes and `dir` the worktree path in URL-safe base64 without padding.
pub open spec fn session_web_url_spec(
    web_host: Seq<char>,
    worktree_path: Seq<char>,
    opencode_session_id: Seq<char>,
) -> Seq<char> {
    trim_end_char_spec(web_host, '/') + "/"@ + base64_url_no_pad(encode_utf8(worktree_path)) + "/session/"@
        + opencode_session_id
}

/// The opencode web UI address of a session.
pub fn opencode_session_web_url(
    web_host: &str,
    worktree_path: &str,
    opencode_session_id: &str,
) -> (r: String)
    ensures
        r@ == session_web_url_spec(web_host@, worktree_path@, opencode_session_id@),
{
    let mut url = trim_end_char(web_host, '/');
    url.append("/");
    url.append(encode_url_safe_no_pad(worktree_path).as_str());
    url.append("/session/");
    url.append(opencode_session_id);
    url
}

// ---------------------------------------------------------------------------
// Deterministic session identifiers
// ---------------------------------------------------------------------------

pub open spec fn sanitize_char(c: char) -> char {
    if unicode_alphanumeric(c) || c == '_' {
        c
    } else {
        '_'
    }
}

/// Lowercase, then replace every character that is neither alphanumeric nor `_`
/// by `_`.
pub open spec fn sanitize_spec(s: Seq<char>) -> Seq<char> {
    unicode_lowercase(s).map_values(|c: char| sanitize_char(c))
}

/// `ses_{issue_id}_{owner}_{repo}`, owner and repo sanitized; a missing repo part
/// is empty.
pub open spec fn session_id_spec(repo_full_name: Seq<char>, issue_id: u64) -> Seq<char> {
    let owner = field0(repo_full_name, '/');
    let repo = match field1(repo_full_name, '/') {
        Some(r) => r,
        None => seq![],
    };
    "ses_"@ + decimal(issue_id as nat) + "_"@ + sanitize_spec(owner) + "_"@ + sanitize_spec(repo)
}

/// Sanitizes a string for use in a session ID: lowercased, with every character that
/// is neither alphanumeric nor an underscore replaced by an underscore.
pub fn sanitize_for_session_id(s: &str) -> (r: String)
    ensures
        r@ == sanitize_spec(s@),
{
    let lower = to_lowercase(s);
    let v = chars_of(lower.as_str());
    let mut out = String::new();
    let mut i: usize = 0;
    while i < v.len()
        invariant
            i <= v.len(),
            v@ == unicode_lowercase(s@),
            out@ == v@.take(i as int).map_values(|c: char| sanitize_char(c)),
        decreases v.len() - i,
    {
        let c = v[i];
        let mapped = if char_is_alphanumeric(c) || c == '_' {
            c
        } else {
            '_'
        };
        push_char(&mut out, mapped);
        assert(v@.take(i + 1).map_values(|c: char| sanitize_char(c)) =~= v@.take(
            i as int,
        ).map_values(|c: char| sanitize_char(c)).push(sanitize_char(c)));
        i = i + 1;
    }
    assert(v@.take(v.len() as int) =~= v@);
    out
}

/// Derives the deterministic session ID of an issue: `ses_{issue_id}_{owner}_{repo}`.
pub fn derive_session_id(repo_full_name: &str, issue_id: u64) -> (r: String)
    ensures
        r@ == session_id_spec(repo_full_name@, issue_id),
{
    let (owner_raw, rest) = split_once_char(repo_full_name, '/');
    let repo_raw = match rest {
        Some(r) => {
            let (second, _) = split_once_char(r.as_str(), '/');
            second
        },
        None => String::new(),
    };
    let owner = sanitize_for_session_id(owner_raw.as_str());
    let repo = sanitize_for_session_id(repo_raw.as_str());
    let mut id = owned("ses_");
    id.append(u64_to_decimal(issue_id).as_str());
    id.append("_");
    id.append(owner.as_str());
    id.append("_");
    id.append(repo.as_str());
    id
}

/// The session ID an opencode session was created under, unless it is a derived
/// `ses_` ID (which opencode never issued).
pub open spec fn external_session_id_spec(opencode_session_id: Seq<char>) -> Option<Seq<char>> {
    if starts_with_spec(opencode_session_id, "ses_"@) {
        None
    } else {
        Some(opencode_session_id)
    }
}

// ---------------------------------------------------------------------------
// Laws
// ---------------------------------------------------------------------------

/// Every session state's name parses back to that state.
pub proof fn law_state_name_roundtrip(s: SessionState)
    ensures
        parse_state_spec(state_name(s)) == Some(s),
{
    reveal_strlit("planning");
    reveal_strlit("building");
    reveal_strlit("revising");
    reveal_strlit("idle");
    reveal_strlit("busy");
    reveal_strlit("error");
    match s {
        SessionState::Planning => {},
        SessionState::Building => {
            assert("building"@[0] != "planning"@[0]);
        },
        SessionState::Revising => {
            assert("revising"@[0] != "planning"@[0]);
            assert("revising"@[0] != "building"@[0]);
        },
        SessionState::Idle => {
            assert("idle"@[0] != "planning"@[0]);
            assert("idle"@[0] != "building"@[0]);
            assert("idle"@[0] != "revising"@[0]);
        },
        SessionState::Busy => {
            assert("busy"@[0] != "planning"@[0]);
            assert("busy"@.len() != "building"@.len());
            assert("busy"@[0] != "revising"@[0]);
            assert("busy"@[0] != "idle"@[0]);
        },
        SessionState::Error => {
            assert("error"@[0] != "planning"@[0]);
            assert("error"@[0] != "building"@[0]);
            assert("error"@[0] != "revising"@[0]);
            assert("error"@[0] != "idle"@[0]);
            assert("error"@[0] != "busy"@[0]);
        },
    }
}

/// Every clone status's name parses back to that status.
pub proof fn law_clone_status_name_roundtrip(s: CloneStatus)
    ensures
        parse_clone_status_spec(clone_status_name(s)) == Some(s),
{
    reveal_strlit("pending");
    reveal_strlit("cloning");
    reveal_strlit("ready");
    reveal_strlit("failed");
    match s {
        CloneStatus::Pending => {},
        CloneStatus::Cloning => {
            assert("cloning"@[0] != "pending"@[0]);
        },
        CloneStatus::Ready => {
            assert("ready"@[0] != "pending"@[0]);
            assert("ready"@[0] != "cloning"@[0]);
        },
        CloneStatus::Failed => {
            assert("failed"@[0] != "pending"@[0]);
            assert("failed"@[0] != "cloning"@[0]);
            assert("failed"@[0] != "ready"@[0]);
        },
    }
}

/// Every session mode's name parses back to that mode.
pub proof fn law_mode_name_roundtrip(m: SessionMode)
    ensures
        parse_mode_spec(mode_name(m)) == Some(m),
{
    reveal_strlit("collab");
    reveal_strlit("build");
    if m == SessionMode::Build {
        assert("build"@[0] != "collab"@[0]);
    }
}

/// Every session action's name parses back to that action.
pub proof fn law_action_name_roundtrip(a: SessionAction)
    ensures
        parse_action_spec(action_name(a)) == Some(a),
{
    reveal_strlit("plan");
    reveal_strlit("build");
    reveal_strlit("revision");
    match a {
        SessionAction::Plan => {},
        SessionAction::Build => {
            assert("build"@[0] != "plan"@[0]);
        },
        SessionAction::Revision => {
            assert("revision"@[0] != "plan"@[0]);
            assert("revision"@[0] != "build"@[0]);
        },
    }
}

/// Running any action puts the session in a busy state, so a second trigger is
/// rejected while it runs.
pub proof fn law_action_state_is_busy(a: SessionAction)
    ensures
        is_busy_state(action_state(a)),
{
}

/// A session created by a mode's action is recorded in that mode.
pub proof fn law_mode_action_mode(m: SessionMode)
    ensures
        action_mode(mode_action(m)) == m,
{
}

/// A derived session ID always carries the `ses_` prefix, so it is never mistaken
/// for an ID that opencode issued.
pub proof fn law_derived_session_id_is_not_external(repo_full_name: Seq<char>, issue_id: u64)
    ensures
        starts_with_spec(session_id_spec(repo_full_name, issue_id), "ses_"@),
        external_session_id_spec(session_id_spec(repo_full_name, issue_id)) is None,
{
    let id = session_id_spec(repo_full_name, issue_id);
    let rest = decimal(issue_id as nat) + "_"@ + sanitize_spec(field0(repo_full_name, '/')) + "_"@
        + sanitize_spec(
        match field1(repo_full_name, '/') {
            Some(r) => r,
            None => seq![],
        },
    );
    assert(id =~= "ses_"@ + rest);
    assert(id.subrange(0, "ses_"@.len() as int) =~= "ses_"@);
}

/// Every character of a derived session ID part is alphanumeric or `_`.
pub proof fn law_sanitized_chars(s: Seq<char>)
    ensures
        forall|i: int|
            0 <= i < sanitize_spec(s).len() ==> unicode_alphanumeric(#[trigger] sanitize_spec(s)[i])
                || sanitize_spec(s)[i] == '_',
        sanitize_spec(s).len() == unicode_lowercase(s).len(),
{
}

} // verus!
