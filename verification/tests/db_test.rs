use forgebot::db::errors::DbError;
use forgebot::db::{
    clone_retry_resets, clone_status_for_update, has_active_sessions, not_found,
    parse_clone_status, parse_session_state, retry_clone_permitted, session_state_for_update,
    sql_placeholders, validate_repo_full_name, webhook_registration_permitted, Session,
};
use forgebot::session::{CloneStatus, SessionMode, SessionState};

#[test]
fn test_validate_repo_full_name_rejects_single_component() {
    assert!(validate_repo_full_name("only-owner").is_err());
}

#[test]
fn test_validate_repo_full_name_rejects_with_spaces() {
    assert!(validate_repo_full_name("owner/with spaces").is_err());
}

#[test]
fn test_validate_repo_full_name_rejects_extra_slashes() {
    assert!(validate_repo_full_name("owner/repo/extra").is_err());
}

#[test]
fn test_validate_repo_full_name_rejects_empty_parts() {
    assert!(validate_repo_full_name("/repo").is_err());
    assert!(validate_repo_full_name("owner/").is_err());
}

#[test]
fn test_validate_repo_full_name_rejects_special_chars() {
    assert!(validate_repo_full_name("owner@domain/repo").is_err());
    assert!(validate_repo_full_name("owner/repo#hash").is_err());
    assert!(validate_repo_full_name("owner/repo.name").is_err());
}

#[test]
fn test_validate_repo_full_name_accepts_valid_names() {
    assert!(validate_repo_full_name("owner/repo").is_ok());
    assert!(validate_repo_full_name("owner-123/repo_456").is_ok());
    assert!(validate_repo_full_name("Alice/my-repo").is_ok());
    assert!(validate_repo_full_name("a/b").is_ok());
    assert!(validate_repo_full_name("OWNER123/REPO_NAME").is_ok());
}

#[test]
fn repo_name_errors_say_why() {
    assert_eq!(
        validate_repo_full_name("a/b/c").unwrap_err().render(),
        "Invalid repository name 'a/b/c' - must contain exactly one '/'"
    );
    assert_eq!(
        validate_repo_full_name("/b").unwrap_err().render(),
        "Invalid repository name '/b' - empty owner or repository name"
    );
    assert_eq!(
        validate_repo_full_name("a/b.c").unwrap_err().render(),
        "Invalid repository name 'a/b.c' - parts must contain only alphanumeric, hyphens, and underscores"
    );
}

#[test]
fn stored_values_parse() {
    assert_eq!(parse_clone_status("ready".to_string()), Ok(CloneStatus::Ready));
    assert!(matches!(
        parse_clone_status("weird".to_string()),
        Err(DbError::ParseCloneStatus { .. })
    ));
    assert_eq!(parse_session_state("idle".to_string()), Ok(SessionState::Idle));
    assert_eq!(
        parse_session_state("nope".to_string()).unwrap_err().render(),
        "failed to parse session state 'nope': unknown session state: nope"
    );
    assert_eq!(clone_status_for_update("failed"), Ok(CloneStatus::Failed));
    assert_eq!(
        clone_status_for_update("done"),
        Err(DbError::InvalidCloneStatus("done".to_string()))
    );
    assert_eq!(session_state_for_update("revising"), Ok(SessionState::Revising));
    assert_eq!(
        session_state_for_update("x"),
        Err(DbError::InvalidSessionState("x".to_string()))
    );
    assert_eq!(not_found("repo", "a/b").render(), "repo not found: a/b");
    assert_eq!(
        DbError::from_query("insert repo", true, "UNIQUE").render(),
        "database constraint violation during insert repo: UNIQUE"
    );
}

#[test]
fn clone_status_rules() {
    assert!(clone_retry_resets(CloneStatus::Failed));
    assert!(!clone_retry_resets(CloneStatus::Pending));
    assert!(retry_clone_permitted(CloneStatus::Failed));
    assert!(retry_clone_permitted(CloneStatus::Pending));
    assert!(!retry_clone_permitted(CloneStatus::Cloning));
    assert!(!retry_clone_permitted(CloneStatus::Ready));
    assert!(webhook_registration_permitted(CloneStatus::Ready));
    assert!(!webhook_registration_permitted(CloneStatus::Cloning));
}

pub fn session(state: SessionState) -> Session {
    Session {
        id: "s".to_string(),
        repo_full_name: "owner/test-repo".to_string(),
        issue_id: 1,
        pr_id: None,
        opencode_session_id: "ses_1_owner_test_repo".to_string(),
        worktree_path: "/w/1".to_string(),
        state,
        mode: SessionMode::Collab,
        created_at: "2024-01-01".to_string(),
        updated_at: "2024-01-01".to_string(),
    }
}

#[test]
fn active_sessions_are_the_busy_ones() {
    assert!(has_active_sessions(&[session(SessionState::Planning)]));
    assert!(has_active_sessions(&[
        session(SessionState::Idle),
        session(SessionState::Revising)
    ]));
    assert!(!has_active_sessions(&[
        session(SessionState::Idle),
        session(SessionState::Error),
        session(SessionState::Busy)
    ]));
    assert!(!has_active_sessions(&[]));
}

#[test]
fn placeholders_for_in_lists() {
    assert_eq!(sql_placeholders(0), "");
    assert_eq!(sql_placeholders(1), "?");
    assert_eq!(sql_placeholders(3), "?, ?, ?");
}
