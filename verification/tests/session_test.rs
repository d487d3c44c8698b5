use forgebot::forgejo::models::{Issue, IssueComment, PullRequestReviewComment, User};
use forgebot::session::prompt::format_timestamp;
use forgebot::session::{
    build_prompt, comment_text_busy, comment_text_error, comment_text_no_context,
    comment_text_thinking, comment_text_working, derive_session_id, opencode_session_web_url,
    sanitize_for_session_id, session_active_states, session_busy_states, CloneStatus,
    PromptContext, SessionAction, SessionMode, SessionState,
};

#[test]
fn test_derive_session_id() {
    // Basic case
    let id = derive_session_id("Alice/My-Repo", 42);
    assert_eq!(id, "ses_42_alice_my_repo");

    // Already lowercase
    let id = derive_session_id("alice/myrepo", 123);
    assert_eq!(id, "ses_123_alice_myrepo");

    // With dots (should become underscores)
    let id = derive_session_id("user/repo.name", 1);
    assert_eq!(id, "ses_1_user_repo_name");

    // With multiple special chars
    let id = derive_session_id("My-Org/Some_Repo", 99);
    assert_eq!(id, "ses_99_my_org_some_repo");

    // With numbers
    let id = derive_session_id("org2/repo-v1.0", 7);
    assert_eq!(id, "ses_7_org2_repo_v1_0");

    // Edge case: missing slash
    let id = derive_session_id("just-owner", 5);
    assert_eq!(id, "ses_5_just_owner_");
}

fn test_issue() -> Issue {
    Issue {
        id: 1,
        number: 42,
        title: "Test Issue".to_string(),
        body: Some("This is a test issue body.".to_string()),
        state: "open".to_string(),
        created_at: "2024-01-01T00:00:00Z".to_string(),
        updated_at: "2024-01-02T00:00:00Z".to_string(),
    }
}

fn test_user() -> User {
    User {
        id: 1,
        login: "testuser".to_string(),
    }
}

fn test_comments() -> Vec<IssueComment> {
    vec![
        IssueComment {
            id: 1,
            body: "First comment".to_string(),
            user: test_user(),
            created_at: "2024-01-01T12:00:00Z".to_string(),
            updated_at: "2024-01-01T12:00:00Z".to_string(),
        },
        IssueComment {
            id: 2,
            body: "Second comment with more context.".to_string(),
            user: User {
                id: 2,
                login: "anotheruser".to_string(),
            },
            created_at: "2024-01-02T08:30:00Z".to_string(),
            updated_at: "2024-01-02T08:30:00Z".to_string(),
        },
    ]
}

#[test]
fn test_build_plan_prompt() {
    let issue = test_issue();
    let comments = test_comments();
    let context = PromptContext {
        repo_full_name: "alice/project",
        issue_id: 42,
        pr_id: None,
        base_branch: "main",
        work_branch: "agent/issue-42",
    };
    let prompt = build_prompt(SessionAction::Plan, &context, &issue, &comments, &[]);

    assert!(prompt.contains("issue #42"));
    assert!(prompt.contains("Test Issue"));
    assert!(prompt.contains("This is a test issue body"));
    assert!(prompt.contains("First comment"));
    assert!(prompt.contains("Second comment with more context"));
    assert!(prompt.contains("testuser"));
    assert!(prompt.contains("anotheruser"));
    assert!(prompt.contains("single issue-to-PR workflow"));
    assert!(prompt.contains("planning comment"));
    assert!(prompt.contains("starting implementation"));
    assert!(prompt.contains("open a pull request"));
    assert!(prompt.contains("repo: alice/project"));
    assert!(prompt.contains("issue_id: 42"));
}

#[test]
fn test_build_build_prompt() {
    let issue = test_issue();
    let comments = test_comments();
    let context = PromptContext {
        repo_full_name: "alice/project",
        issue_id: 42,
        pr_id: None,
        base_branch: "main",
        work_branch: "agent/issue-42",
    };
    let prompt = build_prompt(SessionAction::Build, &context, &issue, &comments, &[]);

    assert!(prompt.contains("issue #42"));
    assert!(prompt.contains("Build mode is active"));
    assert!(prompt.contains("Your task: Implement the solution"));
    assert!(prompt.contains("open a pull request"));
    assert!(prompt.contains("head=agent/issue-42"));
    assert!(prompt.contains("base=main"));
}

#[test]
fn test_build_revision_prompt() {
    let issue = test_issue();
    let review_comments = vec![PullRequestReviewComment {
        id: 1,
        body: "Please fix this function name.".to_string(),
        user: test_user(),
        path: "src/main.rs".to_string(),
        line: Some(42),
        created_at: "2024-01-03T10:00:00Z".to_string(),
        updated_at: "2024-01-03T10:00:00Z".to_string(),
    }];
    let context = PromptContext {
        repo_full_name: "alice/project",
        issue_id: 42,
        pr_id: Some(123),
        base_branch: "main",
        work_branch: "agent/issue-42",
    };
    let prompt = build_prompt(
        SessionAction::Revision,
        &context,
        &issue,
        &[],
        &review_comments,
    );

    assert!(prompt.contains("Your PR #123"));
    assert!(prompt.contains("issue #42"));
    assert!(prompt.contains("Please fix this function name"));
    assert!(prompt.contains("testuser on src/main.rs:42"));
    assert!(prompt.contains("Your task: Address these review comments"));
    assert!(prompt.contains("force-push an updated commit"));
    assert!(prompt.contains("pr_id: 123"));
}

#[test]
fn test_build_prompt_empty_comments() {
    let issue = test_issue();
    let context = PromptContext {
        repo_full_name: "alice/project",
        issue_id: 42,
        pr_id: None,
        base_branch: "main",
        work_branch: "agent/issue-42",
    };
    let prompt = build_prompt(SessionAction::Plan, &context, &issue, &[], &[]);

    assert!(prompt.contains("(no comments)"));
}

#[test]
fn test_format_timestamp() {
    let formatted = format_timestamp("2024-01-15T14:30:45Z");
    assert_eq!(formatted, "2024-01-15 14:30 UTC");

    let formatted = format_timestamp("some random string");
    assert_eq!(formatted, "some random string");
}

#[test]
fn test_sanitize_for_session_id() {
    assert_eq!(sanitize_for_session_id("My-Repo"), "my_repo");
    assert_eq!(sanitize_for_session_id("repo.name"), "repo_name");
    assert_eq!(sanitize_for_session_id("UPPER"), "upper");
    assert_eq!(sanitize_for_session_id("already_lower"), "already_lower");
    assert_eq!(sanitize_for_session_id("123abc"), "123abc");
    assert_eq!(sanitize_for_session_id("!@#$%"), "_____");
}

#[test]
fn test_session_action_mappings() {
    assert_eq!(SessionAction::Plan.as_str(), "plan");
    assert_eq!(SessionAction::Build.as_str(), "build");
    assert_eq!(SessionAction::Revision.as_str(), "revision");

    assert_eq!(SessionAction::Plan.state(), SessionState::Planning);
    assert_eq!(SessionAction::Build.state(), SessionState::Building);
    assert_eq!(SessionAction::Revision.state(), SessionState::Revising);

    assert_eq!(SessionAction::Plan.agent_mode(), "forgebot");
    assert_eq!(SessionAction::Build.agent_mode(), "forgebot");
    assert_eq!(SessionAction::Revision.agent_mode(), "forgebot");
}

#[test]
fn test_session_mode_mappings() {
    assert_eq!(SessionMode::Collab.as_str(), "collab");
    assert_eq!(SessionMode::Build.as_str(), "build");

    assert_eq!(SessionMode::Collab.action(), SessionAction::Plan);
    assert_eq!(SessionMode::Build.action(), SessionAction::Build);

    assert_eq!(
        "collab".parse::<SessionMode>().unwrap(),
        SessionMode::Collab
    );
    assert_eq!("build".parse::<SessionMode>().unwrap(), SessionMode::Build);
}

#[test]
fn test_session_state_busy_policy() {
    assert!(SessionState::Planning.is_busy());
    assert!(SessionState::Building.is_busy());
    assert!(SessionState::Revising.is_busy());
    assert!(!SessionState::Idle.is_busy());
    assert!(!SessionState::Error.is_busy());
}

#[test]
fn test_clone_status_mappings() {
    assert_eq!(CloneStatus::Pending.as_str(), "pending");
    assert_eq!(CloneStatus::Cloning.as_str(), "cloning");
    assert_eq!(CloneStatus::Ready.as_str(), "ready");
    assert_eq!(CloneStatus::Failed.as_str(), "failed");

    assert_eq!(
        "pending".parse::<CloneStatus>().unwrap(),
        CloneStatus::Pending
    );
    assert_eq!(
        "cloning".parse::<CloneStatus>().unwrap(),
        CloneStatus::Cloning
    );
    assert_eq!("ready".parse::<CloneStatus>().unwrap(), CloneStatus::Ready);
    assert_eq!(
        "failed".parse::<CloneStatus>().unwrap(),
        CloneStatus::Failed
    );
}

#[test]
fn test_opencode_session_web_url() {
    let url = opencode_session_web_url(
        "http://localhost:4096/",
        "/var/lib/forgebot/worktrees/_worktrees/alice_repo/42",
        "oc_abc123",
    );

    assert_eq!(
        url,
        "http://localhost:4096/L3Zhci9saWIvZm9yZ2Vib3Qvd29ya3RyZWVzL193b3JrdHJlZXMvYWxpY2VfcmVwby80Mg/session/oc_abc123"
    );
}

#[test]
fn web_url_trims_every_trailing_slash_of_the_host() {
    let url = opencode_session_web_url("http://h:1///", "/a", "x");
    assert_eq!(url, "http://h:1/L2E/session/x");
}

#[test]
fn names_parse_back_to_their_values() {
    for s in [
        SessionState::Planning,
        SessionState::Building,
        SessionState::Revising,
        SessionState::Idle,
        SessionState::Busy,
        SessionState::Error,
    ] {
        assert_eq!(s.as_str().parse::<SessionState>().unwrap(), s);
    }
    for a in [SessionAction::Plan, SessionAction::Build, SessionAction::Revision] {
        assert_eq!(a.as_str().parse::<SessionAction>().unwrap(), a);
    }
    assert!("unknown".parse::<SessionState>().is_err());
    assert!("unknown".parse::<CloneStatus>().is_err());
    assert!("unknown".parse::<SessionMode>().is_err());
    assert!("unknown".parse::<SessionAction>().is_err());
}

#[test]
fn action_states_are_busy_and_modes_round_trip() {
    for a in [SessionAction::Plan, SessionAction::Build, SessionAction::Revision] {
        assert!(a.state().is_busy());
    }
    for m in [SessionMode::Collab, SessionMode::Build] {
        assert_eq!(m.action().session_mode(), m);
    }
    assert_eq!(SessionAction::Revision.session_mode(), SessionMode::Build);
}

#[test]
fn state_lists_match_the_busy_policy() {
    let busy = session_busy_states();
    assert_eq!(
        busy,
        vec![SessionState::Planning, SessionState::Building, SessionState::Revising]
    );
    let active = session_active_states();
    assert_eq!(active.len(), 6);
    assert!(busy.iter().all(|s| s.is_busy()));
}

#[test]
fn derived_session_ids_start_with_ses() {
    let id = derive_session_id("Some/Repo", 3);
    assert!(id.starts_with("ses_"));
}

#[test]
fn comment_texts() {
    assert_eq!(comment_text_thinking(), "🤖 forgebot is thinking...");
    assert_eq!(comment_text_working(), "🤖 forgebot is working on it...");
    assert_eq!(
        comment_text_busy(),
        "🤖 forgebot is currently working on this issue. Please wait until it's done before sending another command."
    );
    assert_eq!(comment_text_error("boom"), "❌ Error: boom");
    assert_eq!(
        comment_text_no_context(),
        "❌ I don't have context for this PR. Please ensure this PR was created through forgebot."
    );
}

#[test]
fn revision_prompt_without_review_comments_has_placeholder() {
    let issue = test_issue();
    let context = PromptContext {
        repo_full_name: "alice/project",
        issue_id: 42,
        pr_id: Some(7),
        base_branch: "main",
        work_branch: "agent/issue-42",
    };
    let prompt = build_prompt(SessionAction::Revision, &context, &issue, &[], &[]);
    assert!(prompt.contains("Your PR #7"));
}

#[test]
fn web_url_uses_the_url_safe_alphabet() {
    let url = opencode_session_web_url("https://oc.example.com", "???>>>", "ses_9");
    assert_eq!(url, "https://oc.example.com/Pz8_Pj4-/session/ses_9");
}
