use forgebot::config::{
    webhook_url, Config, DatabaseConfig, ForgejoConfig, OpencodeApiConfig, OpencodeConfig,
    ServerConfig,
};
use forgebot::db::Session;
use forgebot::forgejo::client::{
    collaborators_path, comment_payload, hook_path, hooks_path, http_failure_message,
    issue_comments_path, issue_path, pr_review_comments_path, token_permitted, user_path,
    webhook_delete_succeeded, webhook_payload, ForgejoApi,
};
use forgebot::forgejo::errors::ForgejoError;
use forgebot::forgejo::find_webhook_by_url;
use forgebot::forgejo::models::Webhook;
use forgebot::session::opencode_api::{
    abort_path, api_base_url, api_failure_message, prompt_accepted, prompt_async_path,
    session_path, text_prompt, PromptPartInput,
};
use forgebot::session::repo_cleanup::{
    next_removal_stage, RemovalStage,
    cleanup_failure_message, final_session_check, webhook_to_delete, worktrees_to_remove,
    CleanupStep,
};
use forgebot::session::repo_cleanup_errors::RepoCleanupError;
use forgebot::session::{SessionMode, SessionState};
use forgebot::ui::{
    add_repo_redirect, dashboard_owner_name, env_loader_update_message, format_webhook_url,
    internal_error_page, new_repo_with_id, normalize_env_loader, repo_full_name, repo_page_path,
    webhook_registered, webhook_registration_message, AddRepoForm, UiError,
};

fn config(forgebot_host: &str) -> Config {
    Config {
        server: ServerConfig {
            host: "127.0.0.1".to_string(),
            port: 8765,
            webhook_secret: "test-secret".to_string(),
            forgebot_host: forgebot_host.to_string(),
        },
        forgejo: ForgejoConfig {
            url: "https://forgejo.example.com".to_string(),
            token: "test-token".to_string(),
            bot_username: "forgebot".to_string(),
        },
        opencode: OpencodeConfig {
            binary: "opencode".to_string(),
            worktree_base: "/tmp/worktrees".to_string(),
            config_dir: "/tmp/config".to_string(),
            git_binary: "git".to_string(),
            model: "opencode/kimi-k2.5".to_string(),
            web_host: None,
            api: OpencodeApiConfig {
                base_url: None,
                token: None,
                timeout_secs: 30,
            },
        },
        database: DatabaseConfig {
            path: "/tmp/test.db".to_string(),
        },
    }
}

#[test]
fn repo_cleanup_test_webhook_url() {
    let config = config("http://example.com");
    let url = webhook_url(&config);
    assert_eq!(url, "http://example.com/webhook");
}

#[test]
fn test_repo_full_name_construction_with_special_chars() {
    let owner = "owner";
    let name = "test-repo_123";
    let full_name = repo_full_name(owner, name);
    assert_eq!(full_name, "owner/test-repo_123");
}

#[test]
fn test_repo_full_name_with_numbers() {
    let owner = "owner123";
    let name = "repo456";
    let full_name = repo_full_name(owner, name);
    assert_eq!(full_name, "owner123/repo456");
}

#[test]
fn test_repo_full_name_with_hyphens() {
    let owner = "my-owner";
    let name = "my-repo";
    let full_name = repo_full_name(owner, name);
    assert_eq!(full_name, "my-owner/my-repo");
}

#[test]
fn test_repo_full_name_with_underscores() {
    let owner = "my_owner";
    let name = "my_repo";
    let full_name = repo_full_name(owner, name);
    assert_eq!(full_name, "my_owner/my_repo");
}

#[test]
fn test_owner_name_with_uppercase() {
    let owner = "Owner";
    let name = "repo";
    let full_name = repo_full_name(owner, name);
    assert_eq!(full_name, "Owner/repo");
}

#[test]
fn test_owner_name_with_numbers() {
    let owner = "owner123";
    let name = "repo456";
    let full_name = repo_full_name(owner, name);
    assert_eq!(full_name, "owner123/repo456");
}

#[test]
fn test_repo_name_with_hyphen_underscore() {
    let owner = "org-with-hyphens";
    let name = "repo_with_underscores";
    let full_name = repo_full_name(owner, name);
    assert_eq!(full_name, "org-with-hyphens/repo_with_underscores");
}

#[test]
fn test_repo_name_preserves_dots() {
    let owner = "owner.org";
    let name = "repo.name";
    let full_name = repo_full_name(owner, name);
    assert_eq!(full_name, "owner.org/repo.name");
}

fn hook(id: u64, url: &str, active: bool) -> Webhook {
    Webhook {
        id,
        url: url.to_string(),
        events: vec!["issue_comment".to_string()],
        active,
    }
}

fn session(state: SessionState, path: &str) -> Session {
    Session {
        id: "s".to_string(),
        repo_full_name: "owner/test-repo".to_string(),
        issue_id: 42,
        pr_id: None,
        opencode_session_id: "ses_42".to_string(),
        worktree_path: path.to_string(),
        state,
        mode: SessionMode::Collab,
        created_at: "t".to_string(),
        updated_at: "t".to_string(),
    }
}

#[test]
fn removal_deletes_our_webhook_only() {
    let config = config("http://bot");
    let hooks = vec![
        hook(1, "http://other/webhook", true),
        hook(2, "http://bot/webhook", false),
        hook(3, "http://bot/webhook", true),
    ];
    assert_eq!(webhook_to_delete(&config, &hooks), Some(2));
    assert_eq!(webhook_to_delete(&config, &vec![hook(1, "x", true)]), None);
    assert_eq!(find_webhook_by_url(&hooks, "http://other/webhook"), Some(1));
}

#[test]
fn removal_blocks_on_busy_sessions() {
    for busy in [SessionState::Planning, SessionState::Building, SessionState::Revising] {
        let e = final_session_check("owner/test-repo", &vec![session(busy, "/w")]).unwrap_err();
        assert_eq!(
            e.render(),
            "cannot delete repository owner/test-repo: has active sessions in planning/building/revising state"
        );
    }
    for idle in [SessionState::Idle, SessionState::Error, SessionState::Busy] {
        assert!(final_session_check("owner/test-repo", &vec![session(idle, "/w")]).is_ok());
    }
    assert!(final_session_check("owner/test-repo", &vec![]).is_ok());
    assert_eq!(
        worktrees_to_remove(&vec![session(SessionState::Idle, "/a"), session(SessionState::Error, "/b")]),
        vec!["/a", "/b"]
    );
    assert_eq!(
        cleanup_failure_message(CleanupStep::DeleteWebhook(7), "a/b"),
        "failed to delete webhook 7 for repo: a/b"
    );
    assert_eq!(
        cleanup_failure_message(CleanupStep::DeleteRepo, "a/b"),
        "failed to delete repo from database: a/b"
    );
    assert_eq!(
        RepoCleanupError::Forgejo("x".to_string()).render(),
        "forgejo cleanup error: x"
    );
}

#[test]
fn ui_forms_and_paths() {
    assert_eq!(normalize_env_loader("nix"), "nix");
    assert_eq!(normalize_env_loader("direnv"), "direnv");
    assert_eq!(normalize_env_loader("bash"), "none");
    let form = AddRepoForm {
        full_name: "alice/repo".to_string(),
        default_branch: "main".to_string(),
        env_loader: "weird".to_string(),
    };
    let r = new_repo_with_id("id".to_string(), &form).unwrap();
    assert_eq!((r.full_name.as_str(), r.env_loader.as_str()), ("alice/repo", "none"));
    let bad = AddRepoForm {
        full_name: "alice".to_string(),
        default_branch: "main".to_string(),
        env_loader: "nix".to_string(),
    };
    assert!(new_repo_with_id("id".to_string(), &bad).is_none());
    assert_eq!(add_repo_redirect("alice/repo"), "/repo/alice/repo");
    assert_eq!(add_repo_redirect("alice"), "/");
    assert_eq!(repo_page_path("a", "b"), "/repo/a/b");
    assert_eq!(
        dashboard_owner_name("alice/repo"),
        ("alice".to_string(), "repo".to_string())
    );
    assert_eq!(dashboard_owner_name("solo"), ("solo".to_string(), String::new()));
    assert_eq!(format_webhook_url(&config("http://h")), "http://h/webhook");
    let hooks = vec![hook(1, "http://h/webhook", false), hook(2, "http://h/webhook", true)];
    assert!(webhook_registered(&hooks, "http://h/webhook"));
    assert!(!webhook_registered(&hooks[..1].to_vec(), "http://h/webhook"));
    assert_eq!(
        webhook_registration_message(None),
        ("Webhook registered successfully".to_string(), true)
    );
    assert_eq!(
        webhook_registration_message(Some("403")),
        ("Failed to create webhook: 403".to_string(), false)
    );
    assert_eq!(
        env_loader_update_message(Some("x")),
        ("Failed to update: x".to_string(), false)
    );
    assert!(internal_error_page("boom").contains("<p>boom</p>"));
    assert_eq!(UiError::NotFound("r".to_string()).render(), "not found: r");
}

#[test]
fn forgejo_endpoints() {
    let api = ForgejoApi::new("https://git.example.com//", "tok", "bot");
    assert_eq!(api.base_url(), "https://git.example.com");
    assert_eq!(api.bot_username(), "bot");
    assert_eq!(api.auth_header(), "token tok");
    assert_eq!(api.api_url("/api/v1/user"), "https://git.example.com/api/v1/user");
    assert_eq!(api.api_url("api/v1/user"), "https://git.example.com/api/v1/user");
    assert_eq!(issue_path("a/b", 3), "/api/v1/repos/a/b/issues/3");
    assert_eq!(issue_comments_path("a/b", 3), "/api/v1/repos/a/b/issues/3/comments");
    assert_eq!(pr_review_comments_path("a/b", 4), "/api/v1/repos/a/b/pulls/4/comments");
    assert_eq!(hooks_path("a/b"), "/api/v1/repos/a/b/hooks");
    assert_eq!(hook_path("a/b", 9), "/api/v1/repos/a/b/hooks/9");
    assert_eq!(collaborators_path("a/b"), "/api/v1/repos/a/b/collaborators");
    assert_eq!(user_path(), "/api/v1/user");
    assert_eq!(comment_payload("hi").body, "hi");
    let p = webhook_payload("http://bot/webhook", "s");
    assert_eq!(p.hook_type, "gitea");
    assert_eq!(p.config.content_type, "json");
    assert_eq!(p.events, vec!["issues", "issue_comment", "pull_request"]);
    assert!(p.active);
    assert_eq!(
        http_failure_message("Failed to get issue", 404, Some("Not Found"), "{}"),
        "Failed to get issue: 404 Not Found - {}"
    );
    assert_eq!(
        http_failure_message("X", 599, None, "b"),
        "X: 599 Unknown - b"
    );
    assert!(webhook_delete_succeeded(204));
    assert!(webhook_delete_succeeded(404));
    assert!(webhook_delete_succeeded(200));
    assert!(!webhook_delete_succeeded(500));
    assert!(token_permitted(Some(200)));
    assert!(!token_permitted(Some(403)));
    assert!(!token_permitted(None));
    assert_eq!(
        ForgejoError::UnexpectedStatus {
            status: 500,
            reason: "Internal Server Error".to_string(),
            body: "x".to_string()
        }
        .render(),
        "forgejo api error: 500 Internal Server Error - x"
    );
}

#[test]
fn opencode_api_paths() {
    assert_eq!(session_path("ses_abc"), "/session/ses_abc");
    assert_eq!(prompt_async_path("ses_1"), "/session/ses_1/prompt_async");
    assert_eq!(abort_path("ses_1"), "/session/ses_1/abort");
    let mut cfg = OpencodeApiConfig {
        base_url: None,
        token: None,
        timeout_secs: 30,
    };
    assert_eq!(
        api_base_url(&cfg),
        Err("opencode API base URL is missing from configuration".to_string())
    );
    cfg.base_url = Some("http://127.0.0.1:4096".to_string());
    assert_eq!(api_base_url(&cfg), Ok("http://127.0.0.1:4096".to_string()));
    let p = text_prompt(Some("forgebot".to_string()), None, "hello");
    assert_eq!(
        p.parts,
        vec![PromptPartInput::Text {
            text: "hello".to_string()
        }]
    );
    assert!(prompt_accepted(204));
    assert!(!prompt_accepted(400));
    assert_eq!(
        api_failure_message("GET /global/health", 500, Some("Internal Server Error"), "boom"),
        "GET /global/health failed: 500 Internal Server Error - boom"
    );
}

#[test]
fn added_repositories_get_uuid_ids() {
    let form = AddRepoForm {
        full_name: "alice/repo".to_string(),
        default_branch: "main".to_string(),
        env_loader: "nix".to_string(),
    };
    let r = forgebot::ui::new_repo(&form).unwrap();
    assert_eq!(r.id.len(), 36);
    for (i, c) in r.id.chars().enumerate() {
        if [8, 13, 18, 23].contains(&i) {
            assert_eq!(c, '-');
        } else {
            assert!(c.is_ascii_digit() || ('a'..='f').contains(&c));
        }
    }
    assert_eq!(r.id.chars().nth(14), Some('4'));
    assert!(matches!(r.id.chars().nth(19), Some('8' | '9' | 'a' | 'b')));
    assert_eq!(r.env_loader, "nix");
}

#[test]
fn test_new_rejects_invalid_url() {
    let err = forgebot::session::opencode_api::check_api_base_url("not-a-url")
        .expect_err("invalid base URL should fail");
    assert!(err.contains("failed to parse opencode API base URL"));
    assert!(forgebot::session::opencode_api::check_api_base_url("http://127.0.0.1:4096").is_ok());
}

#[test]
fn test_from_config_requires_base_url() {
    let config = OpencodeApiConfig {
        base_url: None,
        token: None,
        timeout_secs: 30,
    };
    let err = api_base_url(&config).expect_err("missing base URL must fail");
    assert!(err.contains("opencode API base URL is missing from configuration"));
}

#[test]
fn removal_runs_every_stage_in_order_and_aborts_on_failure() {
    let order = [
        RemovalStage::ListSessions,
        RemovalStage::ListWebhooks,
        RemovalStage::DeleteWebhook,
        RemovalStage::RemoveWorktrees,
        RemovalStage::RemoveBareClone,
        RemovalStage::FinalSessionCheck,
        RemovalStage::DeleteRepo,
        RemovalStage::Removed,
    ];
    for pair in order.windows(2) {
        assert_eq!(next_removal_stage(pair[0], true), pair[1]);
    }
    assert_eq!(next_removal_stage(RemovalStage::RemoveWorktrees, false), RemovalStage::Aborted);
    assert_eq!(next_removal_stage(RemovalStage::RemoveBareClone, false), RemovalStage::Aborted);
    assert_eq!(next_removal_stage(RemovalStage::Aborted, true), RemovalStage::Aborted);
    assert_eq!(next_removal_stage(RemovalStage::Removed, false), RemovalStage::Removed);

    let mut stage = RemovalStage::ListSessions;
    for ok in [true, true, true, false, true, true, true] {
        stage = next_removal_stage(stage, ok);
    }
    assert_eq!(stage, RemovalStage::Aborted);
}
