use forgebot::config::{
    Config, DatabaseConfig, ForgejoConfig, OpencodeApiConfig, OpencodeConfig, ServerConfig,
};
use forgebot::db::Session;
use forgebot::envmap::EnvMap;
use forgebot::session::dispatch::{
    acknowledgement_comment, build_session_env, busy_state,
    dispatch_success_plan, env_loader_failure_comment, env_loading_error, external_session_id,
    failure_comment, new_session_with_id, recovery_comment, review_comments_pr,
    session_busy_error, success_comment, WebLink,
};
use forgebot::session::opencode::{
    binary_candidates, blocked_runtime_overrides, build_run_env, captured_session_id,
    find_session_id_by_title, is_protected_runtime_var, merge_path_entries,
    opencode_run_args, opencode_run_result, pick_binary, plan_opencode_run, session_list_args,
    session_list_failure, RunOpencodeParams, RunSettings, SessionListEntry,
};
use forgebot::session::opencode_errors::OpencodeError;
use forgebot::session::{SessionAction, SessionMode, SessionState, SessionTrigger};

fn pairs(p: &[(&str, &str)]) -> Vec<(String, String)> {
    p.iter().map(|(k, v)| (k.to_string(), v.to_string())).collect()
}

fn settings() -> RunSettings {
    RunSettings {
        forgejo_url: "https://git.example.com".to_string(),
        forgejo_token: "tok".to_string(),
        repo_full_name: "acme/demo".to_string(),
        config_dir: "/cfg".to_string(),
        askpass_path: "/tmp/forgebot-git-askpass.sh".to_string(),
    }
}

#[test]
fn run_environment_layers() {
    let process = pairs(&[
        ("PATH", "/usr/bin:/bin"),
        ("HOME", "/var/lib/forgebot"),
        ("KEEP", "1"),
        ("FORGEBOT_REPO", "stale"),
    ]);
    let extras = pairs(&[
        ("PATH", "/nix/store/x/bin:/usr/bin"),
        ("HOME", "/homeless-shelter"),
        ("TMPDIR", "/nix-tmp"),
        ("FOO", "bar"),
        ("FORGEBOT_FORGEJO_TOKEN", "from-loader"),
    ]);
    let env = build_run_env(&process, &extras, &settings());
    assert_eq!(env.get("PATH").as_deref(), Some("/nix/store/x/bin:/usr/bin:/bin"));
    assert_eq!(env.get("HOME").as_deref(), Some("/var/lib/forgebot"));
    assert_eq!(env.get("TMPDIR").as_deref(), Some("/tmp"));
    assert_eq!(env.get("TMP").as_deref(), Some("/tmp"));
    assert_eq!(env.get("FOO").as_deref(), Some("bar"));
    assert_eq!(env.get("KEEP").as_deref(), Some("1"));
    assert_eq!(env.get("FORGEBOT_REPO").as_deref(), Some("acme/demo"));
    assert_eq!(env.get("FORGEBOT_FORGEJO_TOKEN").as_deref(), Some("tok"));
    assert_eq!(env.get("FORGEBOT_FORGEJO_URL").as_deref(), Some("https://git.example.com"));
    assert_eq!(env.get("OPENCODE_CONFIG_DIR").as_deref(), Some("/cfg"));
    assert_eq!(env.get("GIT_TERMINAL_PROMPT").as_deref(), Some("0"));
    assert_eq!(
        env.get("GIT_ASKPASS").as_deref(),
        Some("/tmp/forgebot-git-askpass.sh")
    );
    assert_eq!(
        env.get("SSH_ASKPASS").as_deref(),
        Some("/tmp/forgebot-git-askpass.sh")
    );
    assert!(!env.contains_key("XDG_DATA_HOME"));
    assert_eq!(
        blocked_runtime_overrides(&extras),
        vec!["HOME=/homeless-shelter", "TMPDIR=/nix-tmp"]
    );
}

#[test]
fn run_environment_without_any_path() {
    let env = build_run_env(&pairs(&[("TMP", "/t")]), &pairs(&[]), &settings());
    assert!(!env.contains_key("PATH"));
    assert_eq!(env.get("TMP").as_deref(), Some("/t"));
    assert_eq!(env.get("TEMP").as_deref(), Some("/tmp"));
}

#[test]
fn protected_variables() {
    for name in [
        "HOME",
        "XDG_DATA_HOME",
        "XDG_CONFIG_HOME",
        "XDG_CACHE_HOME",
        "BUN_INSTALL_CACHE_DIR",
        "TMPDIR",
        "TMP",
        "TEMP",
        "NIX_ENFORCE_PURITY",
        "OPENCODE_CONFIG_DIR",
    ] {
        assert!(is_protected_runtime_var(name));
    }
    assert!(!is_protected_runtime_var("PATH"));
    assert!(!is_protected_runtime_var("home"));
}

#[test]
fn path_entries_merge_without_repeats() {
    assert_eq!(
        merge_path_entries("/a::/b:/a", "/b:/c:"),
        vec!["/a", "/b", "/c"]
    );
    assert!(merge_path_entries("", "").is_empty());
}

#[test]
fn run_arguments() {
    assert_eq!(
        opencode_run_args("forgebot", "m/x", "ses_1_a_b", None, "/w", "do it"),
        vec![
            "run", "--agent", "forgebot", "--model", "m/x", "--title", "ses_1_a_b", "--dir", "/w",
            "do it"
        ]
    );
    assert_eq!(
        opencode_run_args("forgebot", "m/x", "t", Some("oc_9"), "/w", "p"),
        vec![
            "run", "--agent", "forgebot", "--model", "m/x", "--title", "t", "--session", "oc_9",
            "--dir", "/w", "p"
        ]
    );
    assert_eq!(
        session_list_args(),
        vec!["session", "list", "--format", "json", "-n", "5"]
    );
}

fn config() -> Config {
    Config {
        server: ServerConfig {
            host: "127.0.0.1".to_string(),
            port: 8765,
            webhook_secret: "s".to_string(),
            forgebot_host: "http://bot".to_string(),
        },
        forgejo: ForgejoConfig {
            url: "https://git.example.com".to_string(),
            token: "tok".to_string(),
            bot_username: "forgebot".to_string(),
        },
        opencode: OpencodeConfig {
            binary: "opencode".to_string(),
            worktree_base: "/wt".to_string(),
            config_dir: "/cfg".to_string(),
            git_binary: "git".to_string(),
            model: "m/x".to_string(),
            web_host: Some("http://web:4096/".to_string()),
            api: OpencodeApiConfig {
                base_url: None,
                token: None,
                timeout_secs: 30,
            },
        },
        database: DatabaseConfig {
            path: "/db".to_string(),
        },
    }
}

#[test]
fn a_planned_run() {
    let config = config();
    let params = RunOpencodeParams {
        config: &config,
        repo_full_name: "acme/demo",
        derived_session_id: "ses_1_acme_demo",
        external_opencode_session_id: None,
        agent_mode: "forgebot",
        model: "m/x",
        worktree_path: "/wt/_worktrees/acme_demo/1",
        prompt: "p",
        env_extras: pairs(&[("FORGEBOT_ISSUE_ID", "1")]),
    };
    let launch = plan_opencode_run(&params, &pairs(&[("PATH", "/bin")]), "/tmp/ask.sh");
    assert_eq!(launch.env.get("FORGEBOT_ISSUE_ID").as_deref(), Some("1"));
    assert_eq!(launch.env.get("GIT_ASKPASS").as_deref(), Some("/tmp/ask.sh"));
    assert_eq!(launch.args[0], "run");
    assert!(launch.blocked_overrides.is_empty());
}

#[test]
fn finding_the_binary() {
    assert_eq!(binary_candidates("/opt/opencode", "/bin"), None);
    assert_eq!(
        binary_candidates("opencode", "/usr/bin:/opt/bin/:"),
        Some(vec![
            "/usr/bin/opencode".to_string(),
            "/opt/bin/opencode".to_string(),
            "opencode".to_string()
        ])
    );
    let candidates = vec!["/a/opencode".to_string(), "/b/opencode".to_string()];
    assert_eq!(pick_binary("opencode", &candidates, &vec![false, true]), "/b/opencode");
    assert_eq!(pick_binary("opencode", &candidates, &vec![false, false]), "opencode");
}

#[test]
fn run_results() {
    assert_eq!(
        opencode_run_result(true, Some(0), "", "", Some("oc_1".to_string()), None),
        Ok(Some("oc_1".to_string()))
    );
    assert_eq!(
        opencode_run_result(true, Some(0), "", "", Some("oc_1".to_string()), Some("oc_0")),
        Ok(Some("oc_1".to_string()))
    );
    assert_eq!(
        opencode_run_result(true, Some(0), "", "", None, Some("oc_0")),
        Ok(Some("oc_0".to_string()))
    );
    assert_eq!(opencode_run_result(true, Some(0), "", "", None, None), Ok(None));
    let e = opencode_run_result(false, None, "out", "err", None, Some("oc_0")).unwrap_err();
    assert_eq!(
        e.render(),
        "opencode process failed with exit code -1: stdout=out, stderr=err"
    );
    let e = opencode_run_result(false, Some(2), "", "x", None, None).unwrap_err();
    assert!(matches!(e, OpencodeError::ProcessFailed { exit_code: 2, .. }));
}

#[test]
fn session_listing() {
    let out = r#"[{"id":"oc_1","title":"other"},{"title":"ses_1_a_b"},{"id":"oc_2","title":"ses_1_a_b"},{"id":"oc_3","title":"ses_1_a_b"}]"#;
    assert_eq!(
        captured_session_id(out, "ses_1_a_b"),
        Ok(Some("oc_2".to_string()))
    );
    assert_eq!(captured_session_id(out, "none"), Ok(None));
    assert_eq!(captured_session_id("{\"a\":1}", "x"), Ok(None));
    assert!(matches!(
        captured_session_id("not json", "x"),
        Err(OpencodeError::SessionListParse { .. })
    ));
    let entries = vec![SessionListEntry {
        title: Some("t".to_string()),
        id: Some("i".to_string()),
    }];
    assert_eq!(find_session_id_by_title(&entries, "t"), Some("i".to_string()));
    assert_eq!(
        session_list_failure("boom").render(),
        "opencode session list failed: boom"
    );
}

fn record(opencode_session_id: &str, state: SessionState) -> Session {
    Session {
        id: "rec".to_string(),
        repo_full_name: "acme/demo".to_string(),
        issue_id: 1,
        pr_id: None,
        opencode_session_id: opencode_session_id.to_string(),
        worktree_path: "/a".to_string(),
        state,
        mode: SessionMode::Collab,
        created_at: "t".to_string(),
        updated_at: "t".to_string(),
    }
}

fn trigger(action: SessionAction, pr: Option<u64>) -> SessionTrigger {
    SessionTrigger {
        repo_full_name: "acme/demo".to_string(),
        issue_id: 1,
        pr_id: pr,
        action,
    }
}

#[test]
fn busy_sessions_refuse_triggers() {
    assert_eq!(busy_state(&None), None);
    assert_eq!(
        busy_state(&Some(record("ses_1", SessionState::Building))),
        Some(SessionState::Building)
    );
    assert_eq!(busy_state(&Some(record("ses_1", SessionState::Idle))), None);
    assert_eq!(
        session_busy_error(&record("ses_1", SessionState::Revising)).render(),
        "session rec is busy in state revising"
    );
}

#[test]
fn issue_comments_posted_by_a_dispatch() {
    assert_eq!(
        acknowledgement_comment(SessionAction::Plan, "ses_1"),
        "🤖 forgebot is joining the discussion on this issue.\n\nSession: `ses_1`"
    );
    assert_eq!(
        acknowledgement_comment(SessionAction::Revision, "ses_1"),
        "🤖 forgebot is addressing review comments. Revising...\n\nSession: `ses_1`"
    );
    assert_eq!(
        success_comment(SessionAction::Build),
        "✅ Implementation complete! A pull request has been created."
    );
    assert_eq!(
        failure_comment("boom"),
        "❌ Task failed. Error: boom\n\nSession set to error state. Please re-trigger when ready."
    );
    assert!(env_loader_failure_comment("nix", "bad").starts_with("❌ forgebot: env loader 'nix' failed"));
    assert_eq!(
        env_loading_error("acme/demo", "bad"),
        "environment loading failed for acme/demo: bad"
    );
    assert_eq!(
        recovery_comment(),
        "⚠️ forgebot restarted mid-run. The session has been reset. Please retry your command."
    );
}

#[test]
fn session_environment_and_records() {
    let env = build_session_env(&trigger(SessionAction::Revision, Some(9)), &pairs(&[("A", "1")]));
    let m = EnvMap::from_pairs(env);
    assert_eq!(m.get("FORGEBOT_ISSUE_ID").as_deref(), Some("1"));
    assert_eq!(m.get("FORGEBOT_PR_ID").as_deref(), Some("9"));
    assert_eq!(m.get("A").as_deref(), Some("1"));
    let env = build_session_env(&trigger(SessionAction::Plan, None), &pairs(&[]));
    assert!(!EnvMap::from_pairs(env).contains_key("FORGEBOT_PR_ID"));

    assert_eq!(review_comments_pr(&trigger(SessionAction::Revision, Some(9))), Some(9));
    assert_eq!(review_comments_pr(&trigger(SessionAction::Plan, Some(9))), None);

    assert_eq!(external_session_id(&record("ses_1_a_b", SessionState::Idle)), None);
    assert_eq!(
        external_session_id(&record("oc_123", SessionState::Idle)),
        Some("oc_123")
    );

    let n = new_session_with_id(
        "id".to_string(),
        &trigger(SessionAction::Build, Some(4)),
        "ses_1_acme_demo",
        "/w",
    );
    assert_eq!(n.state, "idle");
    assert_eq!(n.mode, "build");
    assert_eq!(n.pr_id, Some(4));
}

#[test]
fn web_link_after_success() {
    let plan = dispatch_success_plan(
        SessionAction::Plan,
        &record("ses_1_acme_demo", SessionState::Planning),
        Some("oc_7".to_string()),
        Some("http://web:4096/"),
    );
    assert_eq!(plan.new_opencode_session_id.as_deref(), Some("oc_7"));
    match plan.web_link {
        WebLink::Post { url, comment } => {
            assert_eq!(url, "http://web:4096/L2E/session/oc_7");
            assert_eq!(comment, format!("🔗 Opencode session Web UI: [{}]({})", url, url));
        }
        other => panic!("unexpected {:?}", other),
    }
    let plan = dispatch_success_plan(
        SessionAction::Plan,
        &record("oc_old", SessionState::Planning),
        Some("oc_7".to_string()),
        Some("http://web"),
    );
    assert_eq!(plan.web_link, WebLink::SkipExternalSession);
    let plan = dispatch_success_plan(
        SessionAction::Plan,
        &record("ses_1", SessionState::Planning),
        None,
        Some("http://web"),
    );
    assert_eq!(plan.web_link, WebLink::SkipMissingSessionId);
    let plan = dispatch_success_plan(
        SessionAction::Revision,
        &record("ses_1", SessionState::Planning),
        Some("x".to_string()),
        None,
    );
    assert_eq!(plan.web_link, WebLink::SkipNoWebHost);
    assert_eq!(plan.success_comment, "✅ Review comments addressed and changes pushed.");
}

#[test]
fn fresh_records_get_uuid_ids() {
    let a = forgebot::session::dispatch::new_session_record(
        &trigger(SessionAction::Plan, None),
        "ses_1_acme_demo",
        "/w",
    );
    let b = forgebot::session::dispatch::new_session_record(
        &trigger(SessionAction::Plan, None),
        "ses_1_acme_demo",
        "/w",
    );
    assert_eq!(a.id.len(), 36);
    for (i, c) in a.id.chars().enumerate() {
        if [8, 13, 18, 23].contains(&i) {
            assert_eq!(c, '-');
        } else {
            assert!(c.is_ascii_digit() || ('a'..='f').contains(&c));
        }
    }
    assert_eq!(a.id.chars().nth(14), Some('4'));
    assert!(matches!(a.id.chars().nth(19), Some('8' | '9' | 'a' | 'b')));
    assert_ne!(a.id, b.id);
    assert_eq!(a.opencode_session_id, "ses_1_acme_demo");
    assert_eq!(a.mode, "collab");
}
