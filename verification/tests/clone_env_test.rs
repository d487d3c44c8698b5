use forgebot::config::{
    Config, DatabaseConfig, ForgejoConfig, OpencodeApiConfig, OpencodeConfig, ServerConfig,
};
use forgebot::session::clone::{
    check_clone_name, clone_args, clone_parent_dir, clone_run_completion, clone_url,
    existing_clone, existing_clone_completion, status_update_error, CloneRun, ExistingClone,
    CLONE_TIMEOUT_SECS,
};
use forgebot::session::clone_errors::CloneError;
use forgebot::session::env_loader::{
    exported_nix_vars, load_env_none, loader_command, loader_output, nix_parse_error,
    parse_direnv_json, parse_nix_json, select_env_loader, CommandRun, LoaderKind, NixEnvOutput, NixValue,
    NixVariable,
};
use forgebot::session::env_loader_errors::EnvLoaderError;
use forgebot::session::worktree::bare_clone_path;
use forgebot::session::CloneStatus;

fn test_config() -> Config {
    Config {
        server: ServerConfig {
            host: "127.0.0.1".to_string(),
            port: 8765,
            webhook_secret: "test_secret".to_string(),
            forgebot_host: "http://localhost:8765".to_string(),
        },
        forgejo: ForgejoConfig {
            url: "git.example.com".to_string(),
            token: "test_token".to_string(),
            bot_username: "forgebot".to_string(),
        },
        opencode: OpencodeConfig {
            binary: "opencode".to_string(),
            worktree_base: "/tmp/forgebot-test-worktrees".to_string(),
            config_dir: "/tmp/forgebot-test-config".to_string(),
            git_binary: "git".to_string(),
            model: "opencode/kimi-k2.5".to_string(),
            web_host: None,
            api: OpencodeApiConfig {
                base_url: None,
                token: None,
                timeout_secs: 30,
            },
        },
        database: DatabaseConfig {
            path: "/tmp/forgebot-test.db".to_string(),
        },
    }
}

#[test]
fn test_clone_url_construction() {
    let config = test_config();
    assert_eq!(
        clone_url(&config, "alice/myrepo"),
        "https://git.example.com/alice/myrepo.git"
    );
}

#[test]
fn test_clone_url_with_special_characters() {
    let config = test_config();
    assert_eq!(
        clone_url(&config, "my-org/repo_name-v1"),
        "https://git.example.com/my-org/repo_name-v1.git"
    );
}

#[test]
fn test_bare_clone_path_has_valid_parent() {
    let config = test_config();
    let bare_path = std::path::PathBuf::from(bare_clone_path(&config.opencode, "alice/myrepo"));
    assert!(bare_path.parent().is_some());
    let parent = bare_path.parent().unwrap();
    assert!(parent.starts_with(&config.opencode.worktree_base));
    assert_eq!(
        std::path::PathBuf::from(clone_parent_dir(&config)),
        parent.to_path_buf()
    );
}

#[test]
fn test_timeout_constant_is_10_minutes() {
    let timeout = std::time::Duration::from_secs(CLONE_TIMEOUT_SECS);
    assert_eq!(timeout.as_secs(), 600);
}

#[test]
fn clone_steps() {
    assert!(check_clone_name("a/b").is_ok());
    assert!(matches!(
        check_clone_name("a b"),
        Err(CloneError::InvalidRepoName(_))
    ));
    assert_eq!(
        clone_args("https://x/a/b.git", "/wt/a_b"),
        vec!["clone", "--bare", "https://x/a/b.git", "/wt/a_b"]
    );
    assert_eq!(
        status_update_error("a/b", CloneStatus::Cloning, "locked").render(),
        "Failed to set clone status to 'cloning' for a/b: locked"
    );
    assert_eq!(existing_clone(false, false), ExistingClone::Absent);
    assert_eq!(existing_clone(true, true), ExistingClone::Complete);
    assert_eq!(existing_clone(true, false), ExistingClone::Incomplete);
    assert!(existing_clone_completion("a/b", ExistingClone::Absent).is_none());
    let c = existing_clone_completion("a/b", ExistingClone::Complete).unwrap();
    assert_eq!(c.status, CloneStatus::Ready);
    assert!(c.result.is_ok());
    let c = existing_clone_completion("a/b", ExistingClone::Incomplete).unwrap();
    assert_eq!(c.status, CloneStatus::Failed);
    assert_eq!(
        c.error_message.as_deref(),
        Some("Clone directory already exists but appears incomplete (another clone may be in progress)")
    );
    assert_eq!(
        c.result.unwrap_err().render(),
        "Clone directory already exists for a/b but appears incomplete"
    );
}

#[test]
fn clone_outcomes() {
    let c = clone_run_completion(
        "a/b",
        CloneRun::Finished {
            success: true,
            stderr: String::new(),
        },
    );
    assert_eq!((c.status, c.error_message.is_none(), c.result.is_ok()), (CloneStatus::Ready, true, true));
    let c = clone_run_completion(
        "a/b",
        CloneRun::Finished {
            success: false,
            stderr: "denied".to_string(),
        },
    );
    assert_eq!(c.status, CloneStatus::Failed);
    assert_eq!(c.error_message.as_deref(), Some("git clone failed: denied"));
    assert_eq!(
        c.result.unwrap_err().render(),
        "Clone failed for a/b: git clone failed: denied"
    );
    let c = clone_run_completion("a/b", CloneRun::ExecFailed("no git".to_string()));
    assert_eq!(c.error_message.as_deref(), Some("Failed to execute git clone: no git"));
    let c = clone_run_completion("a/b", CloneRun::TimedOut);
    assert_eq!(
        c.error_message.as_deref(),
        Some("Clone operation timed out after 10 minutes")
    );
    assert_eq!(
        c.result.unwrap_err().render(),
        "Clone timeout for a/b after 600 seconds"
    );
}

#[test]
fn test_load_env_none() {
    let result = load_env_none();
    assert!(result.is_empty());
}

#[test]
fn test_load_env_dispatcher_invalid_type() {
    let result = select_env_loader("invalid");
    assert!(result.is_err());
    let err = result.unwrap_err().render();
    assert!(err.contains("Invalid env_loader type"));
}

#[test]
fn loaders_and_commands() {
    assert_eq!(select_env_loader("none"), Ok(LoaderKind::NoLoader));
    assert_eq!(select_env_loader("direnv"), Ok(LoaderKind::Direnv));
    assert_eq!(select_env_loader("nix"), Ok(LoaderKind::Nix));
    assert!(loader_command(LoaderKind::NoLoader).is_none());
    let c = loader_command(LoaderKind::Nix).unwrap();
    assert_eq!(c.program, "nix");
    assert_eq!(c.args, vec!["print-dev-env", "--json"]);
    assert_eq!(c.timeout_secs, 60);
    let d = loader_command(LoaderKind::Direnv).unwrap();
    assert_eq!((d.program.as_str(), d.timeout_secs), ("direnv", 30));

    assert_eq!(
        loader_output(
            &d,
            CommandRun::Finished {
                success: true,
                exit_code: Some(0),
                stdout: "{}".to_string(),
                stderr: String::new()
            }
        ),
        Ok("{}".to_string())
    );
    let e = loader_output(
        &d,
        CommandRun::Finished {
            success: false,
            exit_code: Some(1),
            stdout: String::new(),
            stderr: "blocked".to_string(),
        },
    )
    .unwrap_err();
    assert_eq!(
        e.render(),
        "direnv export json failed with exit code Some(1): blocked"
    );
    let e = loader_output(&c, CommandRun::TimedOut).unwrap_err();
    assert_eq!(e.render(), "command timed out after 60 seconds");
    assert!(e.render().contains("timed out"));
    let e = loader_output(&c, CommandRun::ExecFailed("not found".to_string())).unwrap_err();
    assert_eq!(e.render(), "failed to execute 'subprocess': not found");
    assert_eq!(
        EnvLoaderError::CommandFailed {
            command: "x".to_string(),
            exit_code: None,
            stderr: "e".to_string()
        }
        .render(),
        "x failed with exit code None: e"
    );
}

#[test]
fn test_parse_direnv_json_empty() {
    let result = parse_direnv_json("").unwrap();
    assert!(result.is_empty());
}

#[test]
fn test_parse_direnv_json_whitespace_only() {
    let result = parse_direnv_json("   \n\t  ").unwrap();
    assert!(result.is_empty());
}

fn get<'a>(v: &'a [(String, String)], k: &str) -> Option<&'a String> {
    v.iter().find(|(n, _)| n == k).map(|(_, val)| val)
}

#[test]
fn test_parse_direnv_json_simple_vars() {
    let json = r#"{"PATH": "/usr/local/bin:/usr/bin", "FOO": "bar"}"#;
    let result = parse_direnv_json(json).unwrap();
    assert_eq!(result.len(), 2);
    assert_eq!(
        get(&result, "PATH"),
        Some(&"/usr/local/bin:/usr/bin".to_string())
    );
    assert_eq!(get(&result, "FOO"), Some(&"bar".to_string()));
}

#[test]
fn test_parse_direnv_json_special_chars() {
    let json = r#"{"VAR": "value with spaces", "QUOTE": "value \"quoted\" here"}"#;
    let result = parse_direnv_json(json).unwrap();
    assert_eq!(result.len(), 2);
    assert_eq!(get(&result, "VAR"), Some(&"value with spaces".to_string()));
    assert_eq!(
        get(&result, "QUOTE"),
        Some(&"value \"quoted\" here".to_string())
    );
}

#[test]
fn test_parse_direnv_json_invalid_json() {
    let json = "not valid json";
    let result = parse_direnv_json(json);
    assert!(result.is_err());
    let err = result.unwrap_err().render();
    assert!(err.contains("failed to parse direnv JSON"));
}

#[test]
fn test_parse_direnv_json_non_object() {
    let json = r#"["PATH", "/usr/bin"]"#;
    let result = parse_direnv_json(json);
    assert!(result.is_err());
}

#[test]
fn test_parse_direnv_json_non_string_values() {
    let json = r#"{"PATH": "/usr/bin", "NUM": 123}"#;
    let result = parse_direnv_json(json);
    assert!(result.is_err());
}

#[test]
fn test_parse_direnv_json_realistic() {
    let json = r#"{
        "PATH": "/home/user/project/.direnv/bin:/usr/local/bin:/usr/bin:/bin",
        "DIRENV_DIR": "-/home/user/project",
        "DIRENV_WATCHES": "eJx...base64...",
        "VIRTUAL_ENV": "/home/user/project/.venv",
        "PYTHONPATH": "/home/user/project/src"
    }"#;
    let result = parse_direnv_json(json).unwrap();
    assert_eq!(result.len(), 5);
    assert!(get(&result, "VIRTUAL_ENV").is_some());
    assert!(get(&result, "PYTHONPATH").is_some());
}

fn var(t: &str, v: Option<NixValue>) -> NixVariable {
    NixVariable {
        var_type: t.to_string(),
        value: v,
    }
}

#[test]
fn nix_keeps_exported_strings() {
    let output = NixEnvOutput {
        variables: vec![
            ("PATH".to_string(), var("exported", Some(NixValue::String("/usr/bin".to_string())))),
            ("ARRAY_VAR".to_string(), var("exported", Some(NixValue::Other))),
            ("MISSING".to_string(), var("exported", None)),
            ("buildInputs".to_string(), var("array", Some(NixValue::Other))),
            ("shellHook".to_string(), var("derivation", Some(NixValue::String("/nix".to_string())))),
            ("name".to_string(), var("exported", Some(NixValue::String("my-env".to_string())))),
        ],
    };
    let result = exported_nix_vars(&output);
    assert_eq!(
        result,
        vec![
            ("PATH".to_string(), "/usr/bin".to_string()),
            ("name".to_string(), "my-env".to_string())
        ]
    );
    assert!(exported_nix_vars(&NixEnvOutput { variables: vec![] }).is_empty());
    assert!(nix_parse_error("x", "expected value")
        .render()
        .contains("failed to parse nix JSON"));
}

fn has(vars: &[(String, String)], key: &str) -> bool {
    vars.iter().any(|(k, _)| k == key)
}

#[test]
fn test_parse_nix_json_empty() {
    let json = r#"{"variables": {}}"#;
    let result = parse_nix_json(json).unwrap();
    assert!(result.is_empty());
}

#[test]
fn test_parse_nix_json_exported_vars() {
    let json = r#"{
        "variables": {
            "PATH": {"type": "exported", "value": "/nix/store/.../bin:/usr/bin"},
            "PKG_CONFIG_PATH": {"type": "exported", "value": "/nix/store/.../lib/pkgconfig"},
            "EDITOR": {"type": "exported", "value": "vim"}
        }
    }"#;
    let result = parse_nix_json(json).unwrap();
    assert_eq!(result.len(), 3);
    assert!(has(&result, "PATH"));
    assert!(has(&result, "PKG_CONFIG_PATH"));
    assert!(has(&result, "EDITOR"));
}

#[test]
fn test_parse_nix_json_filters_non_exported() {
    let json = r#"{
        "variables": {
            "PATH": {"type": "exported", "value": "/usr/bin"},
            "buildInputs": {"type": "array", "value": ["/nix/store/abc"]},
            "mkDerivation": {"type": "function", "value": null},
            "nativeBuildInputs": {"type": "array", "value": []}
        }
    }"#;
    let result = parse_nix_json(json).unwrap();
    assert_eq!(result.len(), 1);
    assert_eq!(get(&result, "PATH"), Some(&"/usr/bin".to_string()));
    assert!(!has(&result, "buildInputs"));
    assert!(!has(&result, "mkDerivation"));
    assert!(!has(&result, "nativeBuildInputs"));
}

#[test]
fn test_parse_nix_json_filters_non_string_values() {
    let json = r#"{
        "variables": {
            "PATH": {"type": "exported", "value": "/usr/bin"},
            "ARRAY_VAR": {"type": "exported", "value": ["a", "b"]},
            "NULL_VAR": {"type": "exported", "value": null},
            "NUMBER_VAR": {"type": "exported", "value": 42},
            "BOOL_VAR": {"type": "exported", "value": true}
        }
    }"#;
    let result = parse_nix_json(json).unwrap();
    assert_eq!(result.len(), 1);
    assert_eq!(get(&result, "PATH"), Some(&"/usr/bin".to_string()));
    assert!(!has(&result, "ARRAY_VAR"));
    assert!(!has(&result, "NULL_VAR"));
    assert!(!has(&result, "NUMBER_VAR"));
    assert!(!has(&result, "BOOL_VAR"));
}

#[test]
fn test_parse_nix_json_missing_value() {
    let json = r#"{
        "variables": {
            "PATH": {"type": "exported", "value": "/usr/bin"},
            "MISSING": {"type": "exported"}
        }
    }"#;
    let result = parse_nix_json(json).unwrap();
    assert_eq!(result.len(), 1);
    assert!(has(&result, "PATH"));
    assert!(!has(&result, "MISSING"));
}

#[test]
fn test_parse_nix_json_invalid_json() {
    let json = "not valid json";
    let result = parse_nix_json(json);
    assert!(result.is_err());
    let err = result.unwrap_err().render();
    assert!(err.contains("failed to parse nix JSON"));
}

#[test]
fn test_parse_nix_json_missing_variables() {
    let json = r#"{"someOtherField": {}}"#;
    let result = parse_nix_json(json);
    assert!(result.is_err());
}

#[test]
fn test_parse_nix_json_realistic() {
    let json = r#"{
        "variables": {
            "PATH": {"type": "exported", "value": "/nix/store/abc123-bash/bin:/usr/bin"},
            "XDG_CONFIG_DIRS": {"type": "exported", "value": "/nix/store/xyz789/etc/xdg"},
            "buildInputs": {"type": "array", "value": ["/nix/store/pkg1", "/nix/store/pkg2"]},
            "builder": {"type": "function", "value": null},
            "name": {"type": "exported", "value": "my-env"},
            "system": {"type": "exported", "value": "x86_64-linux"},
            "nativeBuildInputs": {"type": "array", "value": ["/nix/store/tool1"]},
            "shellHook": {"type": "derivation", "value": "/nix/store/123-hook"},
            "passthru": {"type": "attribute set", "value": null}
        }
    }"#;
    let result = parse_nix_json(json).unwrap();
    assert_eq!(result.len(), 4);
    assert!(has(&result, "PATH"));
    assert!(has(&result, "XDG_CONFIG_DIRS"));
    assert!(has(&result, "name"));
    assert!(has(&result, "system"));
    assert!(!has(&result, "buildInputs"));
    assert!(!has(&result, "builder"));
    assert!(!has(&result, "nativeBuildInputs"));
    assert!(!has(&result, "shellHook"));
    assert!(!has(&result, "passthru"));
}

#[test]
fn parse_nix_json_refuses_untyped_variables() {
    let err = parse_nix_json(r#"{"variables": {"X": {"value": "1"}}}"#).unwrap_err();
    assert_eq!(
        err.render(),
        "failed to parse nix JSON output '{\"variables\": {\"X\": {\"value\": \"1\"}}}': missing field `type`"
    );
    let err = parse_nix_json("  {\"someOtherField\": {}}\n").unwrap_err();
    assert_eq!(
        err.render(),
        "failed to parse nix JSON output '{\"someOtherField\": {}}': missing field `variables`"
    );
}
