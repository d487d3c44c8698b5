use forgebot::config::{
    askpass_script, askpass_script_path, env_var_optional, env_var_parse_u64_with_default,
    env_var_parse_with_default, env_var_path_with_default, env_var_with_default,
    require_env_var, resolve_askpass_path, validate_http_url, webhook_url, Config, ConfigError,
    DatabaseConfig, EnvSnapshot, ForgejoConfig, OpencodeApiConfig, OpencodeConfig, ServerConfig,
};

fn env(pairs: &[(&str, &str)]) -> EnvSnapshot {
    EnvSnapshot {
        vars: pairs
            .iter()
            .map(|(k, v)| (k.to_string(), v.to_string()))
            .collect(),
    }
}

#[test]
fn test_env_var_with_default_uses_env_when_set() {
    let result = env_var_with_default(
        &env(&[]),
        "FORGEBOT_TEST_NONEXISTENT_VAR_XYZ123",
        "default_value",
    );
    assert_eq!(result, "default_value");
}

#[test]
fn test_env_var_parse_with_default_invalid_parsing() {
    let result =
        env_var_parse_with_default(&env(&[]), "FORGEBOT_TEST_NONEXISTENT_PORT_XYZ123", 8080)
            .unwrap();
    assert_eq!(result, 8080);
}

#[test]
fn test_env_var_path_with_default() {
    let result = env_var_path_with_default(
        &env(&[]),
        "FORGEBOT_TEST_NONEXISTENT_PATH_XYZ123",
        "/default/path",
    );
    assert_eq!(
        std::path::PathBuf::from(result),
        std::path::PathBuf::from("/default/path")
    );
}

#[test]
fn test_validate_http_url() {
    let normalized = validate_http_url("FORGEBOT_TEST_URL", "https://example.com/")
        .expect("https url should parse");
    assert_eq!(normalized, "https://example.com");
    assert!(validate_http_url("FORGEBOT_TEST_URL", "ftp://example.com").is_err());
}

fn sample_config(forgebot_host: &str) -> Config {
    Config {
        server: ServerConfig {
            host: "127.0.0.1".to_string(),
            port: 8765,
            webhook_secret: "secret".to_string(),
            forgebot_host: forgebot_host.to_string(),
        },
        forgejo: ForgejoConfig {
            url: "https://forgejo.example.com".to_string(),
            token: "token".to_string(),
            bot_username: "forgebot".to_string(),
        },
        opencode: OpencodeConfig {
            binary: "opencode".to_string(),
            worktree_base: "/tmp/worktrees".to_string(),
            config_dir: "/tmp/config".to_string(),
            git_binary: "git".to_string(),
            model: "opencode/kimi-k2.5".to_string(),
            web_host: None,
            api: OpencodeApiConfig {
                base_url: None,
                token: None,
                timeout_secs: 30,
            },
        },
        database: DatabaseConfig {
            path: "/tmp/test.db".to_string(),
        },
    }
}

#[test]
fn config_test_webhook_url() {
    let config = sample_config("http://example.com");
    assert_eq!(webhook_url(&config), "http://example.com/webhook");
}

#[test]
fn test_resolve_askpass_path_default() {
    assert_eq!(
        std::path::PathBuf::from(resolve_askpass_path(None)),
        std::path::PathBuf::from("/var/lib/forgebot/git-askpass.sh")
    );
}

#[test]
fn test_resolve_askpass_path_custom() {
    assert_eq!(
        std::path::PathBuf::from(resolve_askpass_path(Some("/tmp/custom-askpass.sh".to_string()))),
        std::path::PathBuf::from("/tmp/custom-askpass.sh")
    );
}

#[test]
fn blank_askpass_path_falls_back_to_default() {
    assert_eq!(
        resolve_askpass_path(Some("   ".to_string())),
        "/var/lib/forgebot/git-askpass.sh"
    );
    let e = env(&[("FORGEBOT_ASKPASS_PATH", "/opt/ask.sh")]);
    assert_eq!(askpass_script_path(&e), "/opt/ask.sh");
    assert_eq!(askpass_script_path(&env(&[])), "/var/lib/forgebot/git-askpass.sh");
}

#[test]
fn askpass_script_names_both_variables() {
    let content = askpass_script();
    assert!(content.contains("FORGEBOT_FORGEJO_TOKEN"));
    assert!(content.contains("FORGEBOT_FORGEJO_BOT_USERNAME"));
    assert!(content.starts_with("#!/bin/sh\n"));
}

#[test]
fn required_variables_distinguish_missing_and_blank() {
    let e = env(&[("A", "  "), ("B", "value")]);
    assert_eq!(
        require_env_var(&e, "A"),
        Err(ConfigError::EmptyVar("A".to_string()))
    );
    assert_eq!(
        require_env_var(&e, "C"),
        Err(ConfigError::MissingVar("C".to_string()))
    );
    assert_eq!(require_env_var(&e, "B"), Ok("value".to_string()));
    assert_eq!(env_var_optional(&e, "A"), None);
    assert_eq!(env_var_with_default(&e, "A", "d"), "d");
}

#[test]
fn integers_parse_or_fall_back() {
    let e = env(&[("PORT", "9000"), ("BAD", "90x"), ("BIG", "70000"), ("T", "45")]);
    assert_eq!(env_var_parse_with_default(&e, "PORT", 1), Ok(9000));
    assert_eq!(env_var_parse_with_default(&e, "BAD", 1), Ok(1));
    assert_eq!(env_var_parse_with_default(&e, "BIG", 1), Ok(1));
    assert_eq!(env_var_parse_u64_with_default(&e, "T", 30), Ok(45));
    assert_eq!(env_var_parse_u64_with_default(&e, "NONE", 30), Ok(30));
}

#[test]
fn urls_are_trimmed_and_checked() {
    assert_eq!(
        validate_http_url("X", "  http://host:1//  ").unwrap(),
        "http://host:1"
    );
    assert!(matches!(
        validate_http_url("X", "not a url"),
        Err(ConfigError::InvalidUrl { .. })
    ));
    assert!(matches!(
        validate_http_url("X", "ftp://example.com"),
        Err(ConfigError::InvalidScheme { .. })
    ));
}

#[test]
fn configuration_from_environment() {
    let e = env(&[
        ("FORGEBOT_WEBHOOK_SECRET", "s3"),
        ("FORGEBOT_FORGEJO_URL", "git.example.com"),
        ("FORGEBOT_FORGEJO_TOKEN", "tok"),
        ("FORGEBOT_SERVER_PORT", "9000"),
    ]);
    let c = Config::from_env(&e).expect("configuration");
    assert_eq!(c.server.host, "127.0.0.1");
    assert_eq!(c.server.port, 9000);
    assert_eq!(c.server.forgebot_host, "http://127.0.0.1:9000");
    assert_eq!(c.forgejo.bot_username, "forgebot");
    assert_eq!(c.opencode.api.base_url.as_deref(), Some("http://127.0.0.1:4096"));
    assert_eq!(c.opencode.web_host, None);
    assert_eq!(c.opencode.api.timeout_secs, 30);
    assert_eq!(c.opencode.worktree_base, "/var/lib/forgebot/worktrees");
    assert_eq!(c.database.path, "/var/lib/forgebot/forgebot.db");

    let missing = env(&[("FORGEBOT_WEBHOOK_SECRET", "s3")]);
    assert!(matches!(
        Config::from_env(&missing),
        Err(ConfigError::MissingVar(_))
    ));
}

#[test]
fn config_errors_render_with_prefix() {
    assert!(ConfigError::MissingVar("X".to_string())
        .render()
        .starts_with("ERROR: X"));
}

#[test]
fn web_host_is_set_only_when_configured() {
    let set = env(&[
        ("FORGEBOT_WEBHOOK_SECRET", "s"),
        ("FORGEBOT_FORGEJO_URL", "https://git.example.com"),
        ("FORGEBOT_FORGEJO_TOKEN", "t"),
        ("FORGEBOT_OPENCODE_WEB_HOST", "https://oc.example.com"),
    ]);
    let c = Config::from_env(&set).expect("configuration");
    assert_eq!(c.opencode.web_host.as_deref(), Some("https://oc.example.com"));

    let blank = env(&[
        ("FORGEBOT_WEBHOOK_SECRET", "s"),
        ("FORGEBOT_FORGEJO_URL", "https://git.example.com"),
        ("FORGEBOT_FORGEJO_TOKEN", "t"),
        ("FORGEBOT_OPENCODE_WEB_HOST", "   "),
    ]);
    let c = Config::from_env(&blank).expect("configuration");
    assert_eq!(c.opencode.web_host, None);
}
