//! Configuration, read from a snapshot of the process environment.

use vstd::prelude::*;
use vstd::string::*;

use crate::text::{
    opt_view, concat2, is_blank, owned, parse_unsigned, parse_unsigned_spec, str_eq, trim, trim_end_char,
    trim_end_char_spec, trim_spec, u64_to_decimal, decimal,
};

verus! {

pub const DEFAULT_ASKPASS_PATH: &'static str = "/var/lib/forgebot/git-askpass.sh";

#[derive(Debug, Clone)]
pub struct Config {
    pub server: ServerConfig,
    pub forgejo: ForgejoConfig,
    pub opencode: OpencodeConfig,
    pub database: DatabaseConfig,
}

#[derive(Debug, Clone)]
pub struct ServerConfig {
    pub host: String,
    pub port: u16,
    pub webhook_secret: String,
    pub forgebot_host: String,
}

#[derive(Debug, Clone)]
pub struct ForgejoConfig {
    pub url: String,
    pub token: String,
    pub bot_username: String,
}

/// Paths are held as text, exactly as configured.
#[derive(Debug, Clone)]
pub struct OpencodeConfig {
    pub binary: String,
    pub worktree_base: String,
    pub config_dir: String,
    pub git_binary: String,
    pub model: String,
    pub web_host: Option<String>,
    pub api: OpencodeApiConfig,
}

#[derive(Debug, Clone)]
pub struct OpencodeApiConfig {
    pub base_url: Option<String>,
    pub token: Option<String>,
    pub timeout_secs: u64,
}

#[derive(Debug, Clone)]
pub struct DatabaseConfig {
    pub path: String,
}

/// The URL Forgejo delivers webhooks to: `{forgebot_host}/webhook`.
pub fn webhook_url(config: &Config) -> (r: String)
    ensures
        r@ == config.server.forgebot_host@ + "/webhook"@,
{
    concat2(config.server.forgebot_host.as_str(), "/webhook")
}

pub open spec fn askpass_path_spec(raw: Option<Seq<char>>) -> Seq<char> {
    match raw {
        Some(p) => if trim_spec(p).len() != 0 {
            p
        } else {
            DEFAULT_ASKPASS_PATH@
        },
        None => DEFAULT_ASKPASS_PATH@,
    }
}

/// The git askpass script location: the configured value unless it is unset or
/// blank, else `/var/lib/forgebot/git-askpass.sh`.
pub fn resolve_askpass_path(raw_value: Option<String>) -> (r: String)
    ensures
        r@ == askpass_path_spec(opt_view(raw_value)),
{
    match raw_value {
        Some(path) => {
            if !is_blank(path.as_str()) {
                path
            } else {
                owned(DEFAULT_ASKPASS_PATH)
            }
        },
        None => owned(DEFAULT_ASKPASS_PATH),
    }
}

/// The git askpass script: it answers a username prompt with
/// `FORGEBOT_FORGEJO_BOT_USERNAME` (default `forgebot`) and any other prompt with
/// `FORGEBOT_FORGEJO_TOKEN`.
pub fn askpass_script() -> (s: String)
    ensures
        s@ == "#!/bin/sh\nprompt=\"$1\"\ncase \"$prompt\" in\n  *Username*|*username*)\n    printf '%s\\n' \"${FORGEBOT_FORGEJO_BOT_USERNAME:-forgebot}\"\n    ;;\n  *)\n    printf '%s\\n' \"${FORGEBOT_FORGEJO_TOKEN:-}\"\n    ;;\nesac\n"@,
{
    owned(
        "#!/bin/sh\nprompt=\"$1\"\ncase \"$prompt\" in\n  *Username*|*username*)\n    printf '%s\\n' \"${FORGEBOT_FORGEJO_BOT_USERNAME:-forgebot}\"\n    ;;\n  *)\n    printf '%s\\n' \"${FORGEBOT_FORGEJO_TOKEN:-}\"\n    ;;\nesac\n",
    )
}

// ---------------------------------------------------------------------------
// Environment snapshot
// ---------------------------------------------------------------------------

/// Environment variables as name/value pairs, as read from the process.
#[derive(Debug, Clone)]
pub struct EnvSnapshot {
    pub vars: Vec<(String, String)>,
}

/// The value of the first variable named `name`.
pub open spec fn env_lookup(vars: Seq<(String, String)>, name: Seq<char>) -> Option<Seq<char>>
    decreases vars.len(),
{
    if vars.len() == 0 {
        None
    } else if vars[0].0@ == name {
        Some(vars[0].1@)
    } else {
        env_lookup(vars.drop_first(), name)
    }
}

/// The value of `name` unless it is unset or blank.
pub open spec fn non_blank(vars: Seq<(String, String)>, name: Seq<char>) -> Option<Seq<char>> {
    match env_lookup(vars, name) {
        Some(v) => if trim_spec(v).len() != 0 {
            Some(v)
        } else {
            None
        },
        None => None,
    }
}

pub open spec fn with_default(vars: Seq<(String, String)>, name: Seq<char>, default: Seq<char>) -> Seq<char> {
    match non_blank(vars, name) {
        Some(v) => v,
        None => default,
    }
}

impl EnvSnapshot {
    /// The value of the first variable named `name`.
    pub fn get(&self, name: &str) -> (r: Option<String>)
        ensures
            r matches Some(v) ==> env_lookup(self.vars@, name@) == Some(v@),
            r is None ==> env_lookup(self.vars@, name@) is None,
    {
        let mut i: usize = 0;
        assert(self.vars@.skip(0) =~= self.vars@);
        while i < self.vars.len()
            invariant
                i <= self.vars@.len(),
                env_lookup(self.vars@, name@) == env_lookup(self.vars@.skip(i as int), name@),
            decreases self.vars.len() - i,
        {
            let ghost rest = self.vars@.skip(i as int);
            assert(rest[0] == self.vars@[i as int]);
            if str_eq(self.vars[i].0.as_str(), name) {
                return Some(self.vars[i].1.clone());
            }
            assert(rest.drop_first() =~= self.vars@.skip(i + 1));
            i = i + 1;
        }
        None
    }
}

/// The git askpass script location from `FORGEBOT_ASKPASS_PATH`.
pub fn askpass_script_path(env: &EnvSnapshot) -> (r: String)
    ensures
        r@ == askpass_path_spec(env_lookup(env.vars@, "FORGEBOT_ASKPASS_PATH"@)),
{
    resolve_askpass_path(env.get("FORGEBOT_ASKPASS_PATH"))
}

// ---------------------------------------------------------------------------
// Errors
// ---------------------------------------------------------------------------

#[derive(Debug, Clone, PartialEq, Eq)]
pub enum ConfigError {
    /// A required variable is unset.
    MissingVar(String),
    /// A required variable is set but blank.
    EmptyVar(String),
    /// A variable that must be an integer is not one.
    InvalidInteger { name: String, value: String },
    /// A variable that must be a URL does not parse as one.
    InvalidUrl { name: String, value: String },
    /// A URL variable does not use http or https.
    InvalidScheme { name: String, scheme: String },
}

pub open spec fn config_error_text(e: ConfigError) -> Seq<char> {
    match e {
        ConfigError::MissingVar(n) => "ERROR: "@ + n@
            + " environment variable is required but not set. Please set it and try again."@,
        ConfigError::EmptyVar(n) => "ERROR: "@ + n@
            + " environment variable is set but empty. Please provide a valid value."@,
        ConfigError::InvalidInteger { name, value } => "ERROR: "@ + name@ + " has invalid value '"@
            + value@ + "'. Expected an integer."@,
        ConfigError::InvalidUrl { name, value } => "ERROR: "@ + name@ + " is not a valid URL: "@
            + value@,
        ConfigError::InvalidScheme { name, scheme } => "ERROR: "@ + name@
            + " must use http or https scheme (got '"@ + scheme@ + "')"@,
    }
}

impl ConfigError {
    /// The error's message.
    pub fn render(&self) -> (s: String)
        ensures
            s@ == config_error_text(*self),
    {
        match self {
            ConfigError::MissingVar(n) => {
                let mut s = concat2("ERROR: ", n.as_str());
                s.append(
                    " environment variable is required but not set. Please set it and try again.",
                );
                s
            },
            ConfigError::EmptyVar(n) => {
                let mut s = concat2("ERROR: ", n.as_str());
                s.append(" environment variable is set but empty. Please provide a valid value.");
                s
            },
            ConfigError::InvalidInteger { name, value } => {
                let mut s = concat2("ERROR: ", name.as_str());
                s.append(" has invalid value '");
                s.append(value.as_str());
                s.append("'. Expected an integer.");
                s
            },
            ConfigError::InvalidUrl { name, value } => {
                let mut s = concat2("ERROR: ", name.as_str());
                s.append(" is not a valid URL: ");
                s.append(value.as_str());
                s
            },
            ConfigError::InvalidScheme { name, scheme } => {
                let mut s = concat2("ERROR: ", name.as_str());
                s.append(" must use http or https scheme (got '");
                s.append(scheme.as_str());
                s.append("')");
                s
            },
        }
    }
}

// ---------------------------------------------------------------------------
// Single variables
// ---------------------------------------------------------------------------

/// A required variable: its value, unless it is unset or blank.
pub fn require_env_var(env: &EnvSnapshot, name: &str) -> (r: Result<String, ConfigError>)
    ensures
        r matches Ok(v) ==> non_blank(env.vars@, name@) == Some(v@),
        r matches Err(e) ==> non_blank(env.vars@, name@) is None && match e {
            ConfigError::MissingVar(n) => n@ == name@ && env_lookup(env.vars@, name@) is None,
            ConfigError::EmptyVar(n) => n@ == name@ && env_lookup(env.vars@, name@) is Some,
            _ => false,
        },
{
    match env.get(name) {
        Some(value) => {
            if is_blank(value.as_str()) {
                Err(ConfigError::EmptyVar(owned(name)))
            } else {
                Ok(value)
            }
        },
        None => Err(ConfigError::MissingVar(owned(name))),
    }
}

/// A variable's value, or `default` when it is unset or blank.
pub fn env_var_with_default(env: &EnvSnapshot, name: &str, default: &str) -> (r: String)
    ensures
        r@ == with_default(env.vars@, name@, default@),
{
    match env_var_optional(env, name) {
        Some(v) => v,
        None => owned(default),
    }
}

/// A variable's value unless it is unset or blank.
pub fn env_var_optional(env: &EnvSnapshot, name: &str) -> (r: Option<String>)
    ensures
        r matches Some(v) ==> non_blank(env.vars@, name@) == Some(v@),
        r is None ==> non_blank(env.vars@, name@) is None,
{
    match env.get(name) {
        Some(value) => {
            if is_blank(value.as_str()) {
                None
            } else {
                Some(value)
            }
        },
        None => None,
    }
}

/// A path variable's value, or `default` when it is unset or blank.
pub fn env_var_path_with_default(env: &EnvSnapshot, name: &str, default: &str) -> (r: String)
    ensures
        r@ == with_default(env.vars@, name@, default@),
{
    env_var_with_default(env, name, default)
}

pub open spec fn port_spec(vars: Seq<(String, String)>, name: Seq<char>, default: u16) -> u16 {
    match non_blank(vars, name) {
        Some(v) => match parse_unsigned_spec(v, u16::MAX as nat) {
            Some(p) => p as u16,
            None => default,
        },
        None => default,
    }
}

/// A `u16` variable; an unset, blank or unparsable value gives `default`.
pub fn env_var_parse_with_default(env: &EnvSnapshot, name: &str, default: u16) -> (r: Result<
    u16,
    ConfigError,
>)
    ensures
        r == Ok::<u16, ConfigError>(port_spec(env.vars@, name@, default)),
{
    match env_var_optional(env, name) {
        Some(v) => match parse_unsigned(v.as_str(), 65535) {
            Some(p) => Ok(p as u16),
            None => Ok(default),
        },
        None => Ok(default),
    }
}

/// A `u64` variable; an unset or blank value gives `default`, an unparsable one is
/// an error naming the variable and its value.
pub fn env_var_parse_u64_with_default(env: &EnvSnapshot, name: &str, default: u64) -> (r: Result<
    u64,
    ConfigError,
>)
    ensures
        match non_blank(env.vars@, name@) {
            Some(v) => match parse_unsigned_spec(v, u64::MAX as nat) {
                Some(x) => r == Ok::<u64, ConfigError>(x as u64),
                None => r matches Err(ConfigError::InvalidInteger { name: n, value: val })
                    && n@ == name@ && val@ == v,
            },
            None => r == Ok::<u64, ConfigError>(default),
        },
{
    match env_var_optional(env, name) {
        Some(v) => match parse_unsigned(v.as_str(), u64::MAX) {
            Some(x) => Ok(x),
            None => Err(ConfigError::InvalidInteger { name: owned(name), value: v }),
        },
        None => Ok(default),
    }
}

// ---------------------------------------------------------------------------
// URLs
// ---------------------------------------------------------------------------

/// What `url::Url::parse` (re-exported as `reqwest::Url`) gives for a string: the
/// URL's scheme when it parses, else `None`.
pub uninterp spec fn url_scheme(s: Seq<char>) -> Option<Seq<char>>;

/// Parses `s` with `reqwest::Url::parse` and returns its scheme. The contract names
/// the outcome `url_scheme`; which strings parse is not restated here.
#[verifier::external_body]
pub(crate) fn parse_url_scheme(s: &str) -> (r: Option<String>)
    ensures
        r matches Some(sc) ==> url_scheme(s@) == Some(sc@),
        r is None ==> url_scheme(s@) is None,
{
    match reqwest::Url::parse(s) {
        Ok(url) => Some(url.scheme().to_string()),
        Err(_) => None,
    }
}

pub open spec fn validate_http_url_spec(value: Seq<char>) -> Option<Seq<char>> {
    let trimmed = trim_spec(value);
    match url_scheme(trimmed) {
        Some(sc) => if sc == "http"@ || sc == "https"@ {
            Some(trim_end_char_spec(trimmed, '/'))
        } else {
            None
        },
        None => None,
    }
}

/// Trims `value`, requires it to parse as an http or https URL, and drops its
/// trailing slashes.
pub fn validate_http_url(var_name: &str, value: &str) -> (r: Result<String, ConfigError>)
    ensures
        r matches Ok(v) ==> validate_http_url_spec(value@) == Some(v@),
        r matches Err(e) ==> validate_http_url_spec(value@) is None && match url_scheme(
            trim_spec(value@),
        ) {
            None => e matches ConfigError::InvalidUrl { name, value: v } && name@ == var_name@
                && v@ == trim_spec(value@),
            Some(sc) => e matches ConfigError::InvalidScheme { name, scheme } && name@ == var_name@
                && scheme@ == sc,
        },
{
    let trimmed = trim(value);
    match parse_url_scheme(trimmed.as_str()) {
        None => Err(ConfigError::InvalidUrl { name: owned(var_name), value: trimmed }),
        Some(scheme) => {
            if str_eq(scheme.as_str(), "http") || str_eq(scheme.as_str(), "https") {
                Ok(trim_end_char(trimmed.as_str(), '/'))
            } else {
                Err(ConfigError::InvalidScheme { name: owned(var_name), scheme })
            }
        },
    }
}

// ---------------------------------------------------------------------------
// The whole configuration
// ---------------------------------------------------------------------------

pub open spec fn forgebot_host_spec(vars: Seq<(String, String)>, host: Seq<char>, port: u16) -> Seq<char> {
    match non_blank(vars, "FORGEBOT_FORGEBOT_HOST"@) {
        Some(v) => v,
        None => "http://"@ + host + ":"@ + decimal(port as nat),
    }
}

/// `c` is the configuration that the environment `vars` describes, given the API
/// base URL that validation produced.
pub open spec fn config_from_env_spec(vars: Seq<(String, String)>, c: Config, api_base: Seq<char>) -> bool {
    let host = with_default(vars, "FORGEBOT_SERVER_HOST"@, "127.0.0.1"@);
    let port = port_spec(vars, "FORGEBOT_SERVER_PORT"@, 8765);
    &&& non_blank(vars, "FORGEBOT_WEBHOOK_SECRET"@) == Some(c.server.webhook_secret@)
    &&& non_blank(vars, "FORGEBOT_FORGEJO_URL"@) == Some(c.forgejo.url@)
    &&& non_blank(vars, "FORGEBOT_FORGEJO_TOKEN"@) == Some(c.forgejo.token@)
    &&& c.server.host@ == host
    &&& c.server.port == port
    &&& c.server.forgebot_host@ == forgebot_host_spec(vars, host, port)
    &&& c.forgejo.bot_username@ == with_default(vars, "FORGEBOT_FORGEJO_BOT_USERNAME"@, "forgebot"@)
    &&& c.opencode.binary@ == with_default(vars, "FORGEBOT_OPENCODE_BINARY"@, "opencode"@)
    &&& c.opencode.git_binary@ == with_default(vars, "FORGEBOT_GIT_BINARY"@, "git"@)
    &&& c.opencode.model@ == with_default(vars, "FORGEBOT_OPENCODE_MODEL"@, "opencode/kimi-k2.5"@)
    &&& validate_http_url_spec(
        with_default(vars, "FORGEBOT_OPENCODE_API_BASE_URL"@, "http://127.0.0.1:4096"@),
    ) == Some(api_base)
    &&& c.opencode.api.base_url matches Some(b) && b@ == api_base
    &&& match non_blank(vars, "FORGEBOT_OPENCODE_API_TOKEN"@) {
        Some(t) => c.opencode.api.token matches Some(ct) && ct@ == t,
        None => c.opencode.api.token is None,
    }
    &&& parse_timeout(vars) == Some(c.opencode.api.timeout_secs)
    &&& match non_blank(vars, "FORGEBOT_OPENCODE_WEB_HOST"@) {
        Some(h) => c.opencode.web_host matches Some(w) && w@ == h,
        None => c.opencode.web_host is None,
    }
    &&& c.opencode.worktree_base@ == with_default(
        vars,
        "FORGEBOT_OPENCODE_WORKTREE_BASE"@,
        "/var/lib/forgebot/worktrees"@,
    )
    &&& c.opencode.config_dir@ == with_default(
        vars,
        "FORGEBOT_OPENCODE_CONFIG_DIR"@,
        "/var/lib/forgebot/opencode-config"@,
    )
    &&& c.database.path@ == with_default(vars, "FORGEBOT_DATABASE_PATH"@, "/var/lib/forgebot/forgebot.db"@)
}

/// Each optional setting of a loaded configuration is the value of its variable
/// when that is set and not blank, else its documented default.
pub proof fn law_settings_come_from_their_variables(
    vars: Seq<(String, String)>,
    c: Config,
    api_base: Seq<char>,
)
    requires
        config_from_env_spec(vars, c, api_base),
    ensures
        c.opencode.model@ == match non_blank(vars, "FORGEBOT_OPENCODE_MODEL"@) {
            Some(v) => v,
            None => "opencode/kimi-k2.5"@,
        },
        c.opencode.binary@ == match non_blank(vars, "FORGEBOT_OPENCODE_BINARY"@) {
            Some(v) => v,
            None => "opencode"@,
        },
        c.opencode.git_binary@ == match non_blank(vars, "FORGEBOT_GIT_BINARY"@) {
            Some(v) => v,
            None => "git"@,
        },
        c.forgejo.bot_username@ == match non_blank(vars, "FORGEBOT_FORGEJO_BOT_USERNAME"@) {
            Some(v) => v,
            None => "forgebot"@,
        },
        c.server.host@ == match non_blank(vars, "FORGEBOT_SERVER_HOST"@) {
            Some(v) => v,
            None => "127.0.0.1"@,
        },
        c.opencode.worktree_base@ == match non_blank(vars, "FORGEBOT_OPENCODE_WORKTREE_BASE"@) {
            Some(v) => v,
            None => "/var/lib/forgebot/worktrees"@,
        },
        c.opencode.config_dir@ == match non_blank(vars, "FORGEBOT_OPENCODE_CONFIG_DIR"@) {
            Some(v) => v,
            None => "/var/lib/forgebot/opencode-config"@,
        },
        c.database.path@ == match non_blank(vars, "FORGEBOT_DATABASE_PATH"@) {
            Some(v) => v,
            None => "/var/lib/forgebot/forgebot.db"@,
        },
        match non_blank(vars, "FORGEBOT_OPENCODE_WEB_HOST"@) {
            Some(v) => c.opencode.web_host matches Some(w) && w@ == v,
            None => c.opencode.web_host is None,
        },
        match non_blank(vars, "FORGEBOT_OPENCODE_API_TOKEN"@) {
            Some(v) => c.opencode.api.token matches Some(tok) && tok@ == v,
            None => c.opencode.api.token is None,
        },
        non_blank(vars, "FORGEBOT_WEBHOOK_SECRET"@) == Some(c.server.webhook_secret@),
        non_blank(vars, "FORGEBOT_FORGEJO_URL"@) == Some(c.forgejo.url@),
        non_blank(vars, "FORGEBOT_FORGEJO_TOKEN"@) == Some(c.forgejo.token@),
{
}

pub open spec fn parse_timeout(vars: Seq<(String, String)>) -> Option<u64> {
    match non_blank(vars, "FORGEBOT_OPENCODE_API_TIMEOUT_SECS"@) {
        Some(v) => match parse_unsigned_spec(v, u64::MAX as nat) {
            Some(x) => Some(x as u64),
            None => None,
        },
        None => Some(30),
    }
}

/// `e` reports the required variable `name` as unset or blank.
pub open spec fn required_var_error(vars: Seq<(String, String)>, name: Seq<char>, e: ConfigError) -> bool {
    match e {
        ConfigError::MissingVar(n) => n@ == name && env_lookup(vars, name) is None,
        ConfigError::EmptyVar(n) => n@ == name && env_lookup(vars, name) is Some,
        _ => false,
    }
}

/// `e` reports the `name` URL `value` as unparsable or not http(s).
pub open spec fn url_error(name: Seq<char>, value: Seq<char>, e: ConfigError) -> bool {
    match url_scheme(trim_spec(value)) {
        None => e matches ConfigError::InvalidUrl { name: n, value: v } && n@ == name && v@
            == trim_spec(value),
        Some(sc) => e matches ConfigError::InvalidScheme { name: n, scheme } && n@ == name
            && scheme@ == sc,
    }
}

/// The error the environment's configuration fails with, checking in order the
/// webhook secret, the Forgejo URL and token, the opencode API base URL and the
/// API timeout.
pub open spec fn config_error_spec(vars: Seq<(String, String)>, e: ConfigError) -> bool {
    let base = with_default(vars, "FORGEBOT_OPENCODE_API_BASE_URL"@, "http://127.0.0.1:4096"@);
    if non_blank(vars, "FORGEBOT_WEBHOOK_SECRET"@) is None {
        required_var_error(vars, "FORGEBOT_WEBHOOK_SECRET"@, e)
    } else if non_blank(vars, "FORGEBOT_FORGEJO_URL"@) is None {
        required_var_error(vars, "FORGEBOT_FORGEJO_URL"@, e)
    } else if non_blank(vars, "FORGEBOT_FORGEJO_TOKEN"@) is None {
        required_var_error(vars, "FORGEBOT_FORGEJO_TOKEN"@, e)
    } else if validate_http_url_spec(base) is None {
        url_error("FORGEBOT_OPENCODE_API_BASE_URL"@, base, e)
    } else {
        e matches ConfigError::InvalidInteger { name, value } && name@
            == "FORGEBOT_OPENCODE_API_TIMEOUT_SECS"@ && non_blank(
            vars,
            "FORGEBOT_OPENCODE_API_TIMEOUT_SECS"@,
        ) == Some(value@)
    }
}

impl Config {
    /// Builds the configuration from environment variables. Required: the webhook
    /// secret, the Forgejo URL and the Forgejo token. Every other value has a
    /// default, but for the opencode web host, which is unset unless configured; the
    /// opencode API base URL must be an http(s) URL.
    pub fn from_env(env: &EnvSnapshot) -> (r: Result<Config, ConfigError>)
        ensures
            r matches Ok(c) ==> exists|b: Seq<char>| config_from_env_spec(env.vars@, c, b),
            r is Err <==> (non_blank(env.vars@, "FORGEBOT_WEBHOOK_SECRET"@) is None || non_blank(
                env.vars@,
                "FORGEBOT_FORGEJO_URL"@,
            ) is None || non_blank(env.vars@, "FORGEBOT_FORGEJO_TOKEN"@) is None
                || parse_timeout(env.vars@) is None || validate_http_url_spec(
                with_default(
                    env.vars@,
                    "FORGEBOT_OPENCODE_API_BASE_URL"@,
                    "http://127.0.0.1:4096"@,
                ),
            ) is None),
            r matches Err(e) ==> config_error_spec(env.vars@, e),
    {
        let webhook_secret = match require_env_var(env, "FORGEBOT_WEBHOOK_SECRET") {
            Ok(v) => v,
            Err(e) => return Err(e),
        };
        let forgejo_url = match require_env_var(env, "FORGEBOT_FORGEJO_URL") {
            Ok(v) => v,
            Err(e) => return Err(e),
        };
        let forgejo_token = match require_env_var(env, "FORGEBOT_FORGEJO_TOKEN") {
            Ok(v) => v,
            Err(e) => return Err(e),
        };
        let server_host = env_var_with_default(env, "FORGEBOT_SERVER_HOST", "127.0.0.1");
        let server_port = match env_var_parse_with_default(env, "FORGEBOT_SERVER_PORT", 8765) {
            Ok(p) => p,
            Err(e) => return Err(e),
        };
        let forgebot_host = match env_var_optional(env, "FORGEBOT_FORGEBOT_HOST") {
            Some(v) => v,
            None => {
                let mut s = concat2("http://", server_host.as_str());
                s.append(":");
                s.append(u64_to_decimal(server_port as u64).as_str());
                s
            },
        };
        let bot_username = env_var_with_default(env, "FORGEBOT_FORGEJO_BOT_USERNAME", "forgebot");
        let opencode_binary = env_var_with_default(env, "FORGEBOT_OPENCODE_BINARY", "opencode");
        let git_binary = env_var_with_default(env, "FORGEBOT_GIT_BINARY", "git");
        let opencode_model = env_var_with_default(
            env,
            "FORGEBOT_OPENCODE_MODEL",
            "opencode/kimi-k2.5",
        );
        let configured_web_host = env_var_optional(env, "FORGEBOT_OPENCODE_WEB_HOST");
        let raw_base = env_var_with_default(
            env,
            "FORGEBOT_OPENCODE_API_BASE_URL",
            "http://127.0.0.1:4096",
        );
        let api_base = match validate_http_url("FORGEBOT_OPENCODE_API_BASE_URL", raw_base.as_str()) {
            Ok(v) => v,
            Err(e) => return Err(e),
        };
        let api_token = env_var_optional(env, "FORGEBOT_OPENCODE_API_TOKEN");
        let timeout_secs = match env_var_parse_u64_with_default(
            env,
            "FORGEBOT_OPENCODE_API_TIMEOUT_SECS",
            30,
        ) {
            Ok(t) => t,
            Err(e) => return Err(e),
        };
        let worktree_base = env_var_path_with_default(
            env,
            "FORGEBOT_OPENCODE_WORKTREE_BASE",
            "/var/lib/forgebot/worktrees",
        );
        let config_dir = env_var_path_with_default(
            env,
            "FORGEBOT_OPENCODE_CONFIG_DIR",
            "/var/lib/forgebot/opencode-config",
        );
        let database_path = env_var_path_with_default(
            env,
            "FORGEBOT_DATABASE_PATH",
            "/var/lib/forgebot/forgebot.db",
        );
        let ghost api_base_view = api_base@;
        let c = Config {
            server: ServerConfig {
                host: server_host,
                port: server_port,
                webhook_secret,
                forgebot_host,
            },
            forgejo: ForgejoConfig { url: forgejo_url, token: forgejo_token, bot_username },
            opencode: OpencodeConfig {
                binary: opencode_binary,
                worktree_base,
                config_dir,
                git_binary,
                model: opencode_model,
                web_host: configured_web_host,
                api: OpencodeApiConfig { base_url: Some(api_base), token: api_token, timeout_secs },
            },
            database: DatabaseConfig { path: database_path },
        };
        assert(config_from_env_spec(env.vars@, c, api_base_view));
        Ok(c)
    }
}

} // verus!
