//! The decisions of the web UI: the forms it accepts, where it redirects, the
//! messages it shows, and whether a repository's webhook is registered.

use vstd::prelude::*;

use crate::config::{webhook_url, Config};
use crate::db::{new_record_id, repo_name_problem, validate_repo_full_name};
use crate::forgejo::models::Webhook;
use crate::text::{concat2, field0, field1, owned, split_char, split_spec, str_eq, views};

verus! {

// ---------------------------------------------------------------------------
// Errors
// ---------------------------------------------------------------------------

#[derive(Debug, Clone, PartialEq, Eq)]
pub enum UiError {
    InvalidInput(String),
    NotFound(String),
    Message(String),
}

pub open spec fn ui_error_text(e: UiError) -> Seq<char> {
    match e {
        UiError::InvalidInput(v) => "invalid input: "@ + v@,
        UiError::NotFound(v) => "not found: "@ + v@,
        UiError::Message(m) => m@,
    }
}

impl UiError {
    /// The error's message, as its `Display` shows it.
    pub fn render(&self) -> (s: String)
        ensures
            s@ == ui_error_text(*self),
    {
        match self {
            UiError::InvalidInput(v) => concat2("invalid input: ", v.as_str()),
            UiError::NotFound(v) => concat2("not found: ", v.as_str()),
            UiError::Message(m) => m.clone(),
        }
    }
}

// ---------------------------------------------------------------------------
// Forms
// ---------------------------------------------------------------------------

/// Form data for adding a new repository.
#[derive(Debug, Clone)]
pub struct AddRepoForm {
    pub full_name: String,
    pub default_branch: String,
    pub env_loader: String,
}

/// Form data for updating the environment loader.
#[derive(Debug, Clone)]
pub struct EnvLoaderForm {
    pub env_loader: String,
}

/// An env loader setting as stored: `nix`, `direnv` or `none`; anything else is
/// taken as `none`.
pub open spec fn normalized_env_loader(value: Seq<char>) -> Seq<char> {
    if value == "nix"@ || value == "direnv"@ || value == "none"@ {
        value
    } else {
        "none"@
    }
}

/// The env loader setting to store for a submitted value.
pub fn normalize_env_loader(value: &str) -> (r: String)
    ensures
        r@ == normalized_env_loader(value@),
{
    if str_eq(value, "nix") || str_eq(value, "direnv") || str_eq(value, "none") {
        owned(value)
    } else {
        owned("none")
    }
}

/// A repository to insert: its record ID, name, default branch and env loader.
#[derive(Debug, Clone)]
pub struct NewRepo {
    pub id: String,
    pub full_name: String,
    pub default_branch: String,
    pub env_loader: String,
}

/// The repository an add form inserts under the record ID `id`; a malformed
/// name is refused (the UI then goes back to the dashboard).
pub fn new_repo_with_id(id: String, form: &AddRepoForm) -> (r: Option<NewRepo>)
    ensures
        repo_name_problem(form.full_name@) is Some ==> r is None,
        repo_name_problem(form.full_name@) is None ==> (r matches Some(n) && n.id == id
            && n.full_name@ == form.full_name@ && n.default_branch@ == form.default_branch@
            && n.env_loader@ == normalized_env_loader(form.env_loader@)),
{
    match validate_repo_full_name(form.full_name.as_str()) {
        Err(_) => None,
        Ok(()) => Some(
            NewRepo {
                id,
                full_name: form.full_name.clone(),
                default_branch: form.default_branch.clone(),
                env_loader: normalize_env_loader(form.env_loader.as_str()),
            },
        ),
    }
}

/// The repository an add form inserts, under a fresh random record ID.
pub fn new_repo(form: &AddRepoForm) -> (r: Option<NewRepo>)
    ensures
        repo_name_problem(form.full_name@) is Some ==> r is None,
        repo_name_problem(form.full_name@) is None ==> (r matches Some(n) && crate::db::is_uuid_v4_text(n.id@)
            && n.full_name@ == form.full_name@ && n.default_branch@ == form.default_branch@
            && n.env_loader@ == normalized_env_loader(form.env_loader@)),
{
    new_repo_with_id(new_record_id(), form)
}

// ---------------------------------------------------------------------------
// Paths and redirects
// ---------------------------------------------------------------------------

/// `{owner}/{name}`.
pub fn repo_full_name(owner: &str, name: &str) -> (r: String)
    ensures
        r@ == owner@ + "/"@ + name@,
{
    let mut s = concat2(owner, "/");
    s.append(name);
    s
}

/// `/repo/{owner}/{name}`: a repository's setup page.
pub fn repo_page_path(owner: &str, name: &str) -> (r: String)
    ensures
        r@ == "/repo/"@ + owner@ + "/"@ + name@,
{
    let mut s = concat2("/repo/", owner);
    s.append("/");
    s.append(name);
    s
}

/// Where adding a repository leads: its setup page when the name has exactly two
/// `/`-separated parts, else the dashboard.
pub fn add_repo_redirect(full_name: &str) -> (r: String)
    ensures
        split_spec(full_name@, '/').len() == 2 ==> r@ == "/repo/"@ + split_spec(full_name@, '/')[0]
            + "/"@ + split_spec(full_name@, '/')[1],
        split_spec(full_name@, '/').len() != 2 ==> r@ == "/"@,
{
    let parts = split_char(full_name, '/');
    if parts.len() == 2 {
        proof {
            assert(views(parts@)[0] == parts@[0]@);
            assert(views(parts@)[1] == parts@[1]@);
        }
        repo_page_path(parts[0].as_str(), parts[1].as_str())
    } else {
        owned("/")
    }
}

/// The owner and name the dashboard shows for a repository: the first two
/// `/`-separated parts, a missing one empty.
pub fn dashboard_owner_name(full_name: &str) -> (r: (String, String))
    ensures
        r.0@ == split_spec(full_name@, '/')[0],
        r.1@ == if split_spec(full_name@, '/').len() > 1 {
            split_spec(full_name@, '/')[1]
        } else {
            seq![]
        },
{
    let parts = split_char(full_name, '/');
    proof {
        assert(split_spec(full_name@, '/').len() > 0);
        assert(views(parts@)[0] == parts@[0]@);
    }
    let owner = parts[0].clone();
    let name = if parts.len() > 1 {
        proof {
            assert(views(parts@)[1] == parts@[1]@);
        }
        parts[1].clone()
    } else {
        String::new()
    };
    (owner, name)
}

/// The URL Forgejo delivers webhooks to, as the UI shows it.
pub fn format_webhook_url(config: &Config) -> (r: String)
    ensures
        r@ == config.server.forgebot_host@ + "/webhook"@,
{
    webhook_url(config)
}

// ---------------------------------------------------------------------------
// Status shown on the setup page
// ---------------------------------------------------------------------------

/// Whether an active webhook delivers to `expected_url`.
pub open spec fn webhook_registered_spec(hooks: Seq<Webhook>, expected_url: Seq<char>) -> bool {
    exists|i: int| 0 <= i < hooks.len() && (#[trigger] hooks[i]).url@ == expected_url && hooks[i].active
}

/// Whether the repository's webhooks include an active one delivering to
/// `expected_url`.
pub fn webhook_registered(hooks: &Vec<Webhook>, expected_url: &str) -> (r: bool)
    ensures
        r == webhook_registered_spec(hooks@, expected_url@),
{
    let mut i: usize = 0;
    while i < hooks.len()
        invariant
            i <= hooks.len(),
            forall|k: int| 0 <= k < i ==> !((#[trigger] hooks@[k]).url@ == expected_url@ && hooks@[k].active),
        decreases hooks.len() - i,
    {
        if hooks[i].active && str_eq(hooks[i].url.as_str(), expected_url) {
            return true;
        }
        i = i + 1;
    }
    false
}

/// The message after registering a webhook: success, or the failure's text.
pub fn webhook_registration_message(error_text: Option<&str>) -> (r: (String, bool))
    ensures
        match error_text {
            None => r.0@ == "Webhook registered successfully"@ && r.1,
            Some(e) => r.0@ == "Failed to create webhook: "@ + e@ && !r.1,
        },
{
    match error_text {
        None => (owned("Webhook registered successfully"), true),
        Some(e) => (concat2("Failed to create webhook: ", e), false),
    }
}

/// The message after saving the env loader: success, or the failure's text.
pub fn env_loader_update_message(error_text: Option<&str>) -> (r: (String, bool))
    ensures
        match error_text {
            None => r.0@ == "Environment loader updated"@ && r.1,
            Some(e) => r.0@ == "Failed to update: "@ + e@ && !r.1,
        },
{
    match error_text {
        None => (owned("Environment loader updated"), true),
        Some(e) => (concat2("Failed to update: ", e), false),
    }
}

/// The page of an internal error (answered with `500`).
pub fn internal_error_page(message: &str) -> (r: String)
    ensures
        r@ == "<!DOCTYPE html>\n<html><body>\n<h1>Internal Server Error</h1>\n<p>"@ + message@
            + "</p>\n<p><a href=\"/\">Return to Dashboard</a></p>\n</body></html>"@,
{
    let mut s = owned("<!DOCTYPE html>\n<html><body>\n<h1>Internal Server Error</h1>\n<p>");
    s.append(message);
    s.append("</p>\n<p><a href=\"/\">Return to Dashboard</a></p>\n</body></html>");
    s
}

} // verus!
