//! Loading a repository's environment with its configured loader: `none`,
//! `direnv` (`direnv export json`) or `nix` (`nix print-dev-env --json`).
//!
//! The caller runs the loader's command and hands its outcome to these functions.

use vstd::prelude::*;

use crate::envmap::pairs_view;
use crate::session::env_loader_errors::EnvLoaderError;
use crate::text::{owned, str_eq, trim, trim_spec, views};

verus! {

/// An environment loader.
#[derive(Debug, Clone, Copy, PartialEq, Eq, Structural)]
pub enum LoaderKind {
    NoLoader,
    Direnv,
    Nix,
}

pub open spec fn loader_kind_spec(s: Seq<char>) -> Option<LoaderKind> {
    if s == "none"@ {
        Some(LoaderKind::NoLoader)
    } else if s == "direnv"@ {
        Some(LoaderKind::Direnv)
    } else if s == "nix"@ {
        Some(LoaderKind::Nix)
    } else {
        None
    }
}

/// The loader a repository's `env_loader` setting names; any other value is
/// refused.
pub fn select_env_loader(loader_type: &str) -> (r: Result<LoaderKind, EnvLoaderError>)
    ensures
        match loader_kind_spec(loader_type@) {
            Some(k) => r == Ok::<LoaderKind, EnvLoaderError>(k),
            None => r matches Err(EnvLoaderError::InvalidLoaderType(v)) && v@ == loader_type@,
        },
{
    if str_eq(loader_type, "none") {
        Ok(LoaderKind::NoLoader)
    } else if str_eq(loader_type, "direnv") {
        Ok(LoaderKind::Direnv)
    } else if str_eq(loader_type, "nix") {
        Ok(LoaderKind::Nix)
    } else {
        Err(EnvLoaderError::InvalidLoaderType(owned(loader_type)))
    }
}

/// The `none` loader's environment: no variables.
pub fn load_env_none() -> (r: Vec<(String, String)>)
    ensures
        r@.len() == 0,
{
    Vec::new()
}

/// The command a loader runs in the worktree, with its time limit in seconds and
/// the name its failures are reported under.
#[derive(Debug, Clone)]
pub struct LoaderCommand {
    pub program: String,
    pub args: Vec<String>,
    pub timeout_secs: u64,
    pub label: String,
}

/// The command of a loader: `direnv export json` within 30 seconds, or
/// `nix print-dev-env --json` within 60; the `none` loader runs nothing.
pub fn loader_command(kind: LoaderKind) -> (r: Option<LoaderCommand>)
    ensures
        match kind {
            LoaderKind::NoLoader => r is None,
            LoaderKind::Direnv => r matches Some(c) && c.program@ == "direnv"@ && views(c.args@)
                == seq!["export"@, "json"@] && c.timeout_secs == 30 && c.label@
                == "direnv export json"@,
            LoaderKind::Nix => r matches Some(c) && c.program@ == "nix"@ && views(c.args@)
                == seq!["print-dev-env"@, "--json"@] && c.timeout_secs == 60 && c.label@
                == "nix print-dev-env --json"@,
        },
{
    match kind {
        LoaderKind::NoLoader => None,
        LoaderKind::Direnv => {
            let args = vec![owned("export"), owned("json")];
            assert(views(args@) =~= seq!["export"@, "json"@]);
            Some(
                LoaderCommand {
                    program: owned("direnv"),
                    args,
                    timeout_secs: 30,
                    label: owned("direnv export json"),
                },
            )
        },
        LoaderKind::Nix => {
            let args = vec![owned("print-dev-env"), owned("--json")];
            assert(views(args@) =~= seq!["print-dev-env"@, "--json"@]);
            Some(
                LoaderCommand {
                    program: owned("nix"),
                    args,
                    timeout_secs: 60,
                    label: owned("nix print-dev-env --json"),
                },
            )
        },
    }
}

/// How a loader's command ended.
#[derive(Debug, Clone, PartialEq, Eq)]
pub enum CommandRun {
    /// The process exited.
    Finished { success: bool, exit_code: Option<i32>, stdout: String, stderr: String },
    /// The process could not be run.
    ExecFailed(String),
    /// It ran longer than its time limit.
    TimedOut,
}

/// The output of a loader's command: its standard output when it succeeded,
/// else the failure.
pub fn loader_output(command: &LoaderCommand, run: CommandRun) -> (r: Result<String, EnvLoaderError>)
    ensures
        match run {
            CommandRun::Finished { success, exit_code, stdout, stderr } => if success {
                r matches Ok(out) && out@ == stdout@
            } else {
                r matches Err(EnvLoaderError::CommandFailed { command: c, exit_code: code, stderr: e })
                    && c@ == command.label@ && code == exit_code && e@ == stderr@
            },
            CommandRun::ExecFailed(m) => r matches Err(EnvLoaderError::CommandExecution { command: c, message })
                && c@ == "subprocess"@ && message@ == m@,
            CommandRun::TimedOut => r == Err::<String, EnvLoaderError>(
                EnvLoaderError::Timeout(command.timeout_secs),
            ),
        },
{
    match run {
        CommandRun::Finished { success, exit_code, stdout, stderr } => {
            if success {
                Ok(stdout)
            } else {
                Err(EnvLoaderError::CommandFailed { command: command.label.clone(), exit_code, stderr })
            }
        },
        CommandRun::ExecFailed(m) => Err(
            EnvLoaderError::CommandExecution { command: owned("subprocess"), message: m },
        ),
        CommandRun::TimedOut => Err(EnvLoaderError::Timeout(command.timeout_secs)),
    }
}

// ---------------------------------------------------------------------------
// direnv
// ---------------------------------------------------------------------------

/// What `serde_json::from_str` reads from a text as a map of strings to strings
/// (a `BTreeMap`): its entries in ascending order of name; `None` when the text is
/// not a JSON object whose values are all strings.
pub uninterp spec fn direnv_json_vars(text: Seq<char>) -> Option<Seq<(Seq<char>, Seq<char>)>>;

/// Reads a JSON object of strings with `serde_json::from_str` into a `BTreeMap`
/// and lists its entries; the error's message is serde_json's.
#[verifier::external_body]
fn read_string_map(text: &str) -> (r: Result<Vec<(String, String)>, String>)
    ensures
        match r {
            Ok(v) => direnv_json_vars(text@) == Some(pairs_view(v@)),
            Err(_) => direnv_json_vars(text@) is None,
        },
{
    match serde_json::from_str::<std::collections::BTreeMap<String, String>>(text) {
        Ok(map) => Ok(map.into_iter().collect()),
        Err(e) => Err(e.to_string()),
    }
}

/// Reads `direnv export json` output: no variables when it is blank, else the
/// variables of the JSON object of strings it holds.
pub fn parse_direnv_json(output: &str) -> (r: Result<Vec<(String, String)>, EnvLoaderError>)
    ensures
        trim_spec(output@).len() == 0 ==> (r matches Ok(v) && v@.len() == 0),
        trim_spec(output@).len() > 0 ==> match direnv_json_vars(trim_spec(output@)) {
            Some(pairs) => r matches Ok(v) && pairs_view(v@) == pairs,
            None => r matches Err(EnvLoaderError::ParseJson { loader, output: o, .. }) && loader@
                == "direnv"@ && o@ == trim_spec(output@),
        },
{
    let trimmed = trim(output);
    if trimmed.as_str().unicode_len() == 0 {
        return Ok(Vec::new());
    }
    match read_string_map(trimmed.as_str()) {
        Ok(v) => Ok(v),
        Err(message) => Err(
            EnvLoaderError::ParseJson { loader: owned("direnv"), output: trimmed, message },
        ),
    }
}

// ---------------------------------------------------------------------------
// nix
// ---------------------------------------------------------------------------

/// The value of a variable of `nix print-dev-env --json`: a string, or anything
/// else (an array, a number, null...).
#[derive(Debug, Clone, PartialEq, Eq)]
pub enum NixValue {
    String(String),
    Other,
}

/// A variable of `nix print-dev-env --json`: its type and its value, if any.
#[derive(Debug, Clone, PartialEq, Eq)]
pub struct NixVariable {
    pub var_type: String,
    pub value: Option<NixValue>,
}

/// The output of `nix print-dev-env --json`: its named variables.
#[derive(Debug, Clone, PartialEq, Eq)]
pub struct NixEnvOutput {
    pub variables: Vec<(String, NixVariable)>,
}

/// The exported string variables among `vars`, in order.
pub open spec fn exported_spec(vars: Seq<(String, NixVariable)>) -> Seq<(Seq<char>, Seq<char>)>
    decreases vars.len(),
{
    if vars.len() == 0 {
        seq![]
    } else {
        let prev = exported_spec(vars.drop_last());
        let (name, var) = vars.last();
        if var.var_type@ == "exported"@ {
            match var.value {
                Some(NixValue::String(s)) => prev.push((name@, s@)),
                _ => prev,
            }
        } else {
            prev
        }
    }
}

/// The environment a nix dev shell exports: the variables of type `exported` whose
/// value is a string.
pub fn exported_nix_vars(output: &NixEnvOutput) -> (r: Vec<(String, String)>)
    ensures
        pairs_view(r@) == exported_spec(output.variables@),
{
    let vars = &output.variables;
    let mut out: Vec<(String, String)> = Vec::new();
    let mut i: usize = 0;
    while i < vars.len()
        invariant
            i <= vars.len(),
            vars == &output.variables,
            pairs_view(out@) == exported_spec(vars@.take(i as int)),
        decreases vars.len() - i,
    {
        assert(vars@.take(i + 1).drop_last() =~= vars@.take(i as int));
        let (name, var) = &vars[i];
        if str_eq(var.var_type.as_str(), "exported") {
            match &var.value {
                Some(NixValue::String(s)) => {
                    let ghost before = out@;
                    out.push((name.clone(), s.clone()));
                    assert(pairs_view(out@) =~= pairs_view(before).push((name@, s@)));
                },
                _ => {},
            }
        }
        i = i + 1;
    }
    assert(vars@.take(vars.len() as int) =~= vars@);
    out
}

/// A variable as read from `nix print-dev-env --json`: its name, its `type` when
/// that is a string, and its `value` when present (a string, or anything else).
pub type NixEntry = (String, Option<String>, Option<NixValue>);

pub open spec fn nix_value_view(v: Option<NixValue>) -> Option<Option<Seq<char>>> {
    match v {
        Some(NixValue::String(s)) => Some(Some(s@)),
        Some(NixValue::Other) => Some(None),
        None => None,
    }
}

pub open spec fn nix_entry_view(e: NixEntry) -> (Seq<char>, Option<Seq<char>>, Option<Option<Seq<char>>>) {
    (e.0@, match e.1 {
        Some(t) => Some(t@),
        None => None,
    }, nix_value_view(e.2))
}

/// What `serde_json::from_str` reads from a text as a `serde_json::Value`, taken
/// apart as nix's dev-env output: `None` when the text is not JSON; `Some(None)`
/// when it has no object under `variables`; else each entry of that object in the
/// order the object lists them, with its `type` (when a string) and its `value`
/// (`Some(Some(s))` for a string `s`, `Some(None)` for any other value, `null`
/// included, and `None` when absent).
pub uninterp spec fn nix_dev_env_json(text: Seq<char>) -> Option<
    Option<Seq<(Seq<char>, Option<Seq<char>>, Option<Option<Seq<char>>>)>>,
>;

/// Reads a text with `serde_json::from_str` into a `serde_json::Value` and lists
/// the entries of its `variables` object with `get`, `as_object` and `as_str`. The
/// error's message is serde_json's.
#[verifier::external_body]
fn read_nix_entries(text: &str) -> (r: Result<Option<Vec<NixEntry>>, String>)
    ensures
        match r {
            Ok(Some(v)) => nix_dev_env_json(text@) == Some(
                Some(v@.map_values(|e: NixEntry| nix_entry_view(e))),
            ),
            Ok(None) => nix_dev_env_json(text@) == Some(
                None::<Seq<(Seq<char>, Option<Seq<char>>, Option<Option<Seq<char>>>)>>,
            ),
            Err(_) => nix_dev_env_json(text@) is None,
        },
{
    let value: serde_json::Value = serde_json::from_str(text).map_err(|e| e.to_string())?;
    Ok(value.get("variables").and_then(|v| v.as_object()).map(|vars| vars.iter().map(|(name, v)| (
        name.clone(),
        v.get("type").and_then(|t| t.as_str()).map(|t| t.to_string()),
        v.get("value").map(|x| match x {
            serde_json::Value::String(s) => NixValue::String(s.clone()),
            _ => NixValue::Other,
        }),
    )).collect()))
}

/// The exported string variables of nix's dev-env entries, in order; `None` when
/// an entry has no string `type`.
pub open spec fn nix_exported_entries(
    entries: Seq<(Seq<char>, Option<Seq<char>>, Option<Option<Seq<char>>>)>,
) -> Option<Seq<(Seq<char>, Seq<char>)>>
    decreases entries.len(),
{
    if entries.len() == 0 {
        Some(seq![])
    } else {
        let (name, var_type, value) = entries.last();
        match nix_exported_entries(entries.drop_last()) {
            None => None,
            Some(prev) => match var_type {
                None => None,
                Some(t) => if t == "exported"@ {
                    match value {
                        Some(Some(s)) => Some(prev.push((name, s))),
                        _ => Some(prev),
                    }
                } else {
                    Some(prev)
                },
            },
        }
    }
}

/// Whether `e` is the nix parse error for `trimmed`.
pub open spec fn is_nix_parse_error(e: EnvLoaderError, trimmed: Seq<char>) -> bool {
    e matches EnvLoaderError::ParseJson { loader, output, .. } && loader@ == "nix"@ && output@
        == trimmed
}

/// Reads `nix print-dev-env --json` output (trimmed first) and keeps the variables
/// of type `exported` whose value is a string. Fails when the text is not JSON,
/// has no `variables` object, or holds a variable without a string `type`.
pub fn parse_nix_json(output: &str) -> (r: Result<Vec<(String, String)>, EnvLoaderError>)
    ensures
        match nix_dev_env_json(trim_spec(output@)) {
            Some(Some(entries)) => match nix_exported_entries(entries) {
                Some(vars) => r matches Ok(v) && pairs_view(v@) == vars,
                None => r matches Err(e) && is_nix_parse_error(e, trim_spec(output@))
                    && e->ParseJson_message@ == "missing field `type`"@,
            },
            Some(None) => r matches Err(e) && is_nix_parse_error(e, trim_spec(output@))
                && e->ParseJson_message@ == "missing field `variables`"@,
            None => r matches Err(e) && is_nix_parse_error(e, trim_spec(output@)),
        },
{
    let trimmed = trim(output);
    let entries = match read_nix_entries(trimmed.as_str()) {
        Ok(Some(entries)) => entries,
        Ok(None) => {
            return Err(nix_parse_error(trimmed.as_str(), "missing field `variables`"));
        },
        Err(message) => {
            return Err(nix_parse_error(trimmed.as_str(), message.as_str()));
        },
    };
    let ghost all = entries@.map_values(|e: NixEntry| nix_entry_view(e));
    let mut out: Vec<(String, String)> = Vec::new();
    let mut i: usize = 0;
    while i < entries.len()
        invariant
            i <= entries.len(),
            all == entries@.map_values(|e: NixEntry| nix_entry_view(e)),
            trimmed@ == trim_spec(output@),
            nix_dev_env_json(trim_spec(output@)) == Some(Some(all)),
            nix_exported_entries(all.take(i as int)) == Some(pairs_view(out@)),
        decreases entries.len() - i,
    {
        assert(all.take(i + 1).drop_last() =~= all.take(i as int));
        assert(all.take(i + 1).last() == nix_entry_view(entries@[i as int]));
        let entry = &entries[i];
        match &entry.1 {
            None => {
                proof {
                    lemma_exported_entries_none_extends(all, i as int + 1);
                }
                return Err(nix_parse_error(trimmed.as_str(), "missing field `type`"));
            },
            Some(t) => {
                if str_eq(t.as_str(), "exported") {
                    match &entry.2 {
                        Some(NixValue::String(s)) => {
                            let ghost before = out@;
                            out.push((entry.0.clone(), s.clone()));
                            assert(pairs_view(out@) =~= pairs_view(before).push((entry.0@, s@)));
                        },
                        _ => {},
                    }
                }
            },
        }
        i = i + 1;
    }
    assert(all.take(entries.len() as int) =~= all);
    Ok(out)
}

/// Once a prefix of the entries fails, every longer prefix fails too.
proof fn lemma_exported_entries_none_extends(
    all: Seq<(Seq<char>, Option<Seq<char>>, Option<Option<Seq<char>>>)>,
    n: int,
)
    requires
        0 <= n <= all.len(),
        nix_exported_entries(all.take(n)) is None,
    ensures
        nix_exported_entries(all) is None,
    decreases all.len() - n,
{
    if n < all.len() {
        assert(all.take(n + 1).drop_last() =~= all.take(n));
        lemma_exported_entries_none_extends(all, n + 1);
    } else {
        assert(all.take(n) =~= all);
    }
}

/// The error for `nix print-dev-env --json` output (already trimmed) that is not
/// the expected JSON.
pub fn nix_parse_error(trimmed_output: &str, message: &str) -> (e: EnvLoaderError)
    ensures
        e matches EnvLoaderError::ParseJson { loader, output, message: m } && loader@ == "nix"@
            && output@ == trimmed_output@ && m@ == message@,
{
    EnvLoaderError::ParseJson {
        loader: owned("nix"),
        output: owned(trimmed_output),
        message: owned(message),
    }
}

} // verus!
