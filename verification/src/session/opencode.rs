//! Launching opencode: the environment a run gets, its command line, how the
//! binary is found, and what the session listing says about the run.

use vstd::prelude::*;
use vstd::string::*;

use crate::config::Config;
use crate::envmap::{map_of, EnvMap};
use crate::session::opencode_errors::OpencodeError;
use crate::session::worktree::{join_path, join_spec};
use crate::text::{
    contains, contains_spec, join, join_strings, opt_view, split_char, split_spec, str_eq, views,
};

verus! {

// ---------------------------------------------------------------------------
// Protected runtime variables
// ---------------------------------------------------------------------------

/// The variables that an env loader may not override: opencode's runtime needs
/// the service's own values for them.
pub open spec fn protected_runtime_var(name: Seq<char>) -> bool {
    ||| name == "HOME"@
    ||| name == "XDG_DATA_HOME"@
    ||| name == "XDG_CONFIG_HOME"@
    ||| name == "XDG_CACHE_HOME"@
    ||| name == "BUN_INSTALL_CACHE_DIR"@
    ||| name == "TMPDIR"@
    ||| name == "TMP"@
    ||| name == "TEMP"@
    ||| name == "NIX_ENFORCE_PURITY"@
    ||| name == "OPENCODE_CONFIG_DIR"@
}

/// Whether `name` is one of the protected runtime variables.
pub fn is_protected_runtime_var(name: &str) -> (r: bool)
    ensures
        r == protected_runtime_var(name@),
{
    str_eq(name, "HOME") || str_eq(name, "XDG_DATA_HOME") || str_eq(name, "XDG_CONFIG_HOME")
        || str_eq(name, "XDG_CACHE_HOME") || str_eq(name, "BUN_INSTALL_CACHE_DIR") || str_eq(
        name,
        "TMPDIR",
    ) || str_eq(name, "TMP") || str_eq(name, "TEMP") || str_eq(name, "NIX_ENFORCE_PURITY")
        || str_eq(name, "OPENCODE_CONFIG_DIR")
}

/// `m` with the env loader's variables applied in order, the protected ones left out.
pub open spec fn apply_extras(
    m: Map<Seq<char>, Seq<char>>,
    extras: Seq<(String, String)>,
) -> Map<Seq<char>, Seq<char>>
    decreases extras.len(),
{
    if extras.len() == 0 {
        m
    } else {
        let prev = apply_extras(m, extras.drop_last());
        if protected_runtime_var(extras.last().0@) {
            prev
        } else {
            prev.insert(extras.last().0@, extras.last().1@)
        }
    }
}

/// The env loader's assignments to protected variables, as `NAME=value`, in order.
pub open spec fn blocked_overrides_spec(extras: Seq<(String, String)>) -> Seq<Seq<char>>
    decreases extras.len(),
{
    if extras.len() == 0 {
        seq![]
    } else {
        let prev = blocked_overrides_spec(extras.drop_last());
        if protected_runtime_var(extras.last().0@) {
            prev.push(extras.last().0@ + "="@ + extras.last().1@)
        } else {
            prev
        }
    }
}

/// The env loader's assignments that were ignored because they name a protected
/// variable, each as `NAME=value`.
pub fn blocked_runtime_overrides(extras: &Vec<(String, String)>) -> (r: Vec<String>)
    ensures
        views(r@) == blocked_overrides_spec(extras@),
{
    let mut out: Vec<String> = Vec::new();
    let mut i: usize = 0;
    while i < extras.len()
        invariant
            i <= extras.len(),
            views(out@) == blocked_overrides_spec(extras@.take(i as int)),
        decreases extras.len() - i,
    {
        assert(extras@.take(i + 1).drop_last() =~= extras@.take(i as int));
        if is_protected_runtime_var(extras[i].0.as_str()) {
            let mut entry = extras[i].0.clone();
            entry.append("=");
            entry.append(extras[i].1.as_str());
            let ghost before = out@;
            out.push(entry);
            assert(views(out@) =~= views(before).push(entry@));
        }
        i = i + 1;
    }
    assert(extras@.take(extras.len() as int) =~= extras@);
    out
}

// ---------------------------------------------------------------------------
// PATH
// ---------------------------------------------------------------------------

/// `acc` with the `PATH` entry `e` added, unless it is empty or already present.
pub open spec fn add_path_entry(acc: Seq<Seq<char>>, e: Seq<char>) -> Seq<Seq<char>> {
    if e.len() == 0 || acc.contains(e) {
        acc
    } else {
        acc.push(e)
    }
}

/// `acc` with each of `entries` added in order.
pub open spec fn add_path_entries(acc: Seq<Seq<char>>, entries: Seq<Seq<char>>) -> Seq<Seq<char>>
    decreases entries.len(),
{
    if entries.len() == 0 {
        acc
    } else {
        add_path_entry(add_path_entries(acc, entries.drop_last()), entries.last())
    }
}

/// The entries of the `PATH` a run gets: those of `current` (after the env loader),
/// then those of the service's `base`, without empty entries or repeats.
pub open spec fn merged_path_entries(current: Seq<char>, base: Seq<char>) -> Seq<Seq<char>> {
    add_path_entries(add_path_entries(seq![], split_spec(current, ':')), split_spec(base, ':'))
}

fn contains_string(v: &Vec<String>, s: &str) -> (r: bool)
    ensures
        r == views(v@).contains(s@),
{
    let mut i: usize = 0;
    while i < v.len()
        invariant
            i <= v.len(),
            forall|j: int| 0 <= j < i ==> v@[j]@ != s@,
        decreases v.len() - i,
    {
        if str_eq(v[i].as_str(), s) {
            assert(views(v@)[i as int] == s@);
            return true;
        }
        i = i + 1;
    }
    assert forall|j: int| 0 <= j < views(v@).len() implies views(v@)[j] != s@ by {
        assert(views(v@)[j] == v@[j]@);
    }
    false
}

fn add_entries(acc: &mut Vec<String>, entries: &Vec<String>)
    ensures
        views(final(acc)@) == add_path_entries(views(old(acc)@), views(entries@)),
{
    let ghost start = views(acc@);
    let mut i: usize = 0;
    while i < entries.len()
        invariant
            i <= entries.len(),
            views(acc@) == add_path_entries(start, views(entries@.take(i as int))),
        decreases entries.len() - i,
    {
        assert(views(entries@.take(i + 1)).drop_last() =~= views(entries@.take(i as int)));
        assert(views(entries@.take(i + 1)).last() == entries@[i as int]@);
        let e = entries[i].as_str();
        if e.unicode_len() != 0 && !contains_string(acc, e) {
            let ghost before = acc@;
            acc.push(entries[i].clone());
            assert(views(acc@) =~= views(before).push(entries@[i as int]@));
        }
        i = i + 1;
    }
    assert(entries@.take(entries.len() as int) =~= entries@);
}

/// The entries of the merged `PATH`, in order.
pub fn merge_path_entries(current: &str, base: &str) -> (r: Vec<String>)
    ensures
        views(r@) == merged_path_entries(current@, base@),
{
    let mut acc: Vec<String> = Vec::new();
    assert(views(acc@) =~= Seq::<Seq<char>>::empty());
    add_entries(&mut acc, &split_char(current, ':'));
    add_entries(&mut acc, &split_char(base, ':'));
    acc
}

// ---------------------------------------------------------------------------
// The environment of a run
// ---------------------------------------------------------------------------

/// The value of `name` in `m`, or empty.
pub open spec fn value_or_empty(m: Map<Seq<char>, Seq<char>>, name: Seq<char>) -> Seq<char> {
    if m.contains_key(name) {
        m[name]
    } else {
        seq![]
    }
}

/// `m` with `name` set to the service's value, where the service has one.
pub open spec fn keep_service_value(
    m: Map<Seq<char>, Seq<char>>,
    service: Map<Seq<char>, Seq<char>>,
    name: Seq<char>,
) -> Map<Seq<char>, Seq<char>> {
    if service.contains_key(name) {
        m.insert(name, service[name])
    } else {
        m
    }
}

/// The service's value of `name`, or `/tmp`.
pub open spec fn temp_dir_value(service: Map<Seq<char>, Seq<char>>, name: Seq<char>) -> Seq<char> {
    if service.contains_key(name) {
        service[name]
    } else {
        "/tmp"@
    }
}

/// The settings that a run adds on top of the service's environment and the env
/// loader's output.
pub struct RunSettings {
    pub forgejo_url: String,
    pub forgejo_token: String,
    pub repo_full_name: String,
    pub config_dir: String,
    pub askpass_path: String,
}

/// The environment an opencode run gets, built in this order: the service's
/// environment; the env loader's variables, the protected ones left out; `PATH`
/// merged from the result and the service's `PATH`; the `FORGEBOT_*`,
/// `OPENCODE_CONFIG_DIR` and git prompt variables; the service's own home, XDG and
/// Bun cache variables where it has them; and the temp directory variables, which
/// fall back to `/tmp`.
pub open spec fn run_env_spec(
    process: Seq<(String, String)>,
    extras: Seq<(String, String)>,
    s: RunSettings,
) -> Map<Seq<char>, Seq<char>> {
    let service = map_of(process);
    let with_extras = apply_extras(service, extras);
    let merged = merged_path_entries(
        value_or_empty(with_extras, "PATH"@),
        value_or_empty(service, "PATH"@),
    );
    let with_path = if merged.len() == 0 {
        with_extras
    } else {
        with_extras.insert("PATH"@, join(merged, ":"@))
    };
    let with_settings = with_path.insert("FORGEBOT_FORGEJO_URL"@, s.forgejo_url@).insert(
        "FORGEBOT_FORGEJO_TOKEN"@,
        s.forgejo_token@,
    ).insert("FORGEBOT_REPO"@, s.repo_full_name@).insert(
        "OPENCODE_CONFIG_DIR"@,
        s.config_dir@,
    ).insert("GIT_TERMINAL_PROMPT"@, "0"@).insert("GIT_ASKPASS"@, s.askpass_path@).insert(
        "SSH_ASKPASS"@,
        s.askpass_path@,
    );
    let with_service = keep_service_value(
        keep_service_value(
            keep_service_value(
                keep_service_value(
                    keep_service_value(with_settings, service, "HOME"@),
                    service,
                    "XDG_DATA_HOME"@,
                ),
                service,
                "XDG_CONFIG_HOME"@,
            ),
            service,
            "XDG_CACHE_HOME"@,
        ),
        service,
        "BUN_INSTALL_CACHE_DIR"@,
    );
    with_service.insert("TMPDIR"@, temp_dir_value(service, "TMPDIR"@)).insert(
        "TMP"@,
        temp_dir_value(service, "TMP"@),
    ).insert("TEMP"@, temp_dir_value(service, "TEMP"@))
}

fn set_var(env: &mut EnvMap, name: &str, value: &str)
    ensures
        final(env)@ == old(env)@.insert(name@, value@),
{
    env.insert(name.to_string(), value.to_string());
}

fn keep_service_var(env: &mut EnvMap, service: &EnvMap, name: &str)
    ensures
        final(env)@ == keep_service_value(old(env)@, service@, name@),
{
    match service.get(name) {
        Some(v) => env.insert(name.to_string(), v),
        None => {},
    }
}

fn temp_dir_var(service: &EnvMap, name: &str) -> (r: String)
    ensures
        r@ == temp_dir_value(service@, name@),
{
    match service.get(name) {
        Some(v) => v,
        None => "/tmp".to_string(),
    }
}

/// Builds the environment of an opencode run from the service's environment
/// `process` and the env loader's output `extras`.
pub fn build_run_env(
    process: &Vec<(String, String)>,
    extras: &Vec<(String, String)>,
    settings: &RunSettings,
) -> (r: EnvMap)
    ensures
        r@ == run_env_spec(process@, extras@, *settings),
{
    let service = EnvMap::copy_of(process);
    let mut env = EnvMap::copy_of(process);
    let mut i: usize = 0;
    while i < extras.len()
        invariant
            i <= extras.len(),
            service@ == map_of(process@),
            env@ == apply_extras(map_of(process@), extras@.take(i as int)),
        decreases extras.len() - i,
    {
        assert(extras@.take(i + 1).drop_last() =~= extras@.take(i as int));
        if !is_protected_runtime_var(extras[i].0.as_str()) {
            env.insert(extras[i].0.clone(), extras[i].1.clone());
        }
        i = i + 1;
    }
    assert(extras@.take(extras.len() as int) =~= extras@);
    let current_path = match env.get("PATH") {
        Some(p) => p,
        None => String::new(),
    };
    let base_path = match service.get("PATH") {
        Some(p) => p,
        None => String::new(),
    };
    let merged = merge_path_entries(current_path.as_str(), base_path.as_str());
    if merged.len() > 0 {
        let joined = join_strings(&merged, ":");
        env.insert("PATH".to_string(), joined);
    }
    set_var(&mut env, "FORGEBOT_FORGEJO_URL", settings.forgejo_url.as_str());
    set_var(&mut env, "FORGEBOT_FORGEJO_TOKEN", settings.forgejo_token.as_str());
    set_var(&mut env, "FORGEBOT_REPO", settings.repo_full_name.as_str());
    set_var(&mut env, "OPENCODE_CONFIG_DIR", settings.config_dir.as_str());
    set_var(&mut env, "GIT_TERMINAL_PROMPT", "0");
    set_var(&mut env, "GIT_ASKPASS", settings.askpass_path.as_str());
    set_var(&mut env, "SSH_ASKPASS", settings.askpass_path.as_str());
    keep_service_var(&mut env, &service, "HOME");
    keep_service_var(&mut env, &service, "XDG_DATA_HOME");
    keep_service_var(&mut env, &service, "XDG_CONFIG_HOME");
    keep_service_var(&mut env, &service, "XDG_CACHE_HOME");
    keep_service_var(&mut env, &service, "BUN_INSTALL_CACHE_DIR");
    let tmpdir = temp_dir_var(&service, "TMPDIR");
    set_var(&mut env, "TMPDIR", tmpdir.as_str());
    let tmp = temp_dir_var(&service, "TMP");
    set_var(&mut env, "TMP", tmp.as_str());
    let temp = temp_dir_var(&service, "TEMP");
    set_var(&mut env, "TEMP", temp.as_str());
    env
}

// ---------------------------------------------------------------------------
// Laws of the run environment
// ---------------------------------------------------------------------------

proof fn lemma_apply_extras_keeps_protected(
    m: Map<Seq<char>, Seq<char>>,
    extras: Seq<(String, String)>,
    name: Seq<char>,
)
    requires
        protected_runtime_var(name),
    ensures
        apply_extras(m, extras).contains_key(name) == m.contains_key(name),
        m.contains_key(name) ==> apply_extras(m, extras)[name] == m[name],
    decreases extras.len(),
{
    if extras.len() > 0 {
        lemma_apply_extras_keeps_protected(m, extras.drop_last(), name);
    }
}

proof fn lemma_protected_names_differ_from_path()
    ensures
        !protected_runtime_var("PATH"@),
{
    reveal_strlit("PATH");
    reveal_strlit("HOME");
    reveal_strlit("XDG_DATA_HOME");
    reveal_strlit("XDG_CONFIG_HOME");
    reveal_strlit("XDG_CACHE_HOME");
    reveal_strlit("BUN_INSTALL_CACHE_DIR");
    reveal_strlit("TMPDIR");
    reveal_strlit("TMP");
    reveal_strlit("TEMP");
    reveal_strlit("NIX_ENFORCE_PURITY");
    reveal_strlit("OPENCODE_CONFIG_DIR");
    assert("PATH"@.len() != "HOME"@.len() || "PATH"@[0] != "HOME"@[0]);
}

/// Whatever the env loader outputs, it cannot change a protected runtime
/// variable: two runs that differ only in the loader's output agree on every
/// protected variable.
pub proof fn law_loader_cannot_set_protected_vars(
    process: Seq<(String, String)>,
    extras1: Seq<(String, String)>,
    extras2: Seq<(String, String)>,
    s: RunSettings,
    name: Seq<char>,
)
    requires
        protected_runtime_var(name),
    ensures
        run_env_spec(process, extras1, s).contains_key(name) == run_env_spec(
            process,
            extras2,
            s,
        ).contains_key(name),
        run_env_spec(process, extras1, s).contains_key(name) ==> run_env_spec(
            process,
            extras1,
            s,
        )[name] == run_env_spec(process, extras2, s)[name],
{
    let service = map_of(process);
    lemma_apply_extras_keeps_protected(service, extras1, name);
    lemma_apply_extras_keeps_protected(service, extras2, name);
    lemma_protected_names_differ_from_path();
}

/// A run's `FORGEBOT_*` variables, `OPENCODE_CONFIG_DIR` and git prompt variables
/// are the configured values, whatever the service environment and the env loader
/// hold.
pub proof fn law_run_settings_win(
    process: Seq<(String, String)>,
    extras: Seq<(String, String)>,
    s: RunSettings,
)
    ensures
        run_env_spec(process, extras, s)["FORGEBOT_FORGEJO_URL"@] == s.forgejo_url@,
        run_env_spec(process, extras, s)["FORGEBOT_FORGEJO_TOKEN"@] == s.forgejo_token@,
        run_env_spec(process, extras, s)["FORGEBOT_REPO"@] == s.repo_full_name@,
        run_env_spec(process, extras, s)["OPENCODE_CONFIG_DIR"@] == s.config_dir@,
        run_env_spec(process, extras, s)["GIT_TERMINAL_PROMPT"@] == "0"@,
        run_env_spec(process, extras, s)["GIT_ASKPASS"@] == s.askpass_path@,
        run_env_spec(process, extras, s)["SSH_ASKPASS"@] == s.askpass_path@,
{
    reveal_strlit("FORGEBOT_FORGEJO_URL");
    reveal_strlit("FORGEBOT_FORGEJO_TOKEN");
    reveal_strlit("FORGEBOT_REPO");
    reveal_strlit("OPENCODE_CONFIG_DIR");
    reveal_strlit("GIT_TERMINAL_PROMPT");
    reveal_strlit("GIT_ASKPASS");
    reveal_strlit("SSH_ASKPASS");
    reveal_strlit("HOME");
    reveal_strlit("XDG_DATA_HOME");
    reveal_strlit("XDG_CONFIG_HOME");
    reveal_strlit("XDG_CACHE_HOME");
    reveal_strlit("BUN_INSTALL_CACHE_DIR");
    reveal_strlit("TMPDIR");
    reveal_strlit("TMP");
    reveal_strlit("TEMP");
    assert("FORGEBOT_FORGEJO_URL"@.len() == 20);
    assert("FORGEBOT_FORGEJO_TOKEN"@.len() == 22);
    assert("FORGEBOT_REPO"@.len() == 13);
    assert("OPENCODE_CONFIG_DIR"@.len() == 19);
    assert("GIT_TERMINAL_PROMPT"@.len() == 19);
    assert("GIT_ASKPASS"@.len() == 11);
    assert("SSH_ASKPASS"@.len() == 11);
    assert("OPENCODE_CONFIG_DIR"@[0] != "GIT_TERMINAL_PROMPT"@[0]);
    assert("GIT_ASKPASS"@[0] != "SSH_ASKPASS"@[0]);
    assert("FORGEBOT_REPO"@[0] != "XDG_DATA_HOME"@[0]);
}

proof fn lemma_add_entry_keeps(prev: Seq<Seq<char>>, e: Seq<char>, x: Seq<char>)
    requires
        prev.contains(x),
    ensures
        add_path_entry(prev, e).contains(x),
{
    if !(e.len() == 0 || prev.contains(e)) {
        let k = choose|k: int| 0 <= k < prev.len() && prev[k] == x;
        assert(prev.push(e)[k] == x);
    }
}

proof fn lemma_add_entries_grow(acc: Seq<Seq<char>>, entries: Seq<Seq<char>>)
    ensures
        forall|x: Seq<char>| acc.contains(x) ==> #[trigger] add_path_entries(acc, entries).contains(x),
        forall|j: int|
            0 <= j < entries.len() && entries[j].len() > 0 ==> add_path_entries(
                acc,
                entries,
            ).contains(#[trigger] entries[j]),
    decreases entries.len(),
{
    if entries.len() > 0 {
        let prev = add_path_entries(acc, entries.drop_last());
        lemma_add_entries_grow(acc, entries.drop_last());
        assert forall|x: Seq<char>| acc.contains(x) implies #[trigger] add_path_entries(
            acc,
            entries,
        ).contains(x) by {
            lemma_add_entry_keeps(prev, entries.last(), x);
        }
        assert forall|j: int| 0 <= j < entries.len() && entries[j].len() > 0 implies add_path_entries(
            acc,
            entries,
        ).contains(#[trigger] entries[j]) by {
            if j < entries.len() - 1 {
                assert(entries.drop_last()[j] == entries[j]);
                lemma_add_entry_keeps(prev, entries.last(), entries[j]);
            } else {
                if !prev.contains(entries.last()) {
                    assert(prev.push(entries.last())[prev.len() as int] == entries.last());
                }
            }
        }
    }
}

/// No entry repeats and none is empty.
pub open spec fn clean_entries(v: Seq<Seq<char>>) -> bool {
    &&& forall|i: int, j: int| 0 <= i < j < v.len() ==> v[i] != v[j]
    &&& forall|i: int| 0 <= i < v.len() ==> (#[trigger] v[i]).len() > 0
}

proof fn lemma_add_entries_clean(acc: Seq<Seq<char>>, entries: Seq<Seq<char>>)
    requires
        clean_entries(acc),
    ensures
        clean_entries(add_path_entries(acc, entries)),
    decreases entries.len(),
{
    if entries.len() > 0 {
        lemma_add_entries_clean(acc, entries.drop_last());
        let prev = add_path_entries(acc, entries.drop_last());
        let e = entries.last();
        if !(e.len() == 0 || prev.contains(e)) {
            let next = prev.push(e);
            assert forall|i: int, j: int| 0 <= i < j < next.len() implies next[i] != next[j] by {
                if j == prev.len() {
                    assert(next[i] == prev[i]);
                    assert(prev.contains(prev[i]));
                }
            }
        }
    }
}

/// The merged `PATH` keeps every non-empty entry of the service's own `PATH`, and
/// also every non-empty entry of the `PATH` after the env loader, with no entry
/// twice and none empty.
pub proof fn law_merged_path_keeps_entries(current: Seq<char>, base: Seq<char>)
    ensures
        forall|j: int|
            0 <= j < split_spec(base, ':').len() && split_spec(base, ':')[j].len() > 0
                ==> merged_path_entries(current, base).contains(#[trigger] split_spec(base, ':')[j]),
        forall|j: int|
            0 <= j < split_spec(current, ':').len() && split_spec(current, ':')[j].len() > 0
                ==> merged_path_entries(current, base).contains(
                #[trigger] split_spec(current, ':')[j],
            ),
        clean_entries(merged_path_entries(current, base)),
{
    let first = add_path_entries(seq![], split_spec(current, ':'));
    lemma_add_entries_grow(seq![], split_spec(current, ':'));
    lemma_add_entries_grow(first, split_spec(base, ':'));
    assert(clean_entries(Seq::<Seq<char>>::empty()));
    lemma_add_entries_clean(seq![], split_spec(current, ':'));
    lemma_add_entries_clean(first, split_spec(base, ':'));
}

/// The run's `PATH` is the merged entries joined with `:`, whenever there is any.
pub proof fn law_run_path_is_merged(
    process: Seq<(String, String)>,
    extras: Seq<(String, String)>,
    s: RunSettings,
)
    ensures
        ({
            let service = map_of(process);
            let merged = merged_path_entries(
                value_or_empty(apply_extras(service, extras), "PATH"@),
                value_or_empty(service, "PATH"@),
            );
            merged.len() > 0 ==> run_env_spec(process, extras, s)["PATH"@] == join(merged, ":"@)
        }),
{
    reveal_strlit("PATH");
    reveal_strlit("FORGEBOT_FORGEJO_URL");
    reveal_strlit("FORGEBOT_FORGEJO_TOKEN");
    reveal_strlit("FORGEBOT_REPO");
    reveal_strlit("OPENCODE_CONFIG_DIR");
    reveal_strlit("GIT_TERMINAL_PROMPT");
    reveal_strlit("GIT_ASKPASS");
    reveal_strlit("SSH_ASKPASS");
    reveal_strlit("HOME");
    reveal_strlit("XDG_DATA_HOME");
    reveal_strlit("XDG_CONFIG_HOME");
    reveal_strlit("XDG_CACHE_HOME");
    reveal_strlit("BUN_INSTALL_CACHE_DIR");
    reveal_strlit("TMPDIR");
    reveal_strlit("TMP");
    reveal_strlit("TEMP");
    assert("PATH"@[0] != "HOME"@[0]);
    assert("PATH"@[0] != "TEMP"@[0]);
}

// ---------------------------------------------------------------------------
// A run
// ---------------------------------------------------------------------------

/// Parameters for running opencode.
pub struct RunOpencodeParams<'a> {
    pub config: &'a Config,
    pub repo_full_name: &'a str,
    pub derived_session_id: &'a str,
    pub external_opencode_session_id: Option<&'a str>,
    pub agent_mode: &'a str,
    pub model: &'a str,
    pub worktree_path: &'a str,
    pub prompt: &'a str,
    pub env_extras: Vec<(String, String)>,
}

/// The view of an optional string slice.
pub open spec fn opt_str_view(o: Option<&str>) -> Option<Seq<char>> {
    match o {
        Some(s) => Some(s@),
        None => None,
    }
}

/// `opencode run --agent A --model M --title T [--session S] --dir W PROMPT`: a
/// new session titled `T`, or a continuation of session `S`.
pub open spec fn run_args_spec(
    agent_mode: Seq<char>,
    model: Seq<char>,
    title: Seq<char>,
    external_session_id: Option<Seq<char>>,
    worktree_path: Seq<char>,
    prompt: Seq<char>,
) -> Seq<Seq<char>> {
    seq!["run"@, "--agent"@, agent_mode, "--model"@, model, "--title"@, title] + match external_session_id {
        Some(id) => seq!["--session"@, id],
        None => seq![],
    } + seq!["--dir"@, worktree_path, prompt]
}

fn push_str(v: &mut Vec<String>, s: &str)
    ensures
        views(final(v)@) == views(old(v)@).push(s@),
{
    let ghost before = v@;
    v.push(s.to_string());
    assert(views(v@) =~= views(before).push(s@));
}

/// The arguments of an opencode run.
pub fn opencode_run_args(
    agent_mode: &str,
    model: &str,
    title: &str,
    external_session_id: Option<&str>,
    worktree_path: &str,
    prompt: &str,
) -> (r: Vec<String>)
    ensures
        views(r@) == run_args_spec(
            agent_mode@,
            model@,
            title@,
            opt_str_view(external_session_id),
            worktree_path@,
            prompt@,
        ),
{
    let mut v: Vec<String> = Vec::new();
    assert(views(v@) =~= Seq::<Seq<char>>::empty());
    push_str(&mut v, "run");
    push_str(&mut v, "--agent");
    push_str(&mut v, agent_mode);
    push_str(&mut v, "--model");
    push_str(&mut v, model);
    push_str(&mut v, "--title");
    push_str(&mut v, title);
    match external_session_id {
        Some(id) => {
            push_str(&mut v, "--session");
            push_str(&mut v, id);
        },
        None => {},
    }
    push_str(&mut v, "--dir");
    push_str(&mut v, worktree_path);
    push_str(&mut v, prompt);
    assert(views(v@) =~= run_args_spec(
        agent_mode@,
        model@,
        title@,
        opt_str_view(external_session_id),
        worktree_path@,
        prompt@,
    ));
    v
}

/// `opencode session list --format json -n 5`: the five most recent sessions.
pub fn session_list_args() -> (r: Vec<String>)
    ensures
        views(r@) == seq!["session"@, "list"@, "--format"@, "json"@, "-n"@, "5"@],
{
    let mut v: Vec<String> = Vec::new();
    assert(views(v@) =~= Seq::<Seq<char>>::empty());
    push_str(&mut v, "session");
    push_str(&mut v, "list");
    push_str(&mut v, "--format");
    push_str(&mut v, "json");
    push_str(&mut v, "-n");
    push_str(&mut v, "5");
    v
}

/// What a run is launched with: its settings, its environment, its arguments,
/// and the env loader's assignments that were ignored.
pub struct OpencodeLaunch {
    pub settings: RunSettings,
    pub env: EnvMap,
    pub args: Vec<String>,
    pub blocked_overrides: Vec<String>,
}

/// Everything an opencode run is launched with, given the service's environment
/// `process_env` and the path of the git askpass script.
pub fn plan_opencode_run(
    params: &RunOpencodeParams,
    process_env: &Vec<(String, String)>,
    askpass_path: &str,
) -> (r: OpencodeLaunch)
    ensures
        r.settings.forgejo_url@ == params.config.forgejo.url@,
        r.settings.forgejo_token@ == params.config.forgejo.token@,
        r.settings.repo_full_name@ == params.repo_full_name@,
        r.settings.config_dir@ == params.config.opencode.config_dir@,
        r.settings.askpass_path@ == askpass_path@,
        r.env@ == run_env_spec(process_env@, params.env_extras@, r.settings),
        views(r.args@) == run_args_spec(
            params.agent_mode@,
            params.model@,
            params.derived_session_id@,
            opt_str_view(params.external_opencode_session_id),
            params.worktree_path@,
            params.prompt@,
        ),
        views(r.blocked_overrides@) == blocked_overrides_spec(params.env_extras@),
{
    let settings = RunSettings {
        forgejo_url: params.config.forgejo.url.clone(),
        forgejo_token: params.config.forgejo.token.clone(),
        repo_full_name: params.repo_full_name.to_string(),
        config_dir: params.config.opencode.config_dir.clone(),
        askpass_path: askpass_path.to_string(),
    };
    let env = build_run_env(process_env, &params.env_extras, &settings);
    let args = opencode_run_args(
        params.agent_mode,
        params.model,
        params.derived_session_id,
        params.external_opencode_session_id,
        params.worktree_path,
        params.prompt,
    );
    let blocked_overrides = blocked_runtime_overrides(&params.env_extras);
    OpencodeLaunch { settings, env, args, blocked_overrides }
}

/// The session ID a successful run reports: the one captured from the session
/// listing, else the one the run was told to continue.
pub open spec fn run_session_id_spec(
    captured: Option<Seq<char>>,
    provided: Option<Seq<char>>,
) -> Option<Seq<char>> {
    match captured {
        Some(c) => Some(c),
        None => provided,
    }
}

/// What a finished run gives: on success the opencode session ID, captured or
/// provided; else the failure with its exit code (`-1` when it has none) and output.
pub fn opencode_run_result(
    success: bool,
    exit_code: Option<i32>,
    stdout: &str,
    stderr: &str,
    captured_session_id: Option<String>,
    external_opencode_session_id: Option<&str>,
) -> (r: Result<Option<String>, OpencodeError>)
    ensures
        success ==> (r matches Ok(id) && opt_view(id) == run_session_id_spec(
            opt_view(captured_session_id),
            opt_str_view(external_opencode_session_id),
        )),
        !success ==> (r matches Err(
            OpencodeError::ProcessFailed { exit_code: code, stdout: out, stderr: err },
        ) && code == (match exit_code {
            Some(c) => c,
            None => -1i32,
        }) && out@ == stdout@ && err@ == stderr@),
{
    if success {
        match captured_session_id {
            Some(id) => Ok(Some(id)),
            None => match external_opencode_session_id {
                Some(e) => Ok(Some(e.to_string())),
                None => Ok(None),
            },
        }
    } else {
        let code = match exit_code {
            Some(c) => c,
            None => -1i32,
        };
        Err(
            OpencodeError::ProcessFailed {
                exit_code: code,
                stdout: stdout.to_string(),
                stderr: stderr.to_string(),
            },
        )
    }
}

// ---------------------------------------------------------------------------
// Finding the binary
// ---------------------------------------------------------------------------

/// The places the binary is looked for: none when it is given as a path (it holds
/// a `/`), else `binary` in each directory of `PATH`, in order.
pub open spec fn binary_candidates_spec(binary: Seq<char>, path_var: Seq<char>) -> Option<
    Seq<Seq<char>>,
> {
    if contains_spec(binary, "/"@) {
        None
    } else {
        Some(split_spec(path_var, ':').map_values(|dir: Seq<char>| join_spec(dir, binary)))
    }
}

/// The places the opencode binary is looked for.
pub fn binary_candidates(binary: &str, path_var: &str) -> (r: Option<Vec<String>>)
    ensures
        match r {
            Some(v) => binary_candidates_spec(binary@, path_var@) == Some(views(v@)),
            None => binary_candidates_spec(binary@, path_var@) is None,
        },
{
    if contains(binary, "/") {
        return None;
    }
    let dirs = split_char(path_var, ':');
    let ghost f = |dir: Seq<char>| join_spec(dir, binary@);
    let mut out: Vec<String> = Vec::new();
    let mut i: usize = 0;
    while i < dirs.len()
        invariant
            i <= dirs.len(),
            views(out@) == views(dirs@).take(i as int).map_values(f),
            f == (|dir: Seq<char>| join_spec(dir, binary@)),
        decreases dirs.len() - i,
    {
        let c = join_path(dirs[i].as_str(), binary);
        let ghost before = out@;
        out.push(c);
        assert(views(out@) =~= views(before).push(c@));
        assert(views(dirs@).take(i + 1) =~= views(dirs@).take(i as int).push(dirs@[i as int]@));
        assert(views(dirs@).take(i + 1).map_values(f) =~= views(dirs@).take(i as int).map_values(
            f,
        ).push(f(dirs@[i as int]@)));
        i = i + 1;
    }
    assert(views(dirs@).take(dirs.len() as int) =~= views(dirs@));
    Some(out)
}

/// The first candidate that exists.
pub open spec fn first_existing(candidates: Seq<Seq<char>>, exists: Seq<bool>) -> Option<Seq<char>>
    decreases candidates.len(),
{
    if candidates.len() == 0 || exists.len() == 0 {
        None
    } else if exists[0] {
        Some(candidates[0])
    } else {
        first_existing(candidates.drop_first(), exists.drop_first())
    }
}

/// The binary chosen is the first candidate, in `PATH` order, that exists: when
/// candidate `j` exists and none before it does, it is chosen; when no candidate
/// exists, none is.
pub proof fn law_first_existing_candidate_is_chosen(
    candidates: Seq<Seq<char>>,
    exists: Seq<bool>,
    j: int,
)
    ensures
        0 <= j < candidates.len() && j < exists.len() && exists[j] && (forall|k: int|
            0 <= k < j ==> !#[trigger] exists[k]) ==> first_existing(candidates, exists) == Some(
            candidates[j],
        ),
        (forall|k: int| 0 <= k < candidates.len() && k < exists.len() ==> !#[trigger] exists[k])
            ==> first_existing(candidates, exists) is None,
    decreases candidates.len(),
{
    if candidates.len() > 0 && exists.len() > 0 {
        law_first_existing_candidate_is_chosen(candidates.drop_first(), exists.drop_first(), j - 1);
        if 0 <= j < candidates.len() && j < exists.len() && exists[j] && (forall|k: int|
            0 <= k < j ==> !#[trigger] exists[k]) && j > 0 {
            assert(!exists[0]);
            assert forall|k: int| 0 <= k < j - 1 implies !#[trigger] exists.drop_first()[k] by {
                assert(!exists[k + 1]);
            }
        }
        if forall|k: int| 0 <= k < candidates.len() && k < exists.len() ==> !#[trigger] exists[k] {
            assert(!exists[0]);
            assert forall|k: int|
                0 <= k < candidates.drop_first().len() && k < exists.drop_first().len() implies
                !#[trigger] exists.drop_first()[k] by {
                assert(!exists[k + 1]);
            }
        }
    }
}

/// The binary to run: the first candidate that exists (`exists[i]` says whether
/// `candidates[i]` does), else `binary` as given.
pub fn pick_binary(binary: &str, candidates: &Vec<String>, exists: &Vec<bool>) -> (r: String)
    ensures
        r@ == match first_existing(views(candidates@), exists@) {
            Some(c) => c,
            None => binary@,
        },
{
    let mut i: usize = 0;
    assert(views(candidates@).skip(0) =~= views(candidates@));
    assert(exists@.skip(0) =~= exists@);
    while i < candidates.len() && i < exists.len()
        invariant
            i <= candidates.len(),
            i <= exists.len(),
            first_existing(views(candidates@), exists@) == first_existing(
                views(candidates@).skip(i as int),
                exists@.skip(i as int),
            ),
        decreases candidates.len() - i,
    {
        assert(views(candidates@).skip(i as int)[0] == candidates@[i as int]@);
        if exists[i] {
            return candidates[i].clone();
        }
        assert(views(candidates@).skip(i as int).drop_first() =~= views(candidates@).skip(i + 1));
        assert(exists@.skip(i as int).drop_first() =~= exists@.skip(i + 1));
        i = i + 1;
    }
    binary.to_string()
}

// ---------------------------------------------------------------------------
// The session listing
// ---------------------------------------------------------------------------

/// One entry of opencode's session listing: its title and ID, where they are
/// strings.
#[derive(Debug, Clone, PartialEq, Eq)]
pub struct SessionListEntry {
    pub title: Option<String>,
    pub id: Option<String>,
}

pub open spec fn entry_view(e: SessionListEntry) -> (Option<Seq<char>>, Option<Seq<char>>) {
    (opt_view(e.title), opt_view(e.id))
}

/// What `serde_json::from_str` makes of opencode's session listing, read as the
/// listing: for each element of a top-level array, its `title` and `id` where they
/// are strings (no entries when the value is not an array); `None` when the text
/// is not JSON.
pub uninterp spec fn session_listing(stdout: Seq<char>) -> Option<
    Seq<(Option<Seq<char>>, Option<Seq<char>>)>,
>;

/// Reads opencode's session listing with `serde_json::from_str` into a
/// `serde_json::Value`, and takes `title` and `id` of each element of a top-level
/// array with `as_array`, `get` and `as_str`. The error's message is serde_json's.
#[verifier::external_body]
fn parse_session_listing(stdout: &str) -> (r: Result<Vec<SessionListEntry>, String>)
    ensures
        match r {
            Ok(v) => session_listing(stdout@) == Some(v@.map_values(|e: SessionListEntry| entry_view(e))),
            Err(_) => session_listing(stdout@) is None,
        },
{
    match serde_json::from_str::<serde_json::Value>(stdout) {
        Ok(value) => Ok(match value.as_array() {
            Some(items) => items.iter().map(|s| SessionListEntry {
                title: s.get("title").and_then(|t| t.as_str()).map(|t| t.to_string()),
                id: s.get("id").and_then(|i| i.as_str()).map(|i| i.to_string()),
            }).collect(),
            None => Vec::new(),
        }),
        Err(e) => Err(e.to_string()),
    }
}

/// The ID of the first listed session titled `title` that has an ID.
pub open spec fn session_id_for_title(
    entries: Seq<(Option<Seq<char>>, Option<Seq<char>>)>,
    title: Seq<char>,
) -> Option<Seq<char>>
    decreases entries.len(),
{
    if entries.len() == 0 {
        None
    } else if entries[0].0 == Some(title) && entries[0].1 is Some {
        entries[0].1
    } else {
        session_id_for_title(entries.drop_first(), title)
    }
}

/// The ID of the first listed session titled `title` that has an ID.
pub fn find_session_id_by_title(entries: &Vec<SessionListEntry>, title: &str) -> (r: Option<String>)
    ensures
        opt_view(r) == session_id_for_title(
            entries@.map_values(|e: SessionListEntry| entry_view(e)),
            title@,
        ),
{
    let ghost all = entries@.map_values(|e: SessionListEntry| entry_view(e));
    let mut i: usize = 0;
    assert(all.skip(0) =~= all);
    while i < entries.len()
        invariant
            i <= entries.len(),
            all == entries@.map_values(|e: SessionListEntry| entry_view(e)),
            session_id_for_title(all, title@) == session_id_for_title(all.skip(i as int), title@),
        decreases entries.len() - i,
    {
        assert(all.skip(i as int)[0] == entry_view(entries@[i as int]));
        let e = &entries[i];
        match (&e.title, &e.id) {
            (Some(t), Some(id)) => {
                if str_eq(t.as_str(), title) {
                    return Some(id.clone());
                }
            },
            _ => {},
        }
        assert(all.skip(i as int).drop_first() =~= all.skip(i + 1));
        i = i + 1;
    }
    assert(all.skip(i as int).len() == 0);
    None
}

/// The session ID that a run titled `title` got, read from the output of a
/// successful `opencode session list`.
pub fn captured_session_id(stdout: &str, title: &str) -> (r: Result<Option<String>, OpencodeError>)
    ensures
        match session_listing(stdout@) {
            Some(entries) => r is Ok && opt_view(r->Ok_0) == session_id_for_title(entries, title@),
            None => (r matches Err(OpencodeError::SessionListParse { output, .. }) && output@
                == stdout@),
        },
{
    match parse_session_listing(stdout) {
        Ok(entries) => Ok(find_session_id_by_title(&entries, title)),
        Err(message) => Err(OpencodeError::SessionListParse { message, output: stdout.to_string() }),
    }
}

/// The error for a failed `opencode session list`.
pub fn session_list_failure(stderr: &str) -> (e: OpencodeError)
    ensures
        e matches OpencodeError::SessionListFailed(m) && m@ == stderr@,
{
    OpencodeError::SessionListFailed(stderr.to_string())
}

} // verus!
