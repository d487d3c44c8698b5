# forgebot

forgebot watches Forgejo repositories and runs opencode agent sessions for issues
and pull requests: a comment mentioning the bot on an issue starts or continues a
session in its own git worktree, and the bot reports back in comments.

## Layout

- `src/` is the library, written in Verus. Every function there carries a
  contract (`requires` / `ensures`) that Verus proves, and the properties that
  span several functions are stated as public proof functions whose names start
  with `law_`.
  - `config` reads the configuration from an environment snapshot.
  - `webhook` checks signatures, parses events and decides how each webhook is
    answered (including which deliveries and issues are already in flight).
  - `session` holds session states and modes, session ids, prompts, the
    environment of an agent run, the opencode command line, clone, worktree and
    repository-removal planning, and the environment loaders (direnv, nix).
  - `forgejo` builds the Forgejo API paths, request bodies and messages.
  - `db` and `ui` hold the records, names and messages of the database and the
    setup pages.
  - Calls into other crates (HMAC, hex, base64, JSON, time formatting, URL
    parsing, UUIDs) sit behind small wrappers whose contracts say what those
    crates promise.
- `app/` is the program around the library: the HTTP server, the database, the
  Forgejo and opencode clients and the subprocesses. It performs what the library
  decides and hands the results back to it.
- `tests/` runs the library on concrete values.
