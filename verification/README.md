# blogr

A static blog and personal-site generator with a terminal editor, a
configuration editor and a newsletter, whose logic is written in Verus and
proved against its contracts.

## Layout

- `src/` — the verified library.
  - `config.rs` — `blogr.toml` settings, defaults, validation, theme
    options and the domain rules that decide the site URL.
  - `content.rs`, `utils.rs`, `text.rs`, `time.rs` — posts, slugs,
    excerpts, reading time, text operations on character sequences, times.
  - `project.rs` — project layout, templates filled in for a new project,
    project statistics and checks.
  - `generator/` — which posts a build publishes and in which order, tag
    and archive grouping, the search index, Markdown, feeds, asset
    minification.
  - `themes/` — the bundled themes, their option schemas and templates.
  - `commands/` — the decisions behind `init`, `list`, `theme`, `config`
    and `deploy`.
  - `newsletter/` — subscribers, the approval screen, sending reports and
    rate limiting, imports from other services, plugins and their manager,
    the HTTP API's rules.
  - `tui/` — the post editor, its Markdown preview, the configuration
    editor and the interface colours, each a state machine over keys.
- `tests/` — tests of the library on concrete values.
- `app/` — the command-line program: argument parsing, files, SQLite,
  terminal drawing and the event loops that drive the library's state
  machines.

Calls into outside crates (chrono, url, uuid, pulldown-cmark, toml,
serde_json, serde_yaml, syntect) stand behind small trusted wrappers whose
contracts are documented where they are declared.

## What the program leaves out

The command-line program has no commands for building or serving the
site, deploying it, sending or fetching newsletters, or running the
newsletter's HTTP API. Those commands need page templates and network
services (a template engine, git and GitHub's API, SMTP, IMAP, an HTTP
server) that this project does not ship. The library still holds the
decisions they make: which posts a build publishes and in what order,
feeds, the search index, deploy checks and messages, subscriber selection
from fetched mail, rate limiting and the API's rules.
