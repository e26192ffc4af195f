# proj

A project switcher. Given a subcommand (`go`, `open`, `new`, `go-new`,
`open-new`), it works out which project is meant, picks the shell snippet
that the TOML configuration gives for that project's language (and variant),
fills in its placeholders (`%{lang}`, `%{name}`, `%{base_dir}`, `%{path}` and
user variables `%{var}`), records the project as the most recently used one,
and prints the snippet for a runner script to execute.

Layout:

- `src/` — the verified library (Verus).
  - `config.rs`: the configuration tree, its lookups and its construction
    from TOML text.
  - `state.rs`: the record of projects, most recent first.
  - `command.rs`: placeholder substitution.
  - `handlers.rs`: the subcommands, and the line handed to the runner.
  - `value.rs`, `text.rs`, `keyed.rs`: TOML values, text rendering, keyed
    lookup.
  - `args.rs`, `errors.rs`, `constants.rs`: arguments, errors, names.
  - `external.rs`: the trusted contracts of the calls into std and into
    `aho-corasick`, `toml` and `ciborium`.
- `app/` — the executable: command-line parsing (clap), the XDG paths, and
  reading and writing files (the state file with ciborium and serde).
- `tests/` — tests of the library.
