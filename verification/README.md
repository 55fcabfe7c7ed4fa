# codex-nano-manager

A small manager for OpenAI-compatible endpoints used with `codex`: it keeps a
list of providers (name, base URL, API key, optional default model and notes),
offers an inline terminal page to add, edit, delete and pick them, and starts
`codex` with the chosen provider's settings.

## Layout

- `src/` is the library, verified with Verus.
  - `strmap.rs`: a map from names to values kept as a list sorted by name.
  - `config.rs`, `error.rs`: the configuration model and the error type.
  - `provider.rs`, `envkey.rs`: adding, editing and removing providers, and
    the generated `CXCM_KEY_XXXXXXXX` environment variable names.
  - `launcher.rs`: the `codex` invocation for a provider.
  - `cli.rs`: how the command line is read (manager, help, version or
    pass-through to `codex`).
  - `provider_templates.rs`: the built-in endpoint templates.
  - `selector.rs`, `ui/`: the state machines of the pickers and of the
    provider page, and the texts and rows they show.
  - `text.rs`: whitespace, case and ordering of text.
  - `laws.rs` and the `law_*` proof functions: properties that span several
    operations.
  - `lib.rs`: `App`, which carries out a page action on the configuration and
    says what outside work (saving, launching) comes next.
- `app/` is the program around it: argument parsing, the configuration file,
  the terminal, and the `codex` process.
- `tests/` exercises the library.
