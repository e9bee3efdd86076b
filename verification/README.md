# eh

`eh` is a multicall helper for common Nix commands (`build`, `run`, `shell`,
`develop`, plus `info`, `update` and `comma`). It retries a package that
nixpkgs refuses as unfree, insecure or broken with `--impure` and the matching
`NIXPKGS_ALLOW_*=1`, and it can fix a reported hash mismatch directly in the
local `.nix` files.

The decisions are a library verified with Verus. The program around it
parses the command line and configuration files, runs processes, asks the
user, reads and writes files, and carries out the steps the library decides
on.

## Layout

- `src/` — the verified library.
  - `retry_flow.rs`, `guarded_run.rs`: the retrying runs as state machines.
    Each step takes the state and what happened last, and gives the next
    state, the action to perform (run, capture, ask, fix hashes, show the
    failure, finish) and the messages to log. Laws at the end of each file.
  - `nix_command.rs`, `command.rs`, `nix_config.rs`: command lines and how
    the configuration changes them.
  - `patterns.rs`, `hash.rs`, `suggestions.rs`: reading hashes and
    suggestions out of nix's error output, and rewriting hash attributes.
  - `eh_config.rs`, `strmap.rs`: configuration and its resolution per command.
  - `eval.rs`, `info.rs`, `update.rs`, `comma.rs`, `eh_locate.rs`,
    `commands.rs`, `cli.rs`: the subcommands.
  - `text.rs`, `order.rs`, `json.rs`: strings, ordering, JSON documents.
  - `eh_error.rs`, `error.rs`: errors, exit codes, hints and messages.
- `app/` — the executable: argument parsing, configuration files, running
  processes, prompts and colored output.
- `tests/` — tests of the library.
