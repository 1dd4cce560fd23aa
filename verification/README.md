# chiploom_core

The core of Chip Loom, an integrated MCU development toolchain, written in
Verus: every decision the `chiploom` command line and its editor integration
make is a function here with its contract proved.

## Layout

- `src/config/` — layered configuration: the resolved model, the partial
  layers and how they merge, the decoding of a TOML document into a layer, and
  the loader that combines defaults, the user-global file, the project file,
  `CHIPLOOM_*` variables and command-line flags.
- `src/paths.rs` — storage locations, path joining and parents by the rules
  of POSIX or Windows, and project discovery.
- `src/doctor/` — the diagnostics report and each check, from what was found
  on the machine.
- `src/ipc/` — the Core IPC protocol (JSON-RPC 2.0 over stdio): its content
  types and the session state machine.
- `src/render.rs` — the terminal text of every command.
- `src/cli.rs`, `src/logging.rs` — what the global options and the logging
  configuration mean.
- `src/error.rs`, `src/version.rs`, `src/text.rs` — failures and exit codes,
  build provenance, and the string operations the rest is built from.
- `app/` — the `chiploom` binary: argument parsing, reading the machine and
  its files, JSON and TOML encoding, logging, and the stdio transport.
- `tests/` — tests of the library on concrete values.

Verus checks everything under `src/`; the laws the library promises are
public proof functions next to the functions they speak of.
