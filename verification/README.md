# odysseus_desktop

The decisions of the Odysseus desktop shell, verified with Verus: where the
repository, the runtime, the data and the bundled server are found, when an
installed copy is refreshed, how a Python 3.11+ interpreter is chosen, what
first-time setup prints and how its credentials are read back, and how the
local server is brought up (a state machine in `src/startup.rs` that the shell
drives one event at a time).

- `src/` — the verified library.
- `tests/` — tests run against the compiled library.
- `app/` — the Tauri shell around it: windows, tray, processes, files and
  HTTP health checks. It hands the library plain values and performs what the
  library asks for.
