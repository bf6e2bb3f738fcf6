# Zenou Tweaks core

A Windows tuning tool whose every decision is proved with Verus: the catalog of
registry tweaks, how a tweak is applied step by step (probe, capture, write,
verify, roll back on failure), how it is restored from its captured originals,
how task and service groups are disabled and rolled back, how state is
detected, and how the reports of the fixed helper processes (powercfg,
schtasks, sc, fsutil, PowerShell) are read.

Layout:

- `src/` — the verified library. `engine.rs` holds the apply/restore state
  machine and its laws: a failed run leaves the registry as it found it and
  runs the tweak's command undo step where it has one (given a registry that
  answers every read, reverts that succeed, and original value types the
  library can name); a successful run leaves every target in place (where no
  two edits share a location); a restore puts every captured value back.
  `registry.rs` holds the value model and its encodings; `catalog.rs` and
  `catalog_ext.rs` the tweaks and the group runs (disabling a service group
  and restoring it puts every Start value from 0 to 4 back and never touches
  a service that was absent or already disabled); `backup.rs` what a backup
  records of each tweak; `ops.rs` the helper
  commands and the reading of their output; `scan.rs`,
  `journal.rs`, `settings.rs`, `cleanup.rs`, `commands.rs` the rest of the
  application's rules.
- `app/` — the host: registry and process I/O, files, the scan's Win32 calls,
  and the commands, each of which asks the library what to do.
- `tests/` — scenario tests, run against the compiled library.
