# kazeta_ra

Offline RetroAchievements for Kazeta Zero: achievement definitions stored
with each cartridge (`achievements.json`), emulator memory read through
Dolphin's MemoryWatcher, and rcheevos evaluating the conditions.

## Layout

- `src/` — the library, verified with Verus.
  - `condition.rs` — scanning rcheevos condition strings for addresses.
  - `local_definitions.rs` — the definitions format and the watched words.
  - `memory.rs` — the memory snapshot, MemoryWatcher datagrams, sized
    reads and rcheevos peeks.
  - `paths.rs` — MemoryWatcher paths and the `Locations.txt` text.
  - `evaluation.rs` — the engine state and the unlock decisions.
  - `export.rs` — turning a fetched achievement set into definitions.
  - `console.rs`, `types.rs`, `cache.rs`, `rcheevos.rs` — records and
    small decisions around them.
  - `cli.rs` — what the commands decide and report.
- `tests/` — tests of the library.
- `app/` — the `kazeta-ra` program: command line, files, SQLite store,
  sockets, HTTP and the rcheevos C bindings.
