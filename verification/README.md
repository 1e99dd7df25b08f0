# Codex Lux

The verified core of a Bible study application: navigation over the 66 books,
reference parsing, quick navigation, sample texts and reading plans, Strong's
and morphology lookups, OSIS word extraction for the interlinear view, the
study database (highlights, bookmarks, notes, settings, history, journal,
prayer list, statistics and reading streaks), export and import records, and
the decisions behind the application's commands.

## Layout

- `src/` — the library, written in Verus, with contracts in
  `requires`/`ensures`; `src/laws_chirho.rs` and a few other modules hold
  the laws that relate several functions. Where a result comes from the
  database, the SWORD files or the clock, the contract states what holds of
  every outcome, and a verified function that takes the outside result (the
  rows read, the dates, the settings) states the rest exactly. What each
  database operation hands to SQLite (its SQL and the values bound to it) is
  built by a public function with an exact contract (the `*_statement_chirho`
  functions, and the setting keys of the saved place); what SQLite stores
  and answers is outside any contract.
- Outside crates are reached only through small trusted wrappers, each with a
  doc comment that says what is claimed of the call: `rusqlite` (database),
  `rsword_chirho` (SWORD modules and the OSIS filter), `serde_json` (reading
  a backup and writing an export) and `chrono` (dates and the local clock).
- `tests/` — tests run against the compiled library.
- `app/` — the command-line program around the library: data directories,
  files, the clock's timestamp of an export, the clipboard and logging.

## Checking

Verify the library with Verus; run the tests with Cargo.
