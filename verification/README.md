# rhizome

The model behind a terminal CRM for clients, projects, hours and contact logs,
written in Verus: the records, the forms, list navigation, search, the key
handling of every mode, and what the screens show, each with a contract that
Verus proves.

## Layout

- `src/` — the verified library.
  - `text.rs`, `widgets.rs` — text helpers (trimming, lower-casing, columns,
    ages) and their specifications.
  - `models.rs`, `config.rs` — the records and the preferences.
  - `forms.rs` — the client, project and contact forms.
  - `store.rs`, `sort.rs` — ordering of loaded records, dashboard counters,
    reading (through `toml`) and repair of broken project files.
  - `app.rs`, `nav.rs`, `search.rs` — the application state, list selection,
    search and follow-up.
  - `updates.rs` — the records that saving writes and how reloaded records are
    taken in.
  - `events.rs` — what each key does in each mode, and the outside work it asks
    for (an `Effect`), with the laws of key handling.
  - `screen.rs` — what the screens show: banners, hints, pop-up placement, the
    network graph, upcoming milestones.
  - `version.rs` — release version comparison.
  - `dates.rs` — the calls into `chrono` and `uuid`.
- `tests/` — tests of the library.
- `app/` — the program around it: files on disk (TOML via serde), the update
  check, drawing with ratatui, and carrying out effects. Hour values are
  floating point, so their arithmetic lives there.
