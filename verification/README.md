# bakatui

A terminal client that shows the week's timetable from a school's Bakaláři
server.

- `src/` is the verified library:
  - `json` — the JSON document as the timetable logic reads it;
  - `timetable` — the timetable model and its construction from the server's
    document (names looked up by id, lessons placed under their hour captions,
    changes read as serde's derived reader reads them);
  - `str_map` — a map keyed by strings, used for a day's lessons and the id names;
  - `tui` — the state of the view: cursor moves, keys, the laid-out cells,
    the detail box;
  - `session` — settings, the login exchange (including the one retry with the
    password when the refresh token is stale), timetable requests;
  - `persistent` — settings and cache with their file paths;
  - `text` — character-level string helpers (padding, trimming, lines, decimals).
- `app/` holds the terminal, file and network work around it (`crossterm`,
  `reqwest`, `tokio`, `serde`, `serde_json`, `chrono`).
- `tests/` exercises the library on concrete values.
