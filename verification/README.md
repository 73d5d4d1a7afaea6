# cs2_gsi_webui

Verified core of a live web dashboard for Counter-Strike 2 Game State
Integration, with the server around it.

- `src/` — the library, verified with Verus:
  - `text` — character-sequence equality, prefix/substring tests, repeated
    prefix stripping and lexicographic order;
  - `weapon` — weapon-name classification into badge buckets;
  - `model` — the parts of a GSI payload the dashboard reads;
  - `labels` — team, phase and winner labels;
  - `roster` — player-table rows and their order;
  - `snapshot` — the per-tick match snapshot;
  - `summary` — the diagnostics summary;
  - `events` — which browser events answer each game event;
  - `ui` — the browser events and their views;
  - `clock` — wall-clock time stamps.
- `app/` — the binary: command line, cfg writing, the GSI listener, the
  WebSocket broadcast and JSON encoding.
- `tests/` — tests of the library on concrete values.
