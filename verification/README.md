# mlb_api

A client for the MLB Stats API whose logic is verified with Verus.

- `src/` is the verified library: identifiers, the URLs of the requests (each stated as a
  base and a query string of the entries that are present), the rules the API's data follows
  (how a team's names are completed, what a status code stands for, how a season or a height
  is written, how attendance records add up), and the decisions of a play stream (which events
  of a live game to hand out after each poll, so that a run over a growing feed hands out
  each event once). Calls into `chrono` that only compute (building, formatting and reading
  dates and times) stand behind a few trusted functions whose contracts say what `chrono`'s
  source shows; reading the clock is left to `app/`.
- `tests/` runs the library on concrete values.
- `app/` fetches responses over the network, decodes them into the library's types, runs a
  play stream against a live game, reads the clock for what needs the current year or time,
  and holds the values kept as floating-point numbers (rate
  statistics, weather, pitch tracking).
