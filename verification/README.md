# rusttp

A web application template's core, written in Verus: the telemetry
configuration (levels, outputs, rotated file naming, JSON rendering of log
entries and spans), the command line's decisions, the configuration loader,
the server's error bodies, redirects and asset naming, and small utilities
(hashing, tokens, random strings), each with a proved contract.

- `src/` — the verified library.
- `tests/` — tests of the library on concrete values.
- `app/` — the program around it: clap, axum, fastrace, OpenTelemetry,
  sqlx, files, threads and the environment.
