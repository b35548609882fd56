# anilistarr-rs

Converts the watching list of an Anilist user into a custom list of TVDB
entries that Sonarr and Radarr read, mapping the IDs through the
community-provided mappings of Fribbs' anime lists.

- `src/` is the library, verified with Verus: the use cases (`usecases/`),
  the trackers and mappers built from them (`adapters/`), the decisions of
  the drivers (`drivers/`), and decimal numbers and separated lists as text
  (`text.rs`). Each trait of `usecases/` names, per implementation, what its
  answers may be; the composite services state their answers in those terms.
- `app/` is the `handler` binary: the HTTP server, the LMDB and Redis
  drivers, the Anilist GraphQL client, the Fribbs download, the rate limiter
  and the telemetry.
- `tests/` runs the library on concrete values.
