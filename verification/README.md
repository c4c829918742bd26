# custos

An intrusion detection library: files are hashed with SHA-256, each file's
digest is kept as hex text in a SQLite store, and a later scan reports every
file as new, unchanged or changed.

- `src/` is the verified library: the hex codec and its round-trip law, the
  SHA-256 strategy (status of a file from its digest and the stored record),
  the per-path decisions of a scan worker, the reporters' lines, the
  connection set-up statements, the sharing of paths among workers, and the
  cell that loads the settings once.
- `app/` is the program around it: argument parsing, the configuration file,
  the database, file reading, the worker threads and the result channel.
- `tests/` runs the library on concrete values.

`libsqlite3-sys` is named in Cargo.toml with its `bundled` feature so that
diesel's SQLite backend builds from the bundled SQLite sources instead of
needing a system SQLite library.
