# torboxhole

Automatic downloader for `.nzb` files through the TorBox API: `.nzb` files
dropped into an ingest directory become queued downloads, are handed to
TorBox, and, once TorBox has grabbed them, can be fetched as zip archives,
extracted, and their video files moved into an output directory.

## Layout

- `src/` — the verified library (Verus).
  - `database.rs` — download records, the encoding of their states, and the
    table updates with their effect on a row.
  - `torbox/` — API configuration, request descriptions (`request.rs`), the
    usenet and user endpoints, the account's download limit, and a smaller
    client in `basic/`.
  - `processor/` — the decisions of each processor: ingesting files, queueing
    downloads within the account's limit, noticing finished downloads, the
    download and extraction jobs (state machines driven by the caller), and
    the handling of archive entries.
  - `config.rs`, `fs_path.rs`, `text.rs`, `json.rs` — configuration records,
    paths, string formatting and parsing helpers, and carried JSON values.
- `app/` — the program around the library: configuration loading, the SQLite
  database, HTTP with `reqwest`, file system work, and the scheduler.
- `tests/` — tests of the library on concrete values.
