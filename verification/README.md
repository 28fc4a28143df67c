# geek_storage

A caching file-storage server. Files are uploaded (directly, or by link),
deduplicated by SHA-256, stored under random five-character ids, served back
(small ones from an in-memory cache), deleted, and cleaned up when they expire
or when disk and database disagree.

| Method   | Endpoint | Description                          |
|----------|----------|--------------------------------------|
| `GET`    | `/`      | Check if the server's up or not      |
| `POST`   | `/`      | Upload a file (or one from a link)   |
| `GET`    | `/<id>`  | Download an existing file            |
| `DELETE` | `/<id>`  | Delete a file (token required if set) |
| `GET`    | `/info`  | Get information about the server     |

## Layout

- `src/` is the library, verified with Verus:
  - `cache.rs` — the bounded file cache and its eviction laws; `store.rs` — the
    `DashMap` and `Bytes` it keeps files in;
  - `upload.rs`, `fetch.rs`, `removal.rs` — the endpoints' decisions as state
    machines: the server performs each action handed out and feeds back its
    outcome;
  - `sweep.rs` — the periodic clean-ups, one file at a time;
  - `ids.rs`, `auth.rs`, `digest.rs`, `replies.rs`, `text.rs`, `info.rs`,
    `config.rs`, `db.rs` — ids, bearer tokens, hashing, error replies, the info
    report, settings, and the database record of a file.
- `app/` is the server around it: settings from the environment, the SQLite
  database, files on disk, HTTP with axum, and the background tasks.
- `tests/` runs the library on concrete cases.
