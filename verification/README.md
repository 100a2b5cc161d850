# synker

A file store with an HTTP interface and Git synchronisation. Files live in a
directory as `{id}.{ext}` with their metadata in `.meta/{id}.json`; a daemon
commits, rebases onto and pushes to a Git remote when changes are pending or
the last synchronisation is too old.

## Layout

- `src/` — the library, verified with Verus:
  - `domain/` — file metadata and its validation rules, queries, the
    file-management and synchronisation interfaces, and the orchestrators
    that validate requests before handing them to a storage adapter;
  - `outbound/` — the rules of the file-system store (record layout,
    updates, query filters, listing order, tag index) and of Git
    synchronisation (references, commit messages, rebase judgement, the
    last-synchronisation report);
  - `inbound/` — the command line, the daemon's timer as a state machine,
    the HTTP request and response shapes, markdown titles and uploads;
  - `text.rs` — the character-level text functions the rest builds on.
- `app/` — the program: argument handling, the axum server, file and Git
  I/O, the file watcher and the daemon loop.
- `tests/` — tests of the library.
