# drtools

The core of a desktop media toolbox (video downloads, live-recording
accounts, task history and settings), written in Verus with its behaviour
stated in contracts and proved.

- `src/` is the verified library. Pure rules (text handling, link and
  account validation, settings changes, batch status, queue and scheduler
  bookkeeping, notices) sit beside the steps that read and write the SQLite
  store (`database`, `*_store`). Calls into `rusqlite`, `serde_json`,
  `chrono` and `uuid` go through the small items in `sqlite.rs` and
  `external.rs`, whose contracts are assumed. The store keeps, as ghost
  state, every statement it hands to SQLite (`statements.rs`); each store
  step states which statements it runs, with which parameters, and how its
  answer is read from the rows they give.
- `tests/` runs the library, the store included, on concrete values.
- `app/` is the Tauri shell: commands, windows, the Python helper process,
  worker processes and the scheduler's loop. It calls the library for every
  decision and every store write.
