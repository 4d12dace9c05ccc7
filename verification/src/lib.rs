//! Core logic of a desktop media toolbox: settings validation, download
//! batch bookkeeping, recording-account checks, queueing and the SQLite
//! store behind them.

pub mod text;
pub mod number;
pub mod cookie;
pub mod error;
pub mod models;
pub mod batch;
pub mod submit;
pub mod settings;
pub mod recording;
pub mod queue;
pub mod scheduler;
pub mod notify;
pub mod ui;
pub mod python;
pub mod sqlite;
pub mod external;
pub mod rows;
pub mod schema;
pub mod statements;
pub mod store;
pub mod database;
pub mod settings_store;
pub mod tasks_store;
pub mod recording_store;
pub mod scheduler_store;
pub mod download_store;
