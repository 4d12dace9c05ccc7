//! The schema of the store, as migrations applied in order.

use vstd::prelude::*;

verus! {

/// The table that records which migrations were applied.
pub const MIGRATIONS_TABLE: &'static str = "CREATE TABLE IF NOT EXISTS _migrations (
        version TEXT PRIMARY KEY,
        applied_at TEXT NOT NULL
      );";

/// Settings, tasks and task logs.
pub const MIGRATION_001_INIT: &'static str = "CREATE TABLE IF NOT EXISTS app_meta (
  key TEXT PRIMARY KEY,
  value TEXT NOT NULL,
  updated_at TEXT NOT NULL
);
CREATE TABLE IF NOT EXISTS tasks (
  id TEXT PRIMARY KEY,
  task_type TEXT NOT NULL,
  status TEXT NOT NULL,
  input_json TEXT NOT NULL,
  output_json TEXT,
  error_text TEXT,
  created_at TEXT NOT NULL,
  updated_at TEXT NOT NULL
);
CREATE TABLE IF NOT EXISTS task_logs (
  id TEXT PRIMARY KEY,
  task_id TEXT NOT NULL,
  level TEXT NOT NULL,
  message TEXT NOT NULL,
  ts TEXT NOT NULL
);
CREATE INDEX IF NOT EXISTS idx_task_logs_task_id ON task_logs(task_id);";

/// Download batches.
pub const MIGRATION_002_DOWNLOAD_BATCHES: &'static str = "CREATE TABLE IF NOT EXISTS download_batches (
  id TEXT PRIMARY KEY,
  platform TEXT NOT NULL,
  total_count INTEGER NOT NULL,
  success_count INTEGER NOT NULL DEFAULT 0,
  failed_count INTEGER NOT NULL DEFAULT 0,
  completion_handled INTEGER NOT NULL DEFAULT 0,
  created_at TEXT NOT NULL,
  updated_at TEXT NOT NULL,
  completed_at TEXT
);";

/// Recording accounts and their logs.
pub const MIGRATION_003_RECORDING_ACCOUNTS: &'static str = "CREATE TABLE IF NOT EXISTS recording_accounts (
  id TEXT PRIMARY KEY,
  platform TEXT NOT NULL,
  account_input TEXT NOT NULL,
  account_name TEXT NOT NULL,
  account_uid TEXT NOT NULL,
  account_avatar_url TEXT,
  account_room_id TEXT,
  account_web_rid TEXT,
  account_sec_user_id TEXT,
  account_unique_id TEXT,
  enabled INTEGER NOT NULL DEFAULT 1,
  status TEXT NOT NULL DEFAULT 'watching',
  last_checked_at TEXT,
  last_recorded_at TEXT,
  last_error TEXT,
  created_at TEXT NOT NULL,
  updated_at TEXT NOT NULL
);
CREATE TABLE IF NOT EXISTS recording_account_logs (
  id TEXT PRIMARY KEY,
  account_id TEXT NOT NULL,
  level TEXT NOT NULL,
  message TEXT NOT NULL,
  ts TEXT NOT NULL
);
CREATE INDEX IF NOT EXISTS idx_recording_account_logs_account_id ON recording_account_logs(account_id);";

/// Per-account recording rules.
pub const MIGRATION_004_RECORDING_ACCOUNT_RULES: &'static str = "ALTER TABLE recording_accounts ADD COLUMN auto_start INTEGER NOT NULL DEFAULT 1;
ALTER TABLE recording_accounts ADD COLUMN retry_on_disconnect INTEGER NOT NULL DEFAULT 1;
ALTER TABLE recording_accounts ADD COLUMN split_recording INTEGER NOT NULL DEFAULT 0;
ALTER TABLE recording_accounts ADD COLUMN save_snapshot INTEGER NOT NULL DEFAULT 0;";

} // verus!
