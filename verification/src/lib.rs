//! An append-only, per-aggregate event log with optimistic concurrency
//! control, a current-version index and a snapshot store, kept in SQLite.

pub mod backend;
