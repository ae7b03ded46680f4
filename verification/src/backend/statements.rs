//! The schema and the statements of the store. A placeholder `?1` takes the
//! aggregate's identifier as text, `?2` a version, `?3` a payload.

use vstd::prelude::*;

verus! {

/// The statement that creates the event log.
pub const CREATE_AGGREGATE_TABLE_STMT: &'static str =
    "CREATE TABLE IF NOT EXISTS eventstore(aggregate_id TEXT, data BLOB, version INTEGER)";

/// The statement that creates the index of current versions.
pub const CREATE_AGGREGATE_OVERVIEW_TABLE_STMT: &'static str =
    "CREATE TABLE IF NOT EXISTS aggregate_index(aggregate_id TEXT PRIMARY KEY, type_name TEXT, version INTEGER)";

/// The statement that creates the snapshot table.
pub const CREATE_SNAPSHOT_TABLE_STMT: &'static str =
    "CREATE TABLE IF NOT EXISTS snapshot(aggregate_id TEXT, data BLOB, version INTEGER)";

/// The statement that creates the index of latest snapshot versions.
pub const CREATE_SNAPSHOT_OVERVIEW_TABLE_STMT: &'static str =
    "CREATE TABLE IF NOT EXISTS snapshot_index(aggregate_id TEXT PRIMARY KEY, type_name TEXT, version INTEGER)";

/// Index on the event log by aggregate.
pub const CREATE_AGGREGATE_INDEX_STMT: &'static str =
    "CREATE INDEX IF NOT EXISTS eventstore_agg_id_idx ON eventstore (aggregate_id)";

/// Index on the snapshots by aggregate.
pub const CREATE_SNAPSHOT_INDEX_STMT: &'static str =
    "CREATE INDEX IF NOT EXISTS snapshot_agg_id_idx ON snapshot (aggregate_id)";

/// At most one snapshot for an aggregate and a version.
pub const CREATE_SNAPSHOT_UNIQUE_INDEX_STMT: &'static str =
    "CREATE UNIQUE INDEX IF NOT EXISTS snapshot_unique_idx ON snapshot (aggregate_id, version)";

/// An aggregate's current version: that of its index row, or 0 without one.
pub const SELECT_MAX_VERSION_STMT: &'static str =
    "SELECT COALESCE(MAX(version), 0) as max_version FROM aggregate_index WHERE aggregate_id = ?1";

/// Adds one row to the event log.
pub const INSERT_EVENT_STMT: &'static str =
    "INSERT INTO eventstore(aggregate_id, version, data) VALUES(?1, ?2, ?3)";

/// Sets an aggregate's index row to a version, creating the row if need be.
pub const UPSERT_AGGREGATE_INDEX_STMT: &'static str =
    "INSERT INTO aggregate_index(aggregate_id, version, type_name) VALUES(?1, ?2, 'untyped') \
     ON CONFLICT(aggregate_id) DO UPDATE SET version = excluded.version";

/// Writes the snapshot of an aggregate at a version, replacing the payload of
/// one that is there.
pub const UPSERT_SNAPSHOT_STMT: &'static str =
    "INSERT INTO snapshot(aggregate_id, version, data) VALUES(?1, ?2, ?3) \
     ON CONFLICT(aggregate_id, version) DO UPDATE SET data = excluded.data";

/// Sets an aggregate's latest snapshot version, creating the row if need be.
pub const UPSERT_SNAPSHOT_INDEX_STMT: &'static str =
    "INSERT INTO snapshot_index(aggregate_id, version, type_name) VALUES(?1, ?2, 'untyped') \
     ON CONFLICT(aggregate_id) DO UPDATE SET version = excluded.version";

/// All events of an aggregate, oldest first.
pub const SELECT_EVENTS_STMT: &'static str =
    "SELECT aggregate_id, data, version FROM eventstore WHERE aggregate_id = ?1 ORDER BY version ASC";

/// The events of an aggregate after a version, oldest first.
pub const SELECT_EVENTS_SINCE_STMT: &'static str =
    "SELECT aggregate_id, data, version FROM eventstore WHERE aggregate_id = ?1 AND version > ?2 ORDER BY version ASC";

/// All snapshots of an aggregate, oldest first.
pub const SELECT_SNAPSHOTS_STMT: &'static str =
    "SELECT aggregate_id, data, version FROM snapshot WHERE aggregate_id = ?1 ORDER BY version ASC";

/// The snapshot of an aggregate at a version.
pub const SELECT_SNAPSHOT_AT_STMT: &'static str =
    "SELECT aggregate_id, data, version FROM snapshot WHERE aggregate_id = ?1 AND version = ?2 ORDER BY version ASC";

} // verus!
