//! The standard propagation schema (its queue, peers, attempts, checkpoints
//! and failures; the operations of downloads; the links between messages and
//! transient ids) and the attestation that a stored schema is exactly it.
use vstd::prelude::*;
use crate::error::{invalid, StoreError};
use crate::schema_check::{
    column, columns_match, foreign_key, foreign_keys_match, names_match, value_is_int, value_is_text,
    ColumnSpec, ForeignKey,
};
use crate::schema_sql::normalize_schema_sql;
use crate::sql::{col_text, ArgView, SqlArg, SqlCall};
use crate::store::{text_arg, MessagesStore};
use crate::text::str_eq;

verus! {

pub const STANDARD_PROPAGATION_MIGRATION: &'static str = "2026-08-24-standard-lxmf-propagation-v10";
pub const STANDARD_PROPAGATION_OBSERVATION_MIGRATION: &'static str = "2026-08-25-standard-lxmf-propagation-observations-v11";
pub const STANDARD_PROPAGATION_CORRELATION_MIGRATION: &'static str = "2026-08-25-standard-lxmf-propagation-correlation-v12";

pub const ITEMS_TABLE_SQL: &'static str = "CREATE TABLE standard_lxmf_propagation_items (
    transient_id BLOB PRIMARY KEY CHECK(typeof(transient_id) = 'blob' AND length(transient_id) = 32),
    destination BLOB NOT NULL CHECK(typeof(destination) = 'blob' AND length(destination) = 16),
    lxmf_data BLOB CHECK(lxmf_data IS NULL OR (typeof(lxmf_data) = 'blob' AND length(lxmf_data) <= 4000000)),
    stamp BLOB CHECK(stamp IS NULL OR (typeof(stamp) = 'blob' AND length(stamp) = 32)),
    stamp_value INTEGER NOT NULL CHECK(typeof(stamp_value) = 'integer' AND stamp_value BETWEEN 0 AND 256),
    received_at INTEGER NOT NULL CHECK(typeof(received_at) = 'integer' AND received_at >= 0),
    expires_at INTEGER NOT NULL CHECK(typeof(expires_at) = 'integer' AND expires_at >= received_at),
    stored_size INTEGER NOT NULL CHECK(typeof(stored_size) = 'integer' AND stored_size >= 0 AND stored_size <= 4000000),
    state TEXT NOT NULL CHECK(typeof(state) = 'text' AND state IN ('queued','acknowledged','expired')),
    terminal_at INTEGER CHECK(terminal_at IS NULL OR (typeof(terminal_at) = 'integer' AND terminal_at >= received_at)),
    CHECK((state = 'queued' AND lxmf_data IS NOT NULL AND stamp IS NOT NULL AND terminal_at IS NULL
           AND stored_size = length(lxmf_data) + length(stamp))
       OR (state IN ('acknowledged','expired') AND lxmf_data IS NULL AND stamp IS NULL
           AND stored_size = 0 AND terminal_at IS NOT NULL))
) STRICT";
pub const PEERS_TABLE_SQL: &'static str = "CREATE TABLE standard_lxmf_propagation_peers (
    identity_hash BLOB PRIMARY KEY CHECK(typeof(identity_hash) = 'blob' AND length(identity_hash) = 16),
    propagation_destination BLOB UNIQUE CHECK(propagation_destination IS NULL OR (typeof(propagation_destination) = 'blob' AND length(propagation_destination) = 16)),
    origin TEXT NOT NULL CHECK(typeof(origin) = 'text' AND origin IN ('configured','observed','both')),
    enabled INTEGER NOT NULL CHECK(typeof(enabled) = 'integer' AND enabled IN (0,1)),
    transfer_limit_kb INTEGER CHECK(transfer_limit_kb IS NULL OR (typeof(transfer_limit_kb) = 'integer' AND transfer_limit_kb >= 0)),
    sync_limit_kb INTEGER CHECK(sync_limit_kb IS NULL OR (typeof(sync_limit_kb) = 'integer' AND sync_limit_kb >= 0)),
    stamp_cost INTEGER CHECK(stamp_cost IS NULL OR (typeof(stamp_cost) = 'integer' AND stamp_cost BETWEEN 0 AND 254)),
    stamp_flexibility INTEGER CHECK(stamp_flexibility IS NULL OR (typeof(stamp_flexibility) = 'integer' AND stamp_flexibility BETWEEN 0 AND 254)),
    peering_cost INTEGER CHECK(peering_cost IS NULL OR (typeof(peering_cost) = 'integer' AND peering_cost BETWEEN 0 AND 254)),
    first_seen_at INTEGER NOT NULL CHECK(typeof(first_seen_at) = 'integer' AND first_seen_at >= 0),
    last_seen_at INTEGER NOT NULL CHECK(typeof(last_seen_at) = 'integer' AND last_seen_at >= first_seen_at),
    retry_at INTEGER CHECK(retry_at IS NULL OR (typeof(retry_at) = 'integer' AND retry_at >= 0)),
    backoff_count INTEGER NOT NULL DEFAULT 0 CHECK(typeof(backoff_count) = 'integer' AND backoff_count >= 0),
    offered_count INTEGER NOT NULL DEFAULT 0 CHECK(typeof(offered_count) = 'integer' AND offered_count >= 0),
    wanted_count INTEGER NOT NULL DEFAULT 0 CHECK(typeof(wanted_count) = 'integer' AND wanted_count >= 0),
    accepted_count INTEGER NOT NULL DEFAULT 0 CHECK(typeof(accepted_count) = 'integer' AND accepted_count >= 0),
    accepted_bytes INTEGER NOT NULL DEFAULT 0 CHECK(typeof(accepted_bytes) = 'integer' AND accepted_bytes >= 0),
    failure_count INTEGER NOT NULL DEFAULT 0 CHECK(typeof(failure_count) = 'integer' AND failure_count >= 0)
) STRICT";
pub const PEER_ITEMS_TABLE_SQL: &'static str = "CREATE TABLE standard_lxmf_propagation_peer_items (
    peer BLOB NOT NULL REFERENCES standard_lxmf_propagation_peers(identity_hash) ON DELETE CASCADE,
    transient_id BLOB NOT NULL REFERENCES standard_lxmf_propagation_items(transient_id) ON DELETE CASCADE,
    disposition TEXT NOT NULL CHECK(typeof(disposition) = 'text' AND disposition IN ('handled','unhandled')),
    updated_at INTEGER NOT NULL CHECK(typeof(updated_at) = 'integer' AND updated_at >= 0),
    PRIMARY KEY(peer, transient_id)
) STRICT";
pub const SELECTION_TABLE_SQL: &'static str = "CREATE TABLE standard_lxmf_propagation_selection (
    singleton INTEGER PRIMARY KEY CHECK(singleton = 1),
    selected_peer BLOB REFERENCES standard_lxmf_propagation_peers(identity_hash) ON DELETE SET NULL,
    mode TEXT NOT NULL CHECK(typeof(mode) = 'text' AND mode IN ('automatic','manual','disabled')),
    selected_at INTEGER NOT NULL CHECK(typeof(selected_at) = 'integer' AND selected_at >= 0)
) STRICT";
pub const ATTEMPTS_TABLE_SQL: &'static str = "CREATE TABLE standard_lxmf_propagation_attempts (
    attempt_id BLOB PRIMARY KEY CHECK(typeof(attempt_id) = 'blob' AND length(attempt_id) = 16),
    correlation_id BLOB NOT NULL CHECK(typeof(correlation_id) = 'blob' AND length(correlation_id) = 16),
    peer BLOB REFERENCES standard_lxmf_propagation_peers(identity_hash) ON DELETE SET NULL,
    direction TEXT NOT NULL CHECK(typeof(direction) = 'text' AND direction IN ('ingress','egress','sync')),
    stage TEXT NOT NULL CHECK(typeof(stage) = 'text' AND stage IN ('offer','transfer','get','complete')),
    state TEXT NOT NULL CHECK(typeof(state) = 'text' AND state IN ('running','completed','failed','interrupted')),
    started_at INTEGER NOT NULL CHECK(typeof(started_at) = 'integer' AND started_at >= 0),
    updated_at INTEGER NOT NULL CHECK(typeof(updated_at) = 'integer' AND updated_at >= started_at),
    deadline_at INTEGER CHECK(deadline_at IS NULL OR (typeof(deadline_at) = 'integer' AND deadline_at >= started_at)),
    offered_count INTEGER NOT NULL CHECK(typeof(offered_count) = 'integer' AND offered_count >= 0 AND offered_count <= 4096),
    wanted_count INTEGER NOT NULL CHECK(typeof(wanted_count) = 'integer' AND wanted_count >= 0 AND wanted_count <= offered_count),
    accepted_count INTEGER NOT NULL DEFAULT 0 CHECK(typeof(accepted_count) = 'integer' AND accepted_count >= 0 AND accepted_count <= offered_count),
    accepted_bytes INTEGER NOT NULL DEFAULT 0 CHECK(typeof(accepted_bytes) = 'integer' AND accepted_bytes >= 0),
    failure_code TEXT CHECK(failure_code IS NULL OR (typeof(failure_code) = 'text' AND length(failure_code) BETWEEN 1 AND 64)),
    failure_detail TEXT CHECK(failure_detail IS NULL OR (typeof(failure_detail) = 'text' AND length(failure_detail) <= 256))
) STRICT";
pub const ATTEMPT_ITEMS_TABLE_SQL: &'static str = "CREATE TABLE standard_lxmf_propagation_attempt_items (
    attempt_id BLOB NOT NULL REFERENCES standard_lxmf_propagation_attempts(attempt_id) ON DELETE CASCADE,
    transient_id BLOB NOT NULL CHECK(typeof(transient_id) = 'blob' AND length(transient_id) = 32),
    role TEXT NOT NULL CHECK(typeof(role) = 'text' AND role IN ('offered','wanted','accepted')),
    PRIMARY KEY(attempt_id, transient_id, role)
) STRICT";
pub const CHECKPOINTS_TABLE_SQL: &'static str = "CREATE TABLE standard_lxmf_propagation_checkpoints (
    peer BLOB NOT NULL REFERENCES standard_lxmf_propagation_peers(identity_hash) ON DELETE CASCADE,
    direction TEXT NOT NULL CHECK(typeof(direction) = 'text' AND direction IN ('ingress','egress','sync')),
    completed_stage TEXT NOT NULL CHECK(typeof(completed_stage) = 'text' AND completed_stage IN ('offer','transfer','get','complete')),
    cursor BLOB CHECK(cursor IS NULL OR (typeof(cursor) = 'blob' AND length(cursor) <= 4096)),
    digest BLOB CHECK(digest IS NULL OR (typeof(digest) = 'blob' AND length(digest) = 32)),
    item_count INTEGER NOT NULL CHECK(typeof(item_count) = 'integer' AND item_count >= 0),
    byte_count INTEGER NOT NULL CHECK(typeof(byte_count) = 'integer' AND byte_count >= 0),
    last_attempt BLOB REFERENCES standard_lxmf_propagation_attempts(attempt_id) ON DELETE SET NULL,
    updated_at INTEGER NOT NULL CHECK(typeof(updated_at) = 'integer' AND updated_at >= 0),
    PRIMARY KEY(peer, direction)
) STRICT";
pub const FAILURES_TABLE_SQL: &'static str = "CREATE TABLE standard_lxmf_propagation_failures (
    failure_id INTEGER PRIMARY KEY,
    code TEXT NOT NULL CHECK(typeof(code) = 'text' AND length(code) BETWEEN 1 AND 64),
    detail TEXT CHECK(detail IS NULL OR (typeof(detail) = 'text' AND length(detail) <= 256)),
    occurred_at INTEGER NOT NULL CHECK(typeof(occurred_at) = 'integer' AND occurred_at >= 0),
    peer BLOB REFERENCES standard_lxmf_propagation_peers(identity_hash) ON DELETE SET NULL,
    transient_id BLOB CHECK(transient_id IS NULL OR (typeof(transient_id) = 'blob' AND length(transient_id) = 32)),
    attempt_id BLOB REFERENCES standard_lxmf_propagation_attempts(attempt_id) ON DELETE SET NULL
) STRICT";
pub const INDEX_SQL: &'static str = "CREATE INDEX idx_standard_lxmf_propagation_items_destination
    ON standard_lxmf_propagation_items(destination, state, stored_size, transient_id);
CREATE INDEX idx_standard_lxmf_propagation_items_expiry
    ON standard_lxmf_propagation_items(state, expires_at);
CREATE INDEX idx_standard_lxmf_propagation_peer_items_disposition
    ON standard_lxmf_propagation_peer_items(peer, disposition, updated_at);
CREATE INDEX idx_standard_lxmf_propagation_attempts_state
    ON standard_lxmf_propagation_attempts(state, updated_at);
CREATE INDEX idx_standard_lxmf_propagation_attempts_peer
    ON standard_lxmf_propagation_attempts(peer, direction, updated_at);
CREATE INDEX idx_standard_lxmf_propagation_failures_time
    ON standard_lxmf_propagation_failures(occurred_at, failure_id);";
pub const ATTEMPT_OPERATIONS_TABLE_SQL: &'static str = "CREATE TABLE standard_lxmf_propagation_attempt_operations (
        attempt_id BLOB PRIMARY KEY
            REFERENCES standard_lxmf_propagation_attempts(attempt_id) ON DELETE CASCADE
            CHECK(typeof(attempt_id) = 'blob' AND length(attempt_id) = 16),
        operation TEXT NOT NULL
            CHECK(typeof(operation) = 'text' AND operation IN ('fetch','download','sync'))
    ) STRICT";
const MESSAGE_LINKS_TABLE_SQL: &'static str = "CREATE TABLE standard_lxmf_propagation_message_links (
    transient_id BLOB NOT NULL CHECK(typeof(transient_id) = 'blob' AND length(transient_id) = 32),
    message_id TEXT NOT NULL CHECK(typeof(message_id) = 'text' AND length(message_id) = 64 AND message_id = lower(message_id) AND message_id NOT GLOB '*[^0-9a-f]*'),
    relation TEXT NOT NULL CHECK(typeof(relation) = 'text' AND relation IN ('outbound','inbound')),
    attempt_id BLOB CHECK(attempt_id IS NULL OR (typeof(attempt_id) = 'blob' AND length(attempt_id) = 16)),
    peer BLOB NOT NULL CHECK(typeof(peer) = 'blob' AND length(peer) = 16),
    state TEXT NOT NULL CHECK(typeof(state) = 'text' AND state IN ('spooled','accepted','pending_ack','acknowledged','deleted')),
    created_at INTEGER NOT NULL CHECK(typeof(created_at) = 'integer' AND created_at >= 0),
    updated_at INTEGER NOT NULL CHECK(typeof(updated_at) = 'integer' AND updated_at >= created_at),
    CHECK((relation = 'outbound' AND state IN ('spooled','accepted','deleted'))
       OR (relation = 'inbound' AND state IN ('pending_ack','acknowledged','deleted'))),
    PRIMARY KEY(transient_id, peer, relation)
) STRICT";
const CLIENT_JOBS_TABLE_SQL: &'static str = "CREATE TABLE standard_lxmf_propagation_client_jobs (
    message_id TEXT PRIMARY KEY CHECK(typeof(message_id) = 'text' AND length(message_id) = 64 AND message_id = lower(message_id) AND message_id NOT GLOB '*[^0-9a-f]*'),
    transient_id BLOB UNIQUE CHECK(transient_id IS NULL OR (typeof(transient_id) = 'blob' AND length(transient_id) = 32)),
    destination BLOB NOT NULL CHECK(typeof(destination) = 'blob' AND length(destination) = 16),
    canonical_wire BLOB CHECK(canonical_wire IS NULL OR (typeof(canonical_wire) = 'blob' AND length(canonical_wire) BETWEEN 113 AND 4000000)),
    lxmf_data BLOB CHECK(lxmf_data IS NULL OR (typeof(lxmf_data) = 'blob' AND length(lxmf_data) BETWEEN 113 AND 4000000)),
    stamp BLOB CHECK(stamp IS NULL OR (typeof(stamp) = 'blob' AND length(stamp) = 32)),
    peer BLOB NOT NULL CHECK(typeof(peer) = 'blob' AND length(peer) = 16),
    propagation_destination BLOB NOT NULL CHECK(typeof(propagation_destination) = 'blob' AND length(propagation_destination) = 16),
    stamp_cost INTEGER NOT NULL CHECK(typeof(stamp_cost) = 'integer' AND stamp_cost BETWEEN 0 AND 254),
    peering_cost INTEGER NOT NULL CHECK(typeof(peering_cost) = 'integer' AND peering_cost BETWEEN 0 AND 254),
    correlation_id BLOB NOT NULL CHECK(typeof(correlation_id) = 'blob' AND length(correlation_id) = 16),
    attempt_id BLOB NOT NULL CHECK(typeof(attempt_id) = 'blob' AND length(attempt_id) = 16),
    state TEXT NOT NULL CHECK(typeof(state) = 'text' AND state IN ('preparing','spooled','uploading','accepted','failed')),
    created_at INTEGER NOT NULL CHECK(typeof(created_at) = 'integer' AND created_at >= 0),
    updated_at INTEGER NOT NULL CHECK(typeof(updated_at) = 'integer' AND updated_at >= created_at),
    CHECK((state = 'preparing' AND canonical_wire IS NOT NULL AND transient_id IS NULL
           AND lxmf_data IS NULL AND stamp IS NULL AND substr(canonical_wire, 1, 16) = destination)
       OR (state IN ('spooled','uploading','accepted','failed') AND canonical_wire IS NULL
           AND transient_id IS NOT NULL AND lxmf_data IS NOT NULL AND stamp IS NOT NULL
           AND substr(lxmf_data, 1, 16) = destination))
) STRICT";
const CLIENT_ATTEMPT_ITEMS_TABLE_SQL: &'static str = "CREATE TABLE standard_lxmf_propagation_client_attempt_items (
        attempt_id BLOB NOT NULL CHECK(typeof(attempt_id) = 'blob' AND length(attempt_id) = 16),
        transient_id BLOB NOT NULL CHECK(typeof(transient_id) = 'blob' AND length(transient_id) = 32),
        role TEXT NOT NULL CHECK(typeof(role) = 'text' AND role IN ('inventory','offered','accepted','returned')),
        created_at INTEGER NOT NULL CHECK(typeof(created_at) = 'integer' AND created_at >= 0),
        PRIMARY KEY(attempt_id, transient_id, role)
    ) STRICT";
const CORRELATION_INDEX_SQL: &'static str = "CREATE INDEX idx_stdprop_v12_links_message ON standard_lxmf_propagation_message_links(message_id, updated_at, transient_id);
     CREATE INDEX idx_stdprop_v12_links_pending_ack ON standard_lxmf_propagation_message_links(state, updated_at, transient_id);
     CREATE INDEX idx_stdprop_v12_jobs_state ON standard_lxmf_propagation_client_jobs(state, updated_at, message_id);
     CREATE INDEX idx_stdprop_v12_attempt_items_transient ON standard_lxmf_propagation_client_attempt_items(transient_id, role, attempt_id);";

/// The number of tables of the v10 schema.
pub const PROPAGATION_TABLE_COUNT: usize = 8;

/// A column spec from its parts.
pub open spec fn column_spec(name: &'static str, data_type: &'static str, not_null: i64, primary_key: i64) -> ColumnSpec {
    ColumnSpec { name, data_type, not_null, primary_key }
}

/// The v10 table `i`: its name, its columns and its `CREATE` statement.
pub open spec fn propagation_table_spec(i: int) -> (&'static str, Seq<ColumnSpec>, &'static str) {
    if i == 0 {
        ("standard_lxmf_propagation_items", seq![
            column_spec("transient_id", "BLOB", 1, 1),
            column_spec("destination", "BLOB", 1, 0),
            column_spec("lxmf_data", "BLOB", 0, 0),
            column_spec("stamp", "BLOB", 0, 0),
            column_spec("stamp_value", "INTEGER", 1, 0),
            column_spec("received_at", "INTEGER", 1, 0),
            column_spec("expires_at", "INTEGER", 1, 0),
            column_spec("stored_size", "INTEGER", 1, 0),
            column_spec("state", "TEXT", 1, 0),
            column_spec("terminal_at", "INTEGER", 0, 0),
        ], ITEMS_TABLE_SQL)
    } else if i == 1 {
        ("standard_lxmf_propagation_peers", seq![
            column_spec("identity_hash", "BLOB", 1, 1),
            column_spec("propagation_destination", "BLOB", 0, 0),
            column_spec("origin", "TEXT", 1, 0),
            column_spec("enabled", "INTEGER", 1, 0),
            column_spec("transfer_limit_kb", "INTEGER", 0, 0),
            column_spec("sync_limit_kb", "INTEGER", 0, 0),
            column_spec("stamp_cost", "INTEGER", 0, 0),
            column_spec("stamp_flexibility", "INTEGER", 0, 0),
            column_spec("peering_cost", "INTEGER", 0, 0),
            column_spec("first_seen_at", "INTEGER", 1, 0),
            column_spec("last_seen_at", "INTEGER", 1, 0),
            column_spec("retry_at", "INTEGER", 0, 0),
            column_spec("backoff_count", "INTEGER", 1, 0),
            column_spec("offered_count", "INTEGER", 1, 0),
            column_spec("wanted_count", "INTEGER", 1, 0),
            column_spec("accepted_count", "INTEGER", 1, 0),
            column_spec("accepted_bytes", "INTEGER", 1, 0),
            column_spec("failure_count", "INTEGER", 1, 0),
        ], PEERS_TABLE_SQL)
    } else if i == 2 {
        ("standard_lxmf_propagation_peer_items", seq![
            column_spec("peer", "BLOB", 1, 1),
            column_spec("transient_id", "BLOB", 1, 2),
            column_spec("disposition", "TEXT", 1, 0),
            column_spec("updated_at", "INTEGER", 1, 0),
        ], PEER_ITEMS_TABLE_SQL)
    } else if i == 3 {
        ("standard_lxmf_propagation_selection", seq![
            column_spec("singleton", "INTEGER", 0, 1),
            column_spec("selected_peer", "BLOB", 0, 0),
            column_spec("mode", "TEXT", 1, 0),
            column_spec("selected_at", "INTEGER", 1, 0),
        ], SELECTION_TABLE_SQL)
    } else if i == 4 {
        ("standard_lxmf_propagation_attempts", seq![
            column_spec("attempt_id", "BLOB", 1, 1),
            column_spec("correlation_id", "BLOB", 1, 0),
            column_spec("peer", "BLOB", 0, 0),
            column_spec("direction", "TEXT", 1, 0),
            column_spec("stage", "TEXT", 1, 0),
            column_spec("state", "TEXT", 1, 0),
            column_spec("started_at", "INTEGER", 1, 0),
            column_spec("updated_at", "INTEGER", 1, 0),
            column_spec("deadline_at", "INTEGER", 0, 0),
            column_spec("offered_count", "INTEGER", 1, 0),
            column_spec("wanted_count", "INTEGER", 1, 0),
            column_spec("accepted_count", "INTEGER", 1, 0),
            column_spec("accepted_bytes", "INTEGER", 1, 0),
            column_spec("failure_code", "TEXT", 0, 0),
            column_spec("failure_detail", "TEXT", 0, 0),
        ], ATTEMPTS_TABLE_SQL)
    } else if i == 5 {
        ("standard_lxmf_propagation_attempt_items", seq![
            column_spec("attempt_id", "BLOB", 1, 1),
            column_spec("transient_id", "BLOB", 1, 2),
            column_spec("role", "TEXT", 1, 3),
        ], ATTEMPT_ITEMS_TABLE_SQL)
    } else if i == 6 {
        ("standard_lxmf_propagation_checkpoints", seq![
            column_spec("peer", "BLOB", 1, 1),
            column_spec("direction", "TEXT", 1, 2),
            column_spec("completed_stage", "TEXT", 1, 0),
            column_spec("cursor", "BLOB", 0, 0),
            column_spec("digest", "BLOB", 0, 0),
            column_spec("item_count", "INTEGER", 1, 0),
            column_spec("byte_count", "INTEGER", 1, 0),
            column_spec("last_attempt", "BLOB", 0, 0),
            column_spec("updated_at", "INTEGER", 1, 0),
        ], CHECKPOINTS_TABLE_SQL)
    } else {
        ("standard_lxmf_propagation_failures", seq![
            column_spec("failure_id", "INTEGER", 0, 1),
            column_spec("code", "TEXT", 1, 0),
            column_spec("detail", "TEXT", 0, 0),
            column_spec("occurred_at", "INTEGER", 1, 0),
            column_spec("peer", "BLOB", 0, 0),
            column_spec("transient_id", "BLOB", 0, 0),
            column_spec("attempt_id", "BLOB", 0, 0),
        ], FAILURES_TABLE_SQL)
    }
}

/// Name, columns and `CREATE` statement of table `i` of the v10 schema.
fn propagation_table(i: usize) -> (r: (&'static str, Vec<ColumnSpec>, &'static str))
    requires
        i < PROPAGATION_TABLE_COUNT,
    ensures
        r.0 == propagation_table_spec(i as int).0,
        r.1@ == propagation_table_spec(i as int).1,
        r.2 == propagation_table_spec(i as int).2,
{
    if i == 0 {
        ("standard_lxmf_propagation_items", vec![
            column("transient_id", "BLOB", 1, 1),
            column("destination", "BLOB", 1, 0),
            column("lxmf_data", "BLOB", 0, 0),
            column("stamp", "BLOB", 0, 0),
            column("stamp_value", "INTEGER", 1, 0),
            column("received_at", "INTEGER", 1, 0),
            column("expires_at", "INTEGER", 1, 0),
            column("stored_size", "INTEGER", 1, 0),
            column("state", "TEXT", 1, 0),
            column("terminal_at", "INTEGER", 0, 0),
        ], ITEMS_TABLE_SQL)
    } else if i == 1 {
        ("standard_lxmf_propagation_peers", vec![
            column("identity_hash", "BLOB", 1, 1),
            column("propagation_destination", "BLOB", 0, 0),
            column("origin", "TEXT", 1, 0),
            column("enabled", "INTEGER", 1, 0),
            column("transfer_limit_kb", "INTEGER", 0, 0),
            column("sync_limit_kb", "INTEGER", 0, 0),
            column("stamp_cost", "INTEGER", 0, 0),
            column("stamp_flexibility", "INTEGER", 0, 0),
            column("peering_cost", "INTEGER", 0, 0),
            column("first_seen_at", "INTEGER", 1, 0),
            column("last_seen_at", "INTEGER", 1, 0),
            column("retry_at", "INTEGER", 0, 0),
            column("backoff_count", "INTEGER", 1, 0),
            column("offered_count", "INTEGER", 1, 0),
            column("wanted_count", "INTEGER", 1, 0),
            column("accepted_count", "INTEGER", 1, 0),
            column("accepted_bytes", "INTEGER", 1, 0),
            column("failure_count", "INTEGER", 1, 0),
        ], PEERS_TABLE_SQL)
    } else if i == 2 {
        ("standard_lxmf_propagation_peer_items", vec![
            column("peer", "BLOB", 1, 1),
            column("transient_id", "BLOB", 1, 2),
            column("disposition", "TEXT", 1, 0),
            column("updated_at", "INTEGER", 1, 0),
        ], PEER_ITEMS_TABLE_SQL)
    } else if i == 3 {
        ("standard_lxmf_propagation_selection", vec![
            column("singleton", "INTEGER", 0, 1),
            column("selected_peer", "BLOB", 0, 0),
            column("mode", "TEXT", 1, 0),
            column("selected_at", "INTEGER", 1, 0),
        ], SELECTION_TABLE_SQL)
    } else if i == 4 {
        ("standard_lxmf_propagation_attempts", vec![
            column("attempt_id", "BLOB", 1, 1),
            column("correlation_id", "BLOB", 1, 0),
            column("peer", "BLOB", 0, 0),
            column("direction", "TEXT", 1, 0),
            column("stage", "TEXT", 1, 0),
            column("state", "TEXT", 1, 0),
            column("started_at", "INTEGER", 1, 0),
            column("updated_at", "INTEGER", 1, 0),
            column("deadline_at", "INTEGER", 0, 0),
            column("offered_count", "INTEGER", 1, 0),
            column("wanted_count", "INTEGER", 1, 0),
            column("accepted_count", "INTEGER", 1, 0),
            column("accepted_bytes", "INTEGER", 1, 0),
            column("failure_code", "TEXT", 0, 0),
            column("failure_detail", "TEXT", 0, 0),
        ], ATTEMPTS_TABLE_SQL)
    } else if i == 5 {
        ("standard_lxmf_propagation_attempt_items", vec![
            column("attempt_id", "BLOB", 1, 1),
            column("transient_id", "BLOB", 1, 2),
            column("role", "TEXT", 1, 3),
        ], ATTEMPT_ITEMS_TABLE_SQL)
    } else if i == 6 {
        ("standard_lxmf_propagation_checkpoints", vec![
            column("peer", "BLOB", 1, 1),
            column("direction", "TEXT", 1, 2),
            column("completed_stage", "TEXT", 1, 0),
            column("cursor", "BLOB", 0, 0),
            column("digest", "BLOB", 0, 0),
            column("item_count", "INTEGER", 1, 0),
            column("byte_count", "INTEGER", 1, 0),
            column("last_attempt", "BLOB", 0, 0),
            column("updated_at", "INTEGER", 1, 0),
        ], CHECKPOINTS_TABLE_SQL)
    } else {
        ("standard_lxmf_propagation_failures", vec![
            column("failure_id", "INTEGER", 0, 1),
            column("code", "TEXT", 1, 0),
            column("detail", "TEXT", 0, 0),
            column("occurred_at", "INTEGER", 1, 0),
            column("peer", "BLOB", 0, 0),
            column("transient_id", "BLOB", 0, 0),
            column("attempt_id", "BLOB", 0, 0),
        ], FAILURES_TABLE_SQL)
    }
}

/// The foreign keys the v10 tables declare, as table, column, parent
/// table, parent column and delete action.
pub open spec fn expected_foreign_key_views() -> Seq<(Seq<char>, Seq<char>, Seq<char>, Seq<char>, Seq<char>)> {
    seq![
        ("standard_lxmf_propagation_attempt_items"@, "attempt_id"@, "standard_lxmf_propagation_attempts"@, "attempt_id"@, "CASCADE"@),
        ("standard_lxmf_propagation_attempts"@, "peer"@, "standard_lxmf_propagation_peers"@, "identity_hash"@, "SET NULL"@),
        ("standard_lxmf_propagation_checkpoints"@, "last_attempt"@, "standard_lxmf_propagation_attempts"@, "attempt_id"@, "SET NULL"@),
        ("standard_lxmf_propagation_checkpoints"@, "peer"@, "standard_lxmf_propagation_peers"@, "identity_hash"@, "CASCADE"@),
        ("standard_lxmf_propagation_failures"@, "attempt_id"@, "standard_lxmf_propagation_attempts"@, "attempt_id"@, "SET NULL"@),
        ("standard_lxmf_propagation_failures"@, "peer"@, "standard_lxmf_propagation_peers"@, "identity_hash"@, "SET NULL"@),
        ("standard_lxmf_propagation_peer_items"@, "peer"@, "standard_lxmf_propagation_peers"@, "identity_hash"@, "CASCADE"@),
        ("standard_lxmf_propagation_peer_items"@, "transient_id"@, "standard_lxmf_propagation_items"@, "transient_id"@, "CASCADE"@),
        ("standard_lxmf_propagation_selection"@, "selected_peer"@, "standard_lxmf_propagation_peers"@, "identity_hash"@, "SET NULL"@),
    ]
}

/// The foreign keys the v10 tables declare.
fn expected_foreign_keys() -> (r: Vec<ForeignKey>)
    ensures
        r@.len() == expected_foreign_key_views().len(),
        forall|k: int| 0 <= k < r@.len() ==> crate::schema_check::fk_view(#[trigger] r@[k]) == expected_foreign_key_views()[k],
{
    vec![
        foreign_key("standard_lxmf_propagation_attempt_items", "attempt_id", "standard_lxmf_propagation_attempts", "attempt_id", "CASCADE"),
        foreign_key("standard_lxmf_propagation_attempts", "peer", "standard_lxmf_propagation_peers", "identity_hash", "SET NULL"),
        foreign_key("standard_lxmf_propagation_checkpoints", "last_attempt", "standard_lxmf_propagation_attempts", "attempt_id", "SET NULL"),
        foreign_key("standard_lxmf_propagation_checkpoints", "peer", "standard_lxmf_propagation_peers", "identity_hash", "CASCADE"),
        foreign_key("standard_lxmf_propagation_failures", "attempt_id", "standard_lxmf_propagation_attempts", "attempt_id", "SET NULL"),
        foreign_key("standard_lxmf_propagation_failures", "peer", "standard_lxmf_propagation_peers", "identity_hash", "SET NULL"),
        foreign_key("standard_lxmf_propagation_peer_items", "peer", "standard_lxmf_propagation_peers", "identity_hash", "CASCADE"),
        foreign_key("standard_lxmf_propagation_peer_items", "transient_id", "standard_lxmf_propagation_items", "transient_id", "CASCADE"),
        foreign_key("standard_lxmf_propagation_selection", "selected_peer", "standard_lxmf_propagation_peers", "identity_hash", "SET NULL"),
    ]
}

/// The number of explicit v10 indexes.
pub const PROPAGATION_INDEX_COUNT: usize = 6;

/// Explicit v10 index `i`: its name, its table and its key columns.
pub open spec fn propagation_index_spec(i: int) -> (&'static str, &'static str, Seq<&'static str>) {
    if i == 0 {
        ("idx_standard_lxmf_propagation_items_destination", "standard_lxmf_propagation_items", seq!["destination", "state", "stored_size", "transient_id"])
    } else if i == 1 {
        ("idx_standard_lxmf_propagation_items_expiry", "standard_lxmf_propagation_items", seq!["state", "expires_at"])
    } else if i == 2 {
        ("idx_standard_lxmf_propagation_peer_items_disposition", "standard_lxmf_propagation_peer_items", seq!["peer", "disposition", "updated_at"])
    } else if i == 3 {
        ("idx_standard_lxmf_propagation_attempts_state", "standard_lxmf_propagation_attempts", seq!["state", "updated_at"])
    } else if i == 4 {
        ("idx_standard_lxmf_propagation_attempts_peer", "standard_lxmf_propagation_attempts", seq!["peer", "direction", "updated_at"])
    } else {
        ("idx_standard_lxmf_propagation_failures_time", "standard_lxmf_propagation_failures", seq!["occurred_at", "failure_id"])
    }
}

/// Name, table and key columns of explicit index `i` of the v10 schema.
fn propagation_index(i: usize) -> (r: (&'static str, &'static str, Vec<&'static str>))
    requires
        i < PROPAGATION_INDEX_COUNT,
    ensures
        r.0 == propagation_index_spec(i as int).0,
        r.1 == propagation_index_spec(i as int).1,
        r.2@ == propagation_index_spec(i as int).2,
{
    if i == 0 {
        ("idx_standard_lxmf_propagation_items_destination", "standard_lxmf_propagation_items", vec!["destination", "state", "stored_size", "transient_id"])
    } else if i == 1 {
        ("idx_standard_lxmf_propagation_items_expiry", "standard_lxmf_propagation_items", vec!["state", "expires_at"])
    } else if i == 2 {
        ("idx_standard_lxmf_propagation_peer_items_disposition", "standard_lxmf_propagation_peer_items", vec!["peer", "disposition", "updated_at"])
    } else if i == 3 {
        ("idx_standard_lxmf_propagation_attempts_state", "standard_lxmf_propagation_attempts", vec!["state", "updated_at"])
    } else if i == 4 {
        ("idx_standard_lxmf_propagation_attempts_peer", "standard_lxmf_propagation_attempts", vec!["peer", "direction", "updated_at"])
    } else {
        ("idx_standard_lxmf_propagation_failures_time", "standard_lxmf_propagation_failures", vec!["occurred_at", "failure_id"])
    }
}

/// How many indexes, explicit and automatic, v10 table `i` has.
pub open spec fn propagation_index_count_spec(i: int) -> (&'static str, i64) {
    if i == 0 {
        ("standard_lxmf_propagation_items", 3)
    } else if i == 1 {
        ("standard_lxmf_propagation_peers", 2)
    } else if i == 2 {
        ("standard_lxmf_propagation_peer_items", 2)
    } else if i == 3 {
        ("standard_lxmf_propagation_selection", 0)
    } else if i == 4 {
        ("standard_lxmf_propagation_attempts", 3)
    } else if i == 5 {
        ("standard_lxmf_propagation_attempt_items", 1)
    } else if i == 6 {
        ("standard_lxmf_propagation_checkpoints", 1)
    } else {
        ("standard_lxmf_propagation_failures", 1)
    }
}

/// How many indexes, explicit and automatic, each v10 table has.
fn propagation_index_count(i: usize) -> (r: (&'static str, i64))
    requires
        i < PROPAGATION_TABLE_COUNT,
    ensures
        r == propagation_index_count_spec(i as int),
{
    if i == 0 {
        ("standard_lxmf_propagation_items", 3)
    } else if i == 1 {
        ("standard_lxmf_propagation_peers", 2)
    } else if i == 2 {
        ("standard_lxmf_propagation_peer_items", 2)
    } else if i == 3 {
        ("standard_lxmf_propagation_selection", 0)
    } else if i == 4 {
        ("standard_lxmf_propagation_attempts", 3)
    } else if i == 5 {
        ("standard_lxmf_propagation_attempt_items", 1)
    } else if i == 6 {
        ("standard_lxmf_propagation_checkpoints", 1)
    } else {
        ("standard_lxmf_propagation_failures", 1)
    }
}

/// The objects the v10 migration creates.
fn target_objects() -> [&'static str; 14] {
    [
        "standard_lxmf_propagation_items",
        "standard_lxmf_propagation_peers",
        "standard_lxmf_propagation_peer_items",
        "standard_lxmf_propagation_selection",
        "standard_lxmf_propagation_attempts",
        "standard_lxmf_propagation_attempt_items",
        "standard_lxmf_propagation_checkpoints",
        "standard_lxmf_propagation_failures",
        "idx_standard_lxmf_propagation_items_destination",
        "idx_standard_lxmf_propagation_items_expiry",
        "idx_standard_lxmf_propagation_peer_items_disposition",
        "idx_standard_lxmf_propagation_attempts_state",
        "idx_standard_lxmf_propagation_attempts_peer",
        "idx_standard_lxmf_propagation_failures_time",
    ]
}

/// Whether stored SQL is present and normalizes to the same text as `expected`.
pub fn sql_matches(actual: &Option<String>, expected: &str) -> (r: bool)
    ensures
        r == (actual matches Some(a) && crate::schema_sql::schema_norm(a@, crate::schema_sql::QuoteMode::Plain)
            == crate::schema_sql::schema_norm(expected@, crate::schema_sql::QuoteMode::Plain)),
{
    match actual {
        Some(a) => {
            let left = normalize_schema_sql(a.as_str());
            let right = normalize_schema_sql(expected);
            str_eq(left.as_str(), right.as_str())
        },
        None => false,
    }
}

impl MessagesStore {
    fn table_is_strict(&mut self, sql: &str, name: &str) -> (r: Result<bool, StoreError>)
        ensures
            crate::store::extends(old(self)@, final(self)@),
    {
        let strict = self.opt_int_query(sql, &[text_arg(name)])?;
        Ok(strict == Some(1i64))
    }

    /// Whether the v10 tables, their columns, foreign keys and indexes are
    /// exactly the schema's, with no triggers, an intact database and no
    /// dangling foreign key.
    fn propagation_schema_is_valid(&mut self) -> (r: Result<bool, StoreError>)
        ensures
            crate::store::extends(old(self)@, final(self)@),
            r == Ok::<bool, StoreError>(true) ==> forall|k: int| 0 <= k < PROPAGATION_TABLE_COUNT
                ==> #[trigger] table_attested_in(final(self)@, old(self)@.len() as int, k),
            r == Ok::<bool, StoreError>(true) ==> final(self)@.len() >= old(self)@.len() + 2 && integrity_ok(
                final(self)@[final(self)@.len() - 2],
            ) && foreign_keys_clean(final(self)@.last()),
    {
        let mut t: usize = 0;
        while t < PROPAGATION_TABLE_COUNT
            invariant
                crate::store::extends(old(self)@, self@),
                t <= PROPAGATION_TABLE_COUNT,
                crate::store::extends(old(self)@, self@),
                forall|k: int| 0 <= k < t ==> #[trigger] table_attested_in(self@, old(self)@.len() as int, k),
            decreases PROPAGATION_TABLE_COUNT - t,
        {
            let (name, columns, create_sql) = propagation_table(t);
            let read_args = [text_arg(name)];
            assert(crate::sql::args_view(read_args@) =~= seq![ArgView::Text(name@)]);
            let ghost before = self@;
            let actual = self.opt_text_query(TABLE_SQL_READ, &read_args)?;
            if !sql_matches(&actual, create_sql) {
                return Ok(false);
            }
            let ghost read = self@;
            proof {
                assert(table_sql_attested(read[before.len() as int], name, create_sql));
                assert(table_attested_in(read, old(self)@.len() as int, t as int));
            }
            if !self.table_is_strict(
                "SELECT strict FROM pragma_table_list WHERE schema = 'main' AND type = 'table' AND name = ?1",
                name,
            )? {
                return Ok(false);
            }
            let rows = self.rows(
                "SELECT name, type, \"notnull\", pk FROM pragma_table_xinfo(?1)
                 WHERE hidden = 0 ORDER BY cid",
                &[text_arg(name)],
            )?;
            if !columns_match(rows.as_slice(), columns.as_slice()) {
                return Ok(false);
            }
            proof {
                assert forall|k: int| 0 <= k < t + 1 implies #[trigger] table_attested_in(self@, old(self)@.len() as int, k) by {
                    if k < t {
                        lemma_attested_extend(before, self@, old(self)@.len() as int, k);
                    } else {
                        lemma_attested_extend(read, self@, old(self)@.len() as int, k);
                    }
                }
            }
            t = t + 1;
        }
        let ghost tables_read = self@;
        let mut actual_keys: Vec<ForeignKey> = Vec::new();
        let mut f: usize = 0;
        while f < PROPAGATION_TABLE_COUNT
            invariant
                crate::store::extends(old(self)@, self@),
                f <= PROPAGATION_TABLE_COUNT,
                crate::store::extends(tables_read, self@),
            decreases PROPAGATION_TABLE_COUNT - f,
        {
            let (name, _, _) = propagation_table(f);
            let rows = self.rows(
                "SELECT \"from\", \"table\", \"to\", on_delete FROM pragma_foreign_key_list(?1)",
                &[text_arg(name)],
            )?;
            let mut k: usize = 0;
            while k < rows.len()
                invariant
                    crate::store::extends(old(self)@, self@),
                    k <= rows.len(),
                    crate::store::extends(tables_read, self@),
                decreases rows.len() - k,
            {
                let row = rows[k].as_slice();
                let from = col_text(row, 0)?;
                let parent = col_text(row, 1)?;
                let to = col_text(row, 2)?;
                let on_delete = col_text(row, 3)?;
                actual_keys.push(ForeignKey { table: crate::text::owned(name), from, parent, to, on_delete });
                k = k + 1;
            }
            f = f + 1;
        }
        let expected_keys = expected_foreign_keys();
        if !foreign_keys_match(actual_keys.as_slice(), expected_keys.as_slice()) {
            return Ok(false);
        }
        let mut x: usize = 0;
        while x < PROPAGATION_INDEX_COUNT
            invariant
                crate::store::extends(old(self)@, self@),
                x <= PROPAGATION_INDEX_COUNT,
                crate::store::extends(tables_read, self@),
            decreases PROPAGATION_INDEX_COUNT - x,
        {
            let (index, table, expected_columns) = propagation_index(x);
            let metadata = self.first_row(
                "SELECT m.tbl_name, l.\"unique\", l.origin, l.partial
                 FROM sqlite_master m JOIN pragma_index_list(m.tbl_name) l ON l.name = m.name
                 WHERE m.type = 'index' AND m.name = ?1",
                &[text_arg(index)],
            )?;
            let metadata_ok = match metadata {
                Some(row) => row.len() >= 4 && value_is_text(&row[0], table) && value_is_int(&row[1], 0)
                    && value_is_text(&row[2], "c") && value_is_int(&row[3], 0),
                None => false,
            };
            if !metadata_ok {
                return Ok(false);
            }
            let columns = self.rows("SELECT name FROM pragma_index_info(?1) ORDER BY seqno", &[text_arg(index)])?;
            if !names_match(columns.as_slice(), expected_columns.as_slice()) {
                return Ok(false);
            }
            x = x + 1;
        }
        let explicit_count = self.int_query(
            "SELECT COUNT(*) FROM sqlite_master
             WHERE type = 'index' AND name LIKE 'idx_standard_lxmf_propagation_%'",
            &[],
        )?;
        if explicit_count != PROPAGATION_INDEX_COUNT as i64 {
            return Ok(false);
        }
        let mut c: usize = 0;
        while c < PROPAGATION_TABLE_COUNT
            invariant
                crate::store::extends(old(self)@, self@),
                c <= PROPAGATION_TABLE_COUNT,
                crate::store::extends(tables_read, self@),
            decreases PROPAGATION_TABLE_COUNT - c,
        {
            let (table, expected_count) = propagation_index_count(c);
            let actual_count = self.int_query("SELECT COUNT(*) FROM pragma_index_list(?1)", &[text_arg(table)])?;
            if actual_count != expected_count {
                return Ok(false);
            }
            c = c + 1;
        }
        let trigger_count = self.int_query("SELECT COUNT(*) FROM sqlite_master
         WHERE type = 'trigger' AND (
             name LIKE 'standard_lxmf_propagation_%'
             OR tbl_name LIKE 'standard_lxmf_propagation_%'
         )", &[])?;
        if trigger_count != 0 {
            return Ok(false);
        }
        let peer_destination_unique_count = self.int_query("SELECT COUNT(*)
         FROM pragma_index_list('standard_lxmf_propagation_peers') l
         WHERE l.\"unique\" = 1 AND l.origin = 'u' AND l.partial = 0
           AND (SELECT COUNT(*) FROM pragma_index_info(l.name)) = 1
           AND (SELECT name FROM pragma_index_info(l.name) WHERE seqno = 0)
               = 'propagation_destination'", &[])?;
        if peer_destination_unique_count != 1 {
            return Ok(false);
        }
        let no_args: [SqlArg; 0] = [];
        assert(crate::sql::args_view(no_args@) =~= Seq::<ArgView>::empty());
        let integrity = match self.first_row(INTEGRITY_CHECK_SQL, &no_args)? {
            Some(row) => col_text(row.as_slice(), 0)?,
            None => return Err(StoreError::QueryReturnedNoRows),
        };
        if !str_eq(integrity.as_str(), "ok") {
            return Ok(false);
        }
        let ghost checked = self@;
        let foreign_key_failure = self.bool_query(FOREIGN_KEY_CHECK_SQL, &no_args)?;
        proof {
            reveal_strlit("ok");
            assert(self@[self@.len() - 2] == checked.last());
            assert forall|k: int| 0 <= k < PROPAGATION_TABLE_COUNT implies #[trigger] table_attested_in(self@, old(self)@.len() as int, k) by {
                lemma_attested_extend(tables_read, self@, old(self)@.len() as int, k);
            }
        }
        Ok(!foreign_key_failure)
    }

    /// Whether the v12 tables and indexes are exactly the schema's, strict,
    /// without foreign keys or triggers.
    pub fn correlation_schema_is_valid(&mut self) -> (r: Result<bool, StoreError>)
        ensures
            crate::store::extends(old(self)@, final(self)@),
    {
        let tables = [
            ("standard_lxmf_propagation_message_links", MESSAGE_LINKS_TABLE_SQL),
            ("standard_lxmf_propagation_client_jobs", CLIENT_JOBS_TABLE_SQL),
            ("standard_lxmf_propagation_client_attempt_items", CLIENT_ATTEMPT_ITEMS_TABLE_SQL),
        ];
        let mut t: usize = 0;
        while t < 3
            invariant
                crate::store::extends(old(self)@, self@),
                t <= 3,
            decreases 3 - t,
        {
            let (name, expected) = tables[t];
            let actual = self.opt_text_query(
                "SELECT sql FROM sqlite_master WHERE type = 'table' AND name = ?1",
                &[text_arg(name)],
            )?;
            if !sql_matches(&actual, expected) {
                return Ok(false);
            }
            if !self.table_is_strict("SELECT strict FROM pragma_table_list WHERE schema = 'main' AND name = ?1", name)? {
                return Ok(false);
            }
            let foreign_keys = self.int_query("SELECT COUNT(*) FROM pragma_foreign_key_list(?1)", &[text_arg(name)])?;
            if foreign_keys != 0 {
                return Ok(false);
            }
            t = t + 1;
        }
        let indexes = self.int_query(
            "SELECT COUNT(*) FROM sqlite_master WHERE type = 'index' AND name LIKE 'idx_stdprop_v12_%'",
            &[],
        )?;
        if indexes != 4 {
            return Ok(false);
        }
        let index_sql = [
            ("idx_stdprop_v12_links_message", "CREATE INDEX idx_stdprop_v12_links_message ON standard_lxmf_propagation_message_links(message_id, updated_at, transient_id)"),
            ("idx_stdprop_v12_links_pending_ack", "CREATE INDEX idx_stdprop_v12_links_pending_ack ON standard_lxmf_propagation_message_links(state, updated_at, transient_id)"),
            ("idx_stdprop_v12_jobs_state", "CREATE INDEX idx_stdprop_v12_jobs_state ON standard_lxmf_propagation_client_jobs(state, updated_at, message_id)"),
            ("idx_stdprop_v12_attempt_items_transient", "CREATE INDEX idx_stdprop_v12_attempt_items_transient ON standard_lxmf_propagation_client_attempt_items(transient_id, role, attempt_id)"),
        ];
        let mut x: usize = 0;
        while x < 4
            invariant
                crate::store::extends(old(self)@, self@),
                x <= 4,
            decreases 4 - x,
        {
            let (name, expected) = index_sql[x];
            let actual = self.opt_text_query(
                "SELECT sql FROM sqlite_master WHERE type = 'index' AND name = ?1",
                &[text_arg(name)],
            )?;
            if !sql_matches(&actual, expected) {
                return Ok(false);
            }
            x = x + 1;
        }
        let triggers = self.int_query(
            "SELECT COUNT(*) FROM sqlite_master WHERE type = 'trigger' AND (name LIKE 'idx_stdprop_v12_%' OR tbl_name IN (?1, ?2, ?3))",
            &[
                text_arg("standard_lxmf_propagation_message_links"),
                text_arg("standard_lxmf_propagation_client_jobs"),
                text_arg("standard_lxmf_propagation_client_attempt_items"),
            ],
        )?;
        Ok(triggers == 0)
    }

    /// v12: message links, client jobs and client attempt items.
    fn ensure_correlation_schema(&mut self) -> (r: Result<(), StoreError>)
        ensures
            crate::store::extends(old(self)@, final(self)@),
    {
        if self.migration_applied(STANDARD_PROPAGATION_CORRELATION_MIGRATION)? {
            return if self.correlation_schema_is_valid()? {
                Ok(())
            } else {
                Err(invalid("v12 standard propagation marker present for malformed schema"))
            };
        }
        let targets = [
            "standard_lxmf_propagation_message_links",
            "standard_lxmf_propagation_client_jobs",
            "standard_lxmf_propagation_client_attempt_items",
            "idx_stdprop_v12_links_message",
            "idx_stdprop_v12_links_pending_ack",
            "idx_stdprop_v12_jobs_state",
            "idx_stdprop_v12_attempt_items_transient",
        ];
        let mut i: usize = 0;
        while i < 7
            invariant
                crate::store::extends(old(self)@, self@),
                i <= 7,
            decreases 7 - i,
        {
            if self.bool_query("SELECT EXISTS(SELECT 1 FROM sqlite_master WHERE name = ?1)", &[text_arg(targets[i])])? {
                return Err(invalid("v12 standard propagation target object already exists"));
            }
            i = i + 1;
        }
        self.begin_immediate()?;
        let created = self.create_correlation_schema();
        self.finish(created)
    }

    fn create_correlation_schema(&mut self) -> (r: Result<(), StoreError>)
        ensures
            crate::store::extends(old(self)@, final(self)@),
    {
        self.batch(MESSAGE_LINKS_TABLE_SQL)?;
        self.batch(CLIENT_JOBS_TABLE_SQL)?;
        self.batch(CLIENT_ATTEMPT_ITEMS_TABLE_SQL)?;
        self.batch(CORRELATION_INDEX_SQL)?;
        if !self.correlation_schema_is_valid()? {
            return Err(invalid("v12 standard propagation schema validation failed"));
        }
        self.exec(
            "INSERT INTO schema_migrations(id, applied_at) VALUES (?1, CAST(strftime('%s','now') AS INTEGER))",
            &[text_arg(STANDARD_PROPAGATION_CORRELATION_MIGRATION)],
        )?;
        Ok(())
    }

    /// Whether the v11 operations table is exactly the schema's: strict, with
    /// its one cascading foreign key to attempts.
    fn observation_schema_is_valid(&mut self) -> (r: Result<bool, StoreError>)
        ensures
            crate::store::extends(old(self)@, final(self)@),
    {
        let sql = self.opt_text_query(
            "SELECT sql FROM sqlite_master
             WHERE type = 'table' AND name = 'standard_lxmf_propagation_attempt_operations'",
            &[],
        )?;
        if !sql_matches(&sql, ATTEMPT_OPERATIONS_TABLE_SQL) {
            return Ok(false);
        }
        let strict = self.opt_int_query(
            "SELECT strict FROM pragma_table_list
             WHERE schema = 'main' AND type = 'table'
               AND name = 'standard_lxmf_propagation_attempt_operations'",
            &[],
        )?;
        if strict != Some(1i64) {
            return Ok(false);
        }
        match self.first_row(
            "SELECT \"from\", \"table\", on_delete
             FROM pragma_foreign_key_list('standard_lxmf_propagation_attempt_operations')",
            &[],
        )? {
            Some(row) => {
                let row = row.as_slice();
                let from = col_text(row, 0)?;
                let parent = col_text(row, 1)?;
                let on_delete = col_text(row, 2)?;
                Ok(str_eq(from.as_str(), "attempt_id") && str_eq(parent.as_str(), "standard_lxmf_propagation_attempts")
                    && str_eq(on_delete.as_str(), "CASCADE"))
            },
            None => Ok(false),
        }
    }

    /// v11: the table recording which operation each download attempt was.
    fn ensure_observation_schema(&mut self) -> (r: Result<(), StoreError>)
        ensures
            crate::store::extends(old(self)@, final(self)@),
    {
        if self.migration_applied(STANDARD_PROPAGATION_OBSERVATION_MIGRATION)? {
            return if self.observation_schema_is_valid()? {
                self.ensure_correlation_schema()
            } else {
                Err(invalid("v11 standard propagation marker present for malformed schema"))
            };
        }
        let target_exists = self.bool_query(
            "SELECT EXISTS(SELECT 1 FROM sqlite_master
             WHERE name = 'standard_lxmf_propagation_attempt_operations')",
            &[],
        )?;
        if target_exists {
            return Err(invalid("v11 standard propagation target object already exists"));
        }
        self.begin_immediate()?;
        let created = self.create_observation_schema();
        self.finish(created)?;
        self.ensure_correlation_schema()
    }

    fn create_observation_schema(&mut self) -> (r: Result<(), StoreError>)
        ensures
            crate::store::extends(old(self)@, final(self)@),
    {
        self.batch(ATTEMPT_OPERATIONS_TABLE_SQL)?;
        if !self.observation_schema_is_valid()? {
            return Err(invalid("v11 standard propagation schema validation failed"));
        }
        self.exec(
            "INSERT INTO schema_migrations(id, applied_at)
             VALUES (?1, CAST(strftime('%s','now') AS INTEGER))",
            &[text_arg(STANDARD_PROPAGATION_OBSERVATION_MIGRATION)],
        )?;
        Ok(())
    }

    /// v10 and what follows it: creates the standard propagation schema, or
    /// attests that a recorded one is intact; a marker over a malformed
    /// schema, or a stray object in its place, fails.
    pub fn ensure_standard_propagation_schema(&mut self) -> (r: Result<(), StoreError>)
        ensures
            crate::store::extends(old(self)@, final(self)@),
            r is Ok ==> propagation_tables_attested(final(self)@, old(self)@.len() as int),
    {
        if self.migration_applied(STANDARD_PROPAGATION_MIGRATION)? {
            let ghost checking = self@;
            if !self.propagation_schema_is_valid()? {
                return Err(invalid("v10 standard propagation marker present for malformed schema"));
            }
            let ghost checked = self@;
            let out = self.ensure_observation_schema();
            proof {
                lemma_tables_attested_widen(checked, self@, checking.len() as int, old(self)@.len() as int);
            }
            return out;
        }
        let targets = target_objects();
        let mut i: usize = 0;
        while i < 14
            invariant
                crate::store::extends(old(self)@, self@),
                i <= 14,
            decreases 14 - i,
        {
            if self.bool_query("SELECT EXISTS(SELECT 1 FROM sqlite_master WHERE name = ?1)", &[text_arg(targets[i])])? {
                return Err(invalid("v10 standard propagation target object already exists"));
            }
            i = i + 1;
        }
        self.begin_immediate()?;
        let ghost creating = self@;
        let created = self.create_propagation_schema();
        let ghost made = self@;
        self.finish(created)?;
        let ghost committed = self@;
        let out = self.ensure_observation_schema();
        proof {
            lemma_tables_attested_widen(made, committed, creating.len() as int, old(self)@.len() as int);
            lemma_tables_attested_widen(committed, self@, old(self)@.len() as int, old(self)@.len() as int);
        }
        out
    }

    fn create_propagation_schema(&mut self) -> (r: Result<(), StoreError>)
        ensures
            crate::store::extends(old(self)@, final(self)@),
            r is Ok ==> propagation_tables_attested(final(self)@, old(self)@.len() as int),
    {
        let mut t: usize = 0;
        while t < PROPAGATION_TABLE_COUNT
            invariant
                crate::store::extends(old(self)@, self@),
                t <= PROPAGATION_TABLE_COUNT,
            decreases PROPAGATION_TABLE_COUNT - t,
        {
            let (_, _, create_sql) = propagation_table(t);
            self.batch(create_sql)?;
            t = t + 1;
        }
        self.batch(INDEX_SQL)?;
        let ghost checking = self@;
        if !self.propagation_schema_is_valid()? {
            return Err(invalid("v10 standard propagation schema validation failed"));
        }
        let ghost checked = self@;
        self.exec(
            "INSERT INTO schema_migrations(id, applied_at) VALUES (?1, CAST(strftime('%s','now') AS INTEGER))",
            &[text_arg(STANDARD_PROPAGATION_MIGRATION)],
        )?;
        proof {
            lemma_tables_attested_widen(checked, self@, checking.len() as int, old(self)@.len() as int);
        }
        Ok(())
    }
}

/// The read of a table's stored SQL.
pub const TABLE_SQL_READ: &'static str = "SELECT sql FROM sqlite_master WHERE type = 'table' AND name = ?1";

/// The database's own integrity check.
pub const INTEGRITY_CHECK_SQL: &'static str = "PRAGMA integrity_check";

/// The read of whether any foreign key dangles.
pub const FOREIGN_KEY_CHECK_SQL: &'static str = "SELECT EXISTS(SELECT 1 FROM pragma_foreign_key_check)";

/// Whether `call` read the stored SQL of table `name` and it normalizes to
/// the same text as `create`.
pub open spec fn table_sql_attested(call: SqlCall, name: &str, create: &str) -> bool {
    &&& call matches SqlCall::Query(q, a, Some(rows))
    &&& q == TABLE_SQL_READ@
    &&& a == seq![ArgView::Text(name@)]
    &&& rows.len() > 0
    &&& crate::sql::opt_text_col(rows[0], 0) is Some
    &&& crate::schema_sql::schema_norm(crate::sql::opt_text_col(rows[0], 0)->0, crate::schema_sql::QuoteMode::Plain)
        == crate::schema_sql::schema_norm(create@, crate::schema_sql::QuoteMode::Plain)
}

/// Whether some call of `t` from `from` on attested the stored SQL of v10
/// table `k`.
pub open spec fn table_attested_in(t: Seq<SqlCall>, from: int, k: int) -> bool {
    exists|i: int| from <= i < t.len() && #[trigger] table_sql_attested(t[i], propagation_table_spec(k).0, propagation_table_spec(k).2)
}

/// Whether `call` ran the integrity check and it answered `ok`.
pub open spec fn integrity_ok(call: SqlCall) -> bool {
    &&& call matches SqlCall::Query(q, a, Some(rows))
    &&& q == INTEGRITY_CHECK_SQL@
    &&& rows.len() > 0
    &&& crate::sql::text_value(rows[0][0]) == Some("ok"@)
}

/// Whether `call` asked whether a foreign key dangles and none did.
pub open spec fn foreign_keys_clean(call: SqlCall) -> bool {
    &&& call matches SqlCall::Query(q, a, Some(_))
    &&& q == FOREIGN_KEY_CHECK_SQL@
    &&& crate::store::query_int(call) == Some(0i64)
}

proof fn lemma_attested_extend(before: Seq<SqlCall>, after: Seq<SqlCall>, from: int, k: int)
    requires
        0 <= from,
        table_attested_in(before, from, k),
        crate::store::extends(before, after),
    ensures
        table_attested_in(after, from, k),
{
    let i = choose|i: int| from <= i < before.len() && #[trigger] table_sql_attested(before[i], propagation_table_spec(k).0, propagation_table_spec(k).2);
    assert(after[i] == before[i]);
}

/// Whether, from position `from` of `t` on, the stored SQL of every v10
/// table was read and found to be the schema's.
pub open spec fn propagation_tables_attested(t: Seq<SqlCall>, from: int) -> bool {
    forall|k: int| 0 <= k < PROPAGATION_TABLE_COUNT ==> #[trigger] table_attested_in(t, from, k)
}

pub proof fn lemma_tables_attested_widen(before: Seq<SqlCall>, after: Seq<SqlCall>, from: int, outer: int)
    requires
        0 <= outer <= from,
        propagation_tables_attested(before, from),
        crate::store::extends(before, after),
    ensures
        propagation_tables_attested(after, outer),
{
    assert forall|k: int| 0 <= k < PROPAGATION_TABLE_COUNT implies #[trigger] table_attested_in(after, outer, k) by {
        assert(table_attested_in(before, from, k));
        let i = choose|i: int| from <= i < before.len() && #[trigger] table_sql_attested(before[i], propagation_table_spec(k).0, propagation_table_spec(k).2);
        assert(after[i] == before[i]);
    }
}

} // verus!
