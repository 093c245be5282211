//! The message store's schema and its migrations, from the first tables to
//! the inspection tables, each applied once and recorded by id.
use vstd::prelude::*;
use crate::error::{invalid, StoreError};
use crate::migration::{merge_contacts, pick_latest, Candidate};
use crate::records::ContactRecord;
use crate::schema_check::{contains_all, has_all_names, value_is_text};
use crate::sql::{col_blob, col_int, col_opt_text, col_text, SqlArg, SqlCall, SqlValue};
use crate::store::{blob_arg, int_arg, opt_blob_arg, opt_text_arg, text_arg, MessagesStore};
use crate::text::{bytes_eq, str_eq, string_from_utf8, to_ascii_lower};

verus! {

pub const ROUTER_MIGRATION: &'static str = "2026-08-22-authoritative-lxmf-router-v1";
pub const RECEIPT_MIGRATION: &'static str = "2026-08-22-authoritative-lxmf-receipts-v2";
pub const CANONICAL_MIGRATION: &'static str = "2026-08-22-canonical-lxmf-inbound-v3";
pub const FIDELITY_MIGRATION: &'static str = "2026-08-23-canonical-lxmf-fidelity-v4";
pub const RESERVATION_MIGRATION: &'static str = "2026-08-23-lxmf-ticket-offer-reservations-v5";
pub const CONVERSATION_MIGRATION: &'static str = "2026-08-23-conversation-state-drafts-v6";
pub const SCHEMA_HARDENING_MIGRATION: &'static str = "2026-08-23-conversation-schema-hardening-v7";
pub const PAGINATION_MIGRATION: &'static str = "2026-08-23-stable-message-pagination-v8";
pub const ATTACHMENT_MIGRATION: &'static str = "2026-08-24-lxmf-inline-attachments-v9";
pub const MESSAGE_INSPECTION_MIGRATION: &'static str = "2026-08-25-authoritative-message-inspection-v13";

/// The statements that create the base tables when they are missing.
pub const BASE_TABLES_SQL: &'static str = "CREATE TABLE IF NOT EXISTS messages (
                id TEXT PRIMARY KEY,
                source TEXT NOT NULL,
                destination TEXT NOT NULL,
                title TEXT NOT NULL,
                content TEXT NOT NULL,
                timestamp INTEGER NOT NULL,
                direction TEXT NOT NULL,
                fields TEXT,
                receipt_status TEXT
            );
            CREATE TABLE IF NOT EXISTS announces (
                id TEXT PRIMARY KEY,
                peer TEXT NOT NULL,
                timestamp INTEGER NOT NULL,
                name TEXT,
                name_source TEXT,
                first_seen INTEGER NOT NULL,
                seen_count INTEGER NOT NULL,
                app_data_hex TEXT,
                capabilities TEXT,
                rssi REAL,
                snr REAL,
                q REAL,
                stamp_cost INTEGER,
                stamp_cost_flexibility INTEGER,
                peering_cost INTEGER
            );
            CREATE TABLE IF NOT EXISTS sdk_domain_state (
                domain TEXT PRIMARY KEY,
                state_json TEXT NOT NULL
            );
            CREATE TABLE IF NOT EXISTS propagation_store (
                id TEXT PRIMARY KEY,
                dest_hash TEXT NOT NULL,
                lxmf_bytes BLOB NOT NULL,
                source_hash TEXT,
                received_at INTEGER NOT NULL,
                expires_at INTEGER NOT NULL,
                size_bytes INTEGER NOT NULL
            );
            CREATE INDEX IF NOT EXISTS idx_prop_dest ON propagation_store(dest_hash);
            CREATE INDEX IF NOT EXISTS idx_prop_expires ON propagation_store(expires_at);";
const PEER_TABLES_SQL: &'static str = "CREATE TABLE IF NOT EXISTS contacts (
                peer_hash TEXT PRIMARY KEY,
                alias TEXT,
                notes TEXT,
                created_at INTEGER NOT NULL,
                updated_at INTEGER NOT NULL
            );
            CREATE TABLE IF NOT EXISTS blocked_peers (
                identity_hash TEXT PRIMARY KEY,
                blocked_at INTEGER NOT NULL
            );
            CREATE TABLE IF NOT EXISTS rbac_roster (
                identity_hash TEXT PRIMARY KEY,
                role TEXT NOT NULL,
                label TEXT NOT NULL DEFAULT '',
                grants TEXT NOT NULL DEFAULT ''
            );";
const MIGRATIONS_TABLE_SQL: &'static str = "CREATE TABLE IF NOT EXISTS schema_migrations (
                id TEXT PRIMARY KEY,
                applied_at INTEGER NOT NULL
            );";
const ROUTER_SQL: &'static str = "BEGIN IMMEDIATE;
                CREATE TABLE IF NOT EXISTS outbound_routes (
                    message_id TEXT PRIMARY KEY REFERENCES messages(id) ON DELETE CASCADE,
                    requested_method TEXT NOT NULL,
                    actual_method TEXT NOT NULL,
                    representation TEXT NOT NULL,
                    fallback_reason TEXT,
                    correlation_id TEXT NOT NULL,
                    deadline_unix_ms INTEGER NOT NULL,
                    state TEXT NOT NULL,
                    attempt_count INTEGER NOT NULL DEFAULT 0
                );
                CREATE TABLE IF NOT EXISTS outbound_attempts (
                    message_id TEXT NOT NULL REFERENCES outbound_routes(message_id) ON DELETE CASCADE,
                    attempt_number INTEGER NOT NULL,
                    started_unix_ms INTEGER NOT NULL,
                    deadline_unix_ms INTEGER NOT NULL,
                    state TEXT NOT NULL,
                    PRIMARY KEY (message_id, attempt_number)
                );
                CREATE INDEX IF NOT EXISTS idx_outbound_routes_correlation ON outbound_routes(correlation_id);
                INSERT INTO schema_migrations (id, applied_at) VALUES ('2026-08-22-authoritative-lxmf-router-v1', CAST(strftime('%s','now') AS INTEGER));
                COMMIT;";
const RECEIPT_SQL: &'static str = "BEGIN IMMEDIATE;
                ALTER TABLE outbound_routes ADD COLUMN retry_of TEXT REFERENCES outbound_routes(message_id);
                CREATE UNIQUE INDEX IF NOT EXISTS idx_outbound_routes_retry_of
                    ON outbound_routes(retry_of) WHERE retry_of IS NOT NULL;
                CREATE TABLE IF NOT EXISTS outbound_evidence (
                    evidence_id TEXT PRIMARY KEY,
                    message_id TEXT NOT NULL REFERENCES outbound_routes(message_id) ON DELETE CASCADE,
                    kind TEXT NOT NULL
                );
                CREATE INDEX IF NOT EXISTS idx_outbound_evidence_message
                    ON outbound_evidence(message_id);
                INSERT INTO schema_migrations (id, applied_at) VALUES ('2026-08-22-authoritative-lxmf-receipts-v2', CAST(strftime('%s','now') AS INTEGER));
                COMMIT;";
const CANONICAL_SQL: &'static str = "BEGIN IMMEDIATE;
                 CREATE TABLE canonical_inbound_messages (
                     message_id TEXT PRIMARY KEY REFERENCES messages(id) ON DELETE CASCADE,
                     source BLOB NOT NULL CHECK(length(source) = 16),
                     destination BLOB NOT NULL CHECK(length(destination) = 16),
                     title BLOB NOT NULL CHECK(length(title) <= 1048576),
                     content BLOB NOT NULL CHECK(length(content) <= 1048576),
                     timestamp REAL NOT NULL,
                     fields_msgpack BLOB CHECK(fields_msgpack IS NULL OR length(fields_msgpack) <= 1048576),
                     signature BLOB CHECK(signature IS NULL OR length(signature) = 64),
                     stamp BLOB CHECK(stamp IS NULL OR length(stamp) <= 32),
                     wire BLOB NOT NULL CHECK(length(wire) <= 4194304),
                     authentication_state TEXT NOT NULL CHECK(authentication_state IN ('verified','invalid','unknown_identity','not_applicable')),
                     stamp_state TEXT NOT NULL CHECK(stamp_state IN ('verified','invalid','unknown','not_applicable')),
                     stamp_value INTEGER
                 );
                 CREATE INDEX idx_canonical_inbound_unknown
                     ON canonical_inbound_messages(source, authentication_state);
                 CREATE TABLE lxmf_stamp_policy (
                     singleton INTEGER PRIMARY KEY CHECK(singleton = 1),
                     target_cost INTEGER NOT NULL CHECK(target_cost BETWEEN 0 AND 64),
                     flexibility INTEGER NOT NULL CHECK(flexibility BETWEEN 0 AND 64)
                 );
                 INSERT INTO lxmf_stamp_policy(singleton, target_cost, flexibility) VALUES (1, 0, 0);
                 CREATE TABLE lxmf_peer_costs (
                     peer TEXT PRIMARY KEY CHECK(length(peer) <= 128),
                     stamp_cost INTEGER NOT NULL CHECK(stamp_cost BETWEEN 0 AND 64),
                     observed_at INTEGER NOT NULL
                 );
                 CREATE TABLE lxmf_tickets (
                     peer TEXT NOT NULL CHECK(length(peer) <= 128),
                     ticket BLOB NOT NULL CHECK(length(ticket) = 16),
                     expires_at INTEGER NOT NULL,
                     direction TEXT NOT NULL CHECK(direction IN ('issued','received')),
                     PRIMARY KEY(peer, direction, ticket)
                 );
                 CREATE INDEX idx_lxmf_tickets_expiry ON lxmf_tickets(expires_at);
                 INSERT INTO schema_migrations (id, applied_at) VALUES ('2026-08-22-canonical-lxmf-inbound-v3', CAST(strftime('%s','now') AS INTEGER));
                 COMMIT;";
const FIDELITY_SQL: &'static str = "ALTER TABLE lxmf_stamp_policy RENAME TO lxmf_stamp_policy_v3;
                 CREATE TABLE lxmf_stamp_policy (
                     singleton INTEGER PRIMARY KEY CHECK(singleton = 1),
                     target_cost INTEGER NOT NULL CHECK(target_cost BETWEEN 0 AND 254),
                     flexibility INTEGER NOT NULL CHECK(flexibility BETWEEN 0 AND 254)
                 );
                 INSERT INTO lxmf_stamp_policy SELECT singleton, target_cost, flexibility
                     FROM lxmf_stamp_policy_v3;
                 DROP TABLE lxmf_stamp_policy_v3;
                 ALTER TABLE lxmf_peer_costs RENAME TO lxmf_peer_costs_v3;
                 CREATE TABLE lxmf_peer_costs (
                     peer TEXT PRIMARY KEY CHECK(length(peer) <= 128),
                     stamp_cost INTEGER NOT NULL CHECK(stamp_cost BETWEEN 0 AND 254),
                     observed_at INTEGER NOT NULL
                 );
                 INSERT INTO lxmf_peer_costs SELECT peer, stamp_cost, observed_at
                     FROM lxmf_peer_costs_v3;
                 DROP TABLE lxmf_peer_costs_v3;
                 CREATE TABLE lxmf_ticket_deliveries (
                     peer TEXT PRIMARY KEY CHECK(length(peer) <= 128),
                     last_delivered_at INTEGER NOT NULL
                 );
                 CREATE TABLE outbound_ticket_offers (
                     message_id TEXT PRIMARY KEY REFERENCES outbound_routes(message_id) ON DELETE CASCADE,
                     peer TEXT NOT NULL CHECK(length(peer) <= 128),
                     ticket BLOB NOT NULL CHECK(length(ticket) = 16),
                      expires_at INTEGER NOT NULL,
                       delivered_at INTEGER
                  );
                  CREATE TABLE lxmf_ticket_offer_reservations (
                      peer TEXT PRIMARY KEY CHECK(length(peer) <= 128),
                      reservation_id TEXT NOT NULL UNIQUE CHECK(length(reservation_id) <= 128),
                      reserved_at INTEGER NOT NULL
                  );";
const RESERVATION_SQL: &'static str = "BEGIN IMMEDIATE;
                 CREATE TABLE IF NOT EXISTS lxmf_ticket_offer_reservations (
                     peer TEXT PRIMARY KEY CHECK(length(peer) <= 128),
                     reservation_id TEXT NOT NULL UNIQUE CHECK(length(reservation_id) <= 128),
                     reserved_at INTEGER NOT NULL
                 );
                 INSERT INTO schema_migrations (id, applied_at) VALUES
                     ('2026-08-23-lxmf-ticket-offer-reservations-v5', CAST(strftime('%s','now') AS INTEGER));
                 COMMIT;";
const VALID_CONTACTS_SQL: &'static str = "SELECT peer_hash, alias, notes, created_at, updated_at
                         FROM contacts
                         WHERE typeof(peer_hash) = 'text'
                           AND length(peer_hash) = 32
                           AND peer_hash NOT GLOB '*[^0-9A-Fa-f]*'
                           AND typeof(alias) IN ('null', 'text')
                           AND typeof(notes) IN ('null', 'text')
                           AND typeof(created_at) = 'integer' AND created_at >= 0
                           AND typeof(updated_at) = 'integer' AND updated_at >= 0
                         ORDER BY lower(peer_hash), updated_at DESC,
                                  created_at DESC, peer_hash DESC";
const DELETE_VALID_CONTACTS_SQL: &'static str = "DELETE FROM contacts
                     WHERE typeof(peer_hash) = 'text'
                       AND length(peer_hash) = 32
                       AND peer_hash NOT GLOB '*[^0-9A-Fa-f]*'
                       AND typeof(alias) IN ('null', 'text')
                       AND typeof(notes) IN ('null', 'text')
                       AND typeof(created_at) = 'integer' AND created_at >= 0
                       AND typeof(updated_at) = 'integer' AND updated_at >= 0";
const CONTACTS_INDEX_SQL: &'static str = "CREATE UNIQUE INDEX IF NOT EXISTS idx_contacts_canonical_peer
                     ON contacts(lower(peer_hash))
                     WHERE typeof(peer_hash) = 'text'
                       AND length(peer_hash) = 32
                       AND peer_hash NOT GLOB '*[^0-9A-Fa-f]*'
                       AND typeof(alias) IN ('null', 'text')
                       AND typeof(notes) IN ('null', 'text')
                       AND typeof(created_at) = 'integer' AND created_at >= 0
                       AND typeof(updated_at) = 'integer' AND updated_at >= 0;";
const CONVERSATION_SCHEMA_DDL: &'static str = "
    CREATE TABLE conversation_state (
        peer_hash TEXT NOT NULL PRIMARY KEY
            CHECK(length(peer_hash) = 32)
            CHECK(peer_hash = lower(peer_hash))
            CHECK(peer_hash NOT GLOB '*[^0-9a-f]*'),
        pinned INTEGER NOT NULL DEFAULT 0 CHECK(pinned IN (0, 1)),
        muted INTEGER NOT NULL DEFAULT 0 CHECK(muted IN (0, 1)),
        updated_at INTEGER NOT NULL
    );
    CREATE TABLE conversation_drafts (
        peer_hash TEXT NOT NULL PRIMARY KEY
            CHECK(length(peer_hash) = 32)
            CHECK(peer_hash = lower(peer_hash))
            CHECK(peer_hash NOT GLOB '*[^0-9a-f]*'),
        content TEXT NOT NULL
            CHECK(typeof(content) = 'text')
            CHECK(length(CAST(content AS BLOB)) <= 65536),
        updated_at INTEGER NOT NULL
    );";
const PAGE_KEYS_SCHEMA_DDL: &'static str = "
    CREATE TABLE message_page_keys (
        message_id TEXT NOT NULL UNIQUE REFERENCES messages(id) ON DELETE CASCADE,
        ingest_seq INTEGER PRIMARY KEY AUTOINCREMENT,
        sort_timestamp INTEGER NOT NULL,
        conversation_peer TEXT NOT NULL
    );";
const PAGE_METADATA_SCHEMA_DDL: &'static str = "
    CREATE TABLE message_page_metadata (
        singleton INTEGER PRIMARY KEY CHECK(singleton = 1),
        store_id BLOB NOT NULL UNIQUE
            CHECK(typeof(store_id) = 'blob' AND length(store_id) = 16),
        conversation_epoch INTEGER NOT NULL DEFAULT 0
            CHECK(typeof(conversation_epoch) = 'integer'
                  AND conversation_epoch BETWEEN 0 AND 9223372036854775807),
        cursor_secret BLOB NOT NULL UNIQUE
            CHECK(typeof(cursor_secret) = 'blob' AND length(cursor_secret) = 32)
    );";
const CANONICAL_INSPECTION_TABLE_SQL: &'static str = "CREATE TABLE canonical_inbound_inspection (
    message_id TEXT PRIMARY KEY REFERENCES canonical_inbound_messages(message_id) ON DELETE CASCADE CHECK(typeof(message_id) = 'text'),
    stamp_target INTEGER CHECK(stamp_target IS NULL OR (typeof(stamp_target) = 'integer' AND stamp_target BETWEEN 0 AND 254))
) STRICT";
const OUTBOUND_INSPECTION_TABLE_SQL: &'static str = "CREATE TABLE outbound_message_inspection (
    message_id TEXT PRIMARY KEY REFERENCES outbound_routes(message_id) ON DELETE CASCADE CHECK(typeof(message_id) = 'text'),
    terminal_detail TEXT CHECK(terminal_detail IS NULL OR (typeof(terminal_detail) = 'text' AND length(CAST(terminal_detail AS BLOB)) <= 1024))
) STRICT";
pub const DELIVERY_EVIDENCE_TABLE_SQL: &'static str = "CREATE TABLE message_delivery_evidence (
    evidence_hash TEXT PRIMARY KEY CHECK(typeof(evidence_hash) = 'text' AND length(evidence_hash) = 64 AND evidence_hash = lower(evidence_hash) AND evidence_hash NOT GLOB '*[^0-9a-f]*'),
    message_id TEXT NOT NULL REFERENCES outbound_routes(message_id) ON DELETE CASCADE CHECK(typeof(message_id) = 'text'),
    kind TEXT NOT NULL CHECK(typeof(kind) = 'text' AND kind IN ('packet_receipt','resource_completion')),
    representation TEXT NOT NULL CHECK(typeof(representation) = 'text' AND representation IN ('packet','resource')),
    state TEXT NOT NULL CHECK(typeof(state) = 'text' AND state IN ('tracked','completed','failed','cancelled')),
    outcome TEXT CHECK(outcome IS NULL OR (typeof(outcome) = 'text' AND length(CAST(outcome AS BLOB)) <= 1024)),
    attempt_number INTEGER NOT NULL CHECK(typeof(attempt_number) = 'integer' AND attempt_number BETWEEN 1 AND 32),
    correlation_id TEXT CHECK(correlation_id IS NULL OR (typeof(correlation_id) = 'text' AND length(CAST(correlation_id AS BLOB)) BETWEEN 1 AND 128)),
    observed_at INTEGER NOT NULL CHECK(typeof(observed_at) = 'integer' AND observed_at >= 0),
    terminal_at INTEGER CHECK(terminal_at IS NULL OR (typeof(terminal_at) = 'integer' AND terminal_at >= observed_at)),
    transferred_bytes INTEGER CHECK(transferred_bytes IS NULL OR (typeof(transferred_bytes) = 'integer' AND transferred_bytes >= 0)),
    total_bytes INTEGER CHECK(total_bytes IS NULL OR (typeof(total_bytes) = 'integer' AND total_bytes >= 0)),
    progress INTEGER CHECK(progress IS NULL OR (typeof(progress) = 'integer' AND progress BETWEEN 0 AND 100)),
    CHECK((kind = 'packet_receipt' AND representation = 'packet') OR (kind = 'resource_completion' AND representation = 'resource')),
    CHECK((state = 'tracked' AND terminal_at IS NULL) OR (state != 'tracked' AND terminal_at IS NOT NULL)),
    CHECK((representation = 'packet' AND transferred_bytes IS NULL AND total_bytes IS NULL AND progress IS NULL) OR (representation = 'resource' AND ((transferred_bytes IS NULL AND total_bytes IS NULL AND progress IS NULL) OR (transferred_bytes IS NOT NULL AND total_bytes IS NOT NULL AND progress IS NOT NULL AND transferred_bytes <= total_bytes))))
) STRICT";
pub const DELIVERY_EVIDENCE_INDEX_SQL: &'static str = "CREATE INDEX idx_message_delivery_evidence_message
    ON message_delivery_evidence(message_id, observed_at DESC, evidence_hash)";
pub const DELIVERY_EVIDENCE_RETENTION_INDEX_SQL: &'static str = "CREATE INDEX idx_message_delivery_evidence_terminal
    ON message_delivery_evidence(terminal_at) WHERE terminal_at IS NOT NULL";
const PAGE_KEYS_COHERENT_SQL: &'static str = "SELECT EXISTS(
             SELECT 1 FROM messages m
             LEFT JOIN message_page_keys k ON k.message_id = m.id
             WHERE k.message_id IS NULL
                OR k.sort_timestamp <> m.timestamp
                OR k.conversation_peer <> CASE WHEN m.direction = 'out' THEN
                       CASE WHEN length(m.destination) = 32
                                  AND m.destination NOT GLOB '*[^0-9A-Fa-f]*'
                            THEN lower(m.destination) ELSE m.destination END
                   ELSE CASE WHEN length(m.source) = 32
                                  AND m.source NOT GLOB '*[^0-9A-Fa-f]*'
                            THEN lower(m.source) ELSE m.source END END
             UNION ALL
             SELECT 1 FROM message_page_keys k
             LEFT JOIN messages m ON m.id = k.message_id WHERE m.id IS NULL
         )";
const REBUILD_PAGE_KEYS_SQL: &'static str = "INSERT INTO message_page_keys (message_id, sort_timestamp, conversation_peer)
         SELECT id, timestamp,
                CASE WHEN direction = 'out' THEN
                    CASE WHEN length(destination) = 32
                              AND destination NOT GLOB '*[^0-9A-Fa-f]*'
                         THEN lower(destination) ELSE destination END
                ELSE CASE WHEN length(source) = 32
                               AND source NOT GLOB '*[^0-9A-Fa-f]*'
                          THEN lower(source) ELSE source END END
         FROM messages ORDER BY timestamp ASC, id ASC;";
const PAGINATION_INVARIANTS_SQL: &'static str = "CREATE INDEX IF NOT EXISTS idx_message_page_peer_order
             ON message_page_keys(conversation_peer, sort_timestamp DESC, ingest_seq DESC);
         CREATE INDEX IF NOT EXISTS idx_message_page_snapshot_conversation
             ON message_page_keys(ingest_seq, conversation_peer, sort_timestamp DESC);
         CREATE TRIGGER messages_page_key_after_insert
         AFTER INSERT ON messages
         BEGIN
             INSERT INTO message_page_keys (message_id, sort_timestamp, conversation_peer)
             VALUES (NEW.id, NEW.timestamp,
                 CASE WHEN NEW.direction = 'out' THEN
                     CASE WHEN length(NEW.destination) = 32
                               AND NEW.destination NOT GLOB '*[^0-9A-Fa-f]*'
                          THEN lower(NEW.destination) ELSE NEW.destination END
                 ELSE CASE WHEN length(NEW.source) = 32
                                AND NEW.source NOT GLOB '*[^0-9A-Fa-f]*'
                           THEN lower(NEW.source) ELSE NEW.source END END);
         END;
         CREATE TRIGGER messages_page_membership_immutable
         BEFORE UPDATE OF source, destination, timestamp, direction ON messages
         WHEN OLD.source <> NEW.source OR OLD.destination <> NEW.destination
              OR OLD.timestamp <> NEW.timestamp OR OLD.direction <> NEW.direction
         BEGIN
             SELECT RAISE(ABORT, 'message page membership and ordering are immutable');
         END;
         CREATE TRIGGER message_page_keys_immutable
         BEFORE UPDATE ON message_page_keys
         BEGIN
             SELECT RAISE(ABORT, 'message page keys are immutable');
         END;
         CREATE TRIGGER message_page_keys_delete_guard
         BEFORE DELETE ON message_page_keys
         WHEN EXISTS(SELECT 1 FROM messages WHERE id = OLD.message_id)
         BEGIN
             SELECT RAISE(ABORT, 'message page key requires parent deletion');
         END;
         CREATE TRIGGER message_page_metadata_secret_immutable
         BEFORE UPDATE OF store_id, cursor_secret ON message_page_metadata
         WHEN OLD.store_id <> NEW.store_id OR OLD.cursor_secret <> NEW.cursor_secret
         BEGIN
             SELECT RAISE(ABORT, 'pagination identity is immutable');
         END;
         CREATE TRIGGER messages_conversation_epoch_after_delete
         AFTER DELETE ON messages
         BEGIN
             SELECT CASE WHEN (SELECT conversation_epoch FROM message_page_metadata
                               WHERE singleton = 1) >= 9223372036854775807
                         THEN RAISE(ABORT, 'conversation epoch exhausted') END;
             UPDATE message_page_metadata SET conversation_epoch = conversation_epoch + 1
             WHERE singleton = 1;
         END;
         CREATE TRIGGER messages_conversation_epoch_after_read
         AFTER UPDATE OF read ON messages
         WHEN COALESCE(OLD.read, 0) <> COALESCE(NEW.read, 0)
         BEGIN
             SELECT CASE WHEN (SELECT conversation_epoch FROM message_page_metadata
                               WHERE singleton = 1) >= 9223372036854775807
                         THEN RAISE(ABORT, 'conversation epoch exhausted') END;
             UPDATE message_page_metadata SET conversation_epoch = conversation_epoch + 1
             WHERE singleton = 1;
         END;
         CREATE TRIGGER conversation_state_epoch_after_insert
         AFTER INSERT ON conversation_state WHEN NEW.pinned = 1
         BEGIN
             SELECT CASE WHEN (SELECT conversation_epoch FROM message_page_metadata
                               WHERE singleton = 1) >= 9223372036854775807
                         THEN RAISE(ABORT, 'conversation epoch exhausted') END;
             UPDATE message_page_metadata SET conversation_epoch = conversation_epoch + 1
             WHERE singleton = 1;
         END;
         CREATE TRIGGER conversation_state_epoch_after_pin
         AFTER UPDATE OF pinned ON conversation_state WHEN OLD.pinned <> NEW.pinned
         BEGIN
             SELECT CASE WHEN (SELECT conversation_epoch FROM message_page_metadata
                               WHERE singleton = 1) >= 9223372036854775807
                         THEN RAISE(ABORT, 'conversation epoch exhausted') END;
             UPDATE message_page_metadata SET conversation_epoch = conversation_epoch + 1
             WHERE singleton = 1;
         END;
         CREATE TRIGGER conversation_state_epoch_after_delete
         AFTER DELETE ON conversation_state WHEN OLD.pinned = 1
         BEGIN
             SELECT CASE WHEN (SELECT conversation_epoch FROM message_page_metadata
                               WHERE singleton = 1) >= 9223372036854775807
                         THEN RAISE(ABORT, 'conversation epoch exhausted') END;
             UPDATE message_page_metadata SET conversation_epoch = conversation_epoch + 1
             WHERE singleton = 1;
         END;";
const DROP_PAGINATION_TRIGGERS_SQL: &'static str = "DROP TRIGGER IF EXISTS messages_page_key_after_insert;
         DROP TRIGGER IF EXISTS messages_page_membership_immutable;
         DROP TRIGGER IF EXISTS message_page_keys_immutable;
         DROP TRIGGER IF EXISTS message_page_keys_delete_guard;
         DROP TRIGGER IF EXISTS message_page_metadata_secret_immutable;
         DROP TRIGGER IF EXISTS messages_conversation_epoch_after_delete;
         DROP TRIGGER IF EXISTS messages_conversation_epoch_after_read;
         DROP TRIGGER IF EXISTS conversation_state_epoch_after_insert;
         DROP TRIGGER IF EXISTS conversation_state_epoch_after_pin;
         DROP TRIGGER IF EXISTS conversation_state_epoch_after_delete;";
const ATTACHMENT_TABLES_SQL: &'static str = "CREATE TABLE IF NOT EXISTS attachment_blobs (
                 digest BLOB PRIMARY KEY
                     CHECK(typeof(digest) = 'blob' AND length(digest) = 32),
                 byte_len INTEGER NOT NULL
                     CHECK(typeof(byte_len) = 'integer' AND byte_len BETWEEN 0 AND 786432),
                 data BLOB NOT NULL
                     CHECK(typeof(data) = 'blob' AND length(data) = byte_len),
                 state TEXT NOT NULL CHECK(typeof(state) = 'text' AND state IN ('verified', 'integrity_failed')),
                 created_at INTEGER NOT NULL CHECK(typeof(created_at) = 'integer' AND created_at >= 0),
                 verified_at INTEGER CHECK(verified_at IS NULL OR (typeof(verified_at) = 'integer' AND verified_at >= 0)),
                 CHECK((state = 'verified' AND verified_at IS NOT NULL) OR
                       (state = 'integrity_failed' AND verified_at IS NULL))
             );
             CREATE TABLE IF NOT EXISTS message_attachments (
                 message_id TEXT NOT NULL REFERENCES messages(id) ON DELETE CASCADE
                     CHECK(typeof(message_id) = 'text' AND length(message_id) BETWEEN 1 AND 128),
                 ordinal INTEGER NOT NULL CHECK(typeof(ordinal) = 'integer' AND ordinal BETWEEN 0 AND 7),
                 digest BLOB NOT NULL REFERENCES attachment_blobs(digest),
                 wire_name TEXT NOT NULL CHECK(typeof(wire_name) = 'text' AND
                     length(CAST(wire_name AS BLOB)) BETWEEN 1 AND 255),
                 content_type TEXT CHECK(content_type IS NULL OR
                     (typeof(content_type) = 'text' AND length(CAST(content_type AS BLOB)) <= 255 AND
                      content_type NOT GLOB '*[^ -~]*')),
                 transfer_id TEXT CHECK(transfer_id IS NULL OR
                     (typeof(transfer_id) = 'text' AND length(transfer_id) BETWEEN 1 AND 128)),
                 resource_hash BLOB CHECK(resource_hash IS NULL OR
                     (typeof(resource_hash) = 'blob' AND length(resource_hash) = 32)),
                 source TEXT NOT NULL CHECK(typeof(source) = 'text' AND
                     source IN ('canonical_binary', 'rust_integer_array', 'local')),
                 PRIMARY KEY(message_id, ordinal)
             );
             CREATE INDEX IF NOT EXISTS idx_message_attachments_digest ON message_attachments(digest);
             CREATE TABLE IF NOT EXISTS attachment_issues (
                 message_id TEXT PRIMARY KEY REFERENCES messages(id) ON DELETE CASCADE
                     CHECK(typeof(message_id) = 'text' AND length(message_id) BETWEEN 1 AND 128),
                 reason TEXT NOT NULL CHECK(typeof(reason) = 'text' AND
                     length(CAST(reason AS BLOB)) BETWEEN 1 AND 1024),
                 created_at INTEGER NOT NULL CHECK(typeof(created_at) = 'integer' AND created_at >= 0)
             );
             CREATE TABLE IF NOT EXISTS attachment_transfers (
                 message_id TEXT PRIMARY KEY REFERENCES messages(id) ON DELETE CASCADE
                     CHECK(typeof(message_id) = 'text' AND length(message_id) BETWEEN 1 AND 128),
                 transfer_id TEXT NOT NULL CHECK(typeof(transfer_id) = 'text' AND
                     length(transfer_id) BETWEEN 1 AND 128),
                 resource_hash BLOB CHECK(resource_hash IS NULL OR
                     (typeof(resource_hash) = 'blob' AND length(resource_hash) = 32)),
                 representation TEXT NOT NULL CHECK(typeof(representation) = 'text' AND
                     representation IN ('packet', 'resource')),
                 direction TEXT NOT NULL CHECK(typeof(direction) = 'text' AND
                     direction IN ('inbound', 'outbound')),
                 state TEXT NOT NULL CHECK(typeof(state) = 'text' AND
                     state IN ('queued', 'transferring', 'completed', 'failed', 'cancelled')),
                 transferred INTEGER NOT NULL CHECK(typeof(transferred) = 'integer' AND transferred >= 0),
                 total INTEGER NOT NULL CHECK(typeof(total) = 'integer' AND total >= 0 AND transferred <= total),
                 checksum_verified INTEGER NOT NULL CHECK(typeof(checksum_verified) = 'integer' AND
                     checksum_verified IN (0, 1)),
                 error TEXT CHECK(error IS NULL OR
                     (typeof(error) = 'text' AND length(CAST(error AS BLOB)) <= 1024)),
                 updated_at INTEGER NOT NULL CHECK(typeof(updated_at) = 'integer' AND updated_at >= 0)
             );";
const REBUILD_ATTACHMENTS_SQL: &'static str = "DROP INDEX IF EXISTS idx_message_attachments_digest;
         ALTER TABLE message_attachments RENAME TO message_attachments_v9_weak;
         ALTER TABLE attachment_issues RENAME TO attachment_issues_v9_weak;
         ALTER TABLE attachment_transfers RENAME TO attachment_transfers_v9_weak;
         ALTER TABLE attachment_blobs RENAME TO attachment_blobs_v9_weak;
         CREATE TABLE attachment_blobs (
             digest BLOB PRIMARY KEY CHECK(typeof(digest) = 'blob' AND length(digest) = 32),
             byte_len INTEGER NOT NULL CHECK(typeof(byte_len) = 'integer' AND byte_len BETWEEN 0 AND 786432),
             data BLOB NOT NULL CHECK(typeof(data) = 'blob' AND length(data) = byte_len),
             state TEXT NOT NULL CHECK(typeof(state) = 'text' AND state IN ('verified', 'integrity_failed')),
             created_at INTEGER NOT NULL CHECK(typeof(created_at) = 'integer' AND created_at >= 0),
             verified_at INTEGER CHECK(verified_at IS NULL OR (typeof(verified_at) = 'integer' AND verified_at >= 0)),
             CHECK((state = 'verified' AND verified_at IS NOT NULL) OR
                   (state = 'integrity_failed' AND verified_at IS NULL))
         );
         CREATE TABLE message_attachments (
             message_id TEXT NOT NULL REFERENCES messages(id) ON DELETE CASCADE
                 CHECK(typeof(message_id) = 'text' AND length(message_id) BETWEEN 1 AND 128),
             ordinal INTEGER NOT NULL CHECK(typeof(ordinal) = 'integer' AND ordinal BETWEEN 0 AND 7),
             digest BLOB NOT NULL REFERENCES attachment_blobs(digest),
             wire_name TEXT NOT NULL CHECK(typeof(wire_name) = 'text' AND
                 length(CAST(wire_name AS BLOB)) BETWEEN 1 AND 255),
             content_type TEXT CHECK(content_type IS NULL OR
                 (typeof(content_type) = 'text' AND length(CAST(content_type AS BLOB)) <= 255 AND
                  content_type NOT GLOB '*[^ -~]*')),
             transfer_id TEXT CHECK(transfer_id IS NULL OR
                 (typeof(transfer_id) = 'text' AND length(transfer_id) BETWEEN 1 AND 128)),
             resource_hash BLOB CHECK(resource_hash IS NULL OR
                 (typeof(resource_hash) = 'blob' AND length(resource_hash) = 32)),
             source TEXT NOT NULL CHECK(typeof(source) = 'text' AND
                 source IN ('canonical_binary', 'rust_integer_array', 'local')),
             PRIMARY KEY(message_id, ordinal)
         );
         CREATE INDEX idx_message_attachments_digest ON message_attachments(digest);
         CREATE TABLE attachment_issues (
             message_id TEXT PRIMARY KEY REFERENCES messages(id) ON DELETE CASCADE
                 CHECK(typeof(message_id) = 'text' AND length(message_id) BETWEEN 1 AND 128),
             reason TEXT NOT NULL CHECK(typeof(reason) = 'text' AND
                 length(CAST(reason AS BLOB)) BETWEEN 1 AND 1024),
             created_at INTEGER NOT NULL CHECK(typeof(created_at) = 'integer' AND created_at >= 0)
         );
         CREATE TABLE attachment_transfers (
             message_id TEXT PRIMARY KEY REFERENCES messages(id) ON DELETE CASCADE
                 CHECK(typeof(message_id) = 'text' AND length(message_id) BETWEEN 1 AND 128),
             transfer_id TEXT NOT NULL CHECK(typeof(transfer_id) = 'text' AND length(transfer_id) BETWEEN 1 AND 128),
             resource_hash BLOB CHECK(resource_hash IS NULL OR
                 (typeof(resource_hash) = 'blob' AND length(resource_hash) = 32)),
             representation TEXT NOT NULL CHECK(typeof(representation) = 'text' AND representation IN ('packet', 'resource')),
             direction TEXT NOT NULL CHECK(typeof(direction) = 'text' AND direction IN ('inbound', 'outbound')),
             state TEXT NOT NULL CHECK(typeof(state) = 'text' AND state IN ('queued', 'transferring', 'completed', 'failed', 'cancelled')),
             transferred INTEGER NOT NULL CHECK(typeof(transferred) = 'integer' AND transferred >= 0),
             total INTEGER NOT NULL CHECK(typeof(total) = 'integer' AND total >= 0 AND transferred <= total),
             checksum_verified INTEGER NOT NULL CHECK(typeof(checksum_verified) = 'integer' AND checksum_verified IN (0, 1)),
             error TEXT CHECK(error IS NULL OR (typeof(error) = 'text' AND length(CAST(error AS BLOB)) <= 1024)),
             updated_at INTEGER NOT NULL CHECK(typeof(updated_at) = 'integer' AND updated_at >= 0)
         );
         INSERT INTO attachment_blobs
         SELECT digest, byte_len, data, state, created_at, verified_at
         FROM attachment_blobs_v9_weak
         WHERE typeof(digest) = 'blob' AND length(digest) = 32
           AND typeof(byte_len) = 'integer' AND byte_len BETWEEN 0 AND 786432
           AND typeof(data) = 'blob' AND length(data) = byte_len
           AND typeof(state) = 'text' AND state IN ('verified', 'integrity_failed')
           AND typeof(created_at) = 'integer' AND created_at >= 0
           AND (verified_at IS NULL OR (typeof(verified_at) = 'integer' AND verified_at >= 0))
           AND ((state = 'verified' AND verified_at IS NOT NULL) OR
                (state = 'integrity_failed' AND verified_at IS NULL));
         INSERT INTO message_attachments
         SELECT ma.message_id, ma.ordinal, ma.digest, ma.wire_name, ma.content_type,
                ma.transfer_id, ma.resource_hash, ma.source
         FROM message_attachments_v9_weak ma
         JOIN messages m ON m.id = ma.message_id
         JOIN attachment_blobs b ON b.digest = ma.digest
         WHERE typeof(ma.message_id) = 'text' AND length(ma.message_id) BETWEEN 1 AND 128
           AND typeof(ma.ordinal) = 'integer' AND ma.ordinal BETWEEN 0 AND 7
           AND typeof(ma.wire_name) = 'text' AND length(CAST(ma.wire_name AS BLOB)) BETWEEN 1 AND 255
           AND (ma.content_type IS NULL OR (typeof(ma.content_type) = 'text' AND
                length(CAST(ma.content_type AS BLOB)) <= 255 AND ma.content_type NOT GLOB '*[^ -~]*'))
           AND (ma.transfer_id IS NULL OR (typeof(ma.transfer_id) = 'text' AND length(ma.transfer_id) BETWEEN 1 AND 128))
           AND (ma.resource_hash IS NULL OR (typeof(ma.resource_hash) = 'blob' AND length(ma.resource_hash) = 32))
           AND typeof(ma.source) = 'text' AND ma.source IN ('canonical_binary', 'rust_integer_array', 'local');
         INSERT INTO attachment_issues
         SELECT i.message_id, i.reason, i.created_at FROM attachment_issues_v9_weak i
         JOIN messages m ON m.id = i.message_id
         WHERE typeof(i.message_id) = 'text' AND length(i.message_id) BETWEEN 1 AND 128
           AND typeof(i.reason) = 'text' AND length(CAST(i.reason AS BLOB)) BETWEEN 1 AND 1024
           AND typeof(i.created_at) = 'integer' AND i.created_at >= 0;
         INSERT INTO attachment_transfers
         SELECT t.message_id, t.transfer_id, t.resource_hash, t.representation, t.direction,
                t.state, t.transferred, t.total, t.checksum_verified, t.error, t.updated_at
         FROM attachment_transfers_v9_weak t JOIN messages m ON m.id = t.message_id
         WHERE typeof(t.message_id) = 'text' AND length(t.message_id) BETWEEN 1 AND 128
           AND typeof(t.transfer_id) = 'text' AND length(t.transfer_id) BETWEEN 1 AND 128
           AND (t.resource_hash IS NULL OR (typeof(t.resource_hash) = 'blob' AND length(t.resource_hash) = 32))
           AND typeof(t.representation) = 'text' AND t.representation IN ('packet', 'resource')
           AND typeof(t.direction) = 'text' AND t.direction IN ('inbound', 'outbound')
           AND typeof(t.state) = 'text' AND t.state IN ('queued', 'transferring', 'completed', 'failed', 'cancelled')
           AND typeof(t.transferred) = 'integer' AND t.transferred >= 0
           AND typeof(t.total) = 'integer' AND t.total >= 0 AND t.transferred <= t.total
           AND typeof(t.checksum_verified) = 'integer' AND t.checksum_verified IN (0, 1)
           AND (t.error IS NULL OR (typeof(t.error) = 'text' AND length(CAST(t.error AS BLOB)) <= 1024))
           AND typeof(t.updated_at) = 'integer' AND t.updated_at >= 0;
         DROP TABLE message_attachments_v9_weak;
         DROP TABLE attachment_issues_v9_weak;
         DROP TABLE attachment_transfers_v9_weak;
         DROP TABLE attachment_blobs_v9_weak;";

/// Seconds terminal delivery evidence is kept.
pub const DELIVERY_EVIDENCE_RETENTION_SECS: i64 = 30 * 24 * 60 * 60;

/// What the LXMF codec made of the stored wire of one legacy canonical
/// inbound message: the wire it read, and the fields it decoded from it.
/// The timestamp is the `REAL` the codec decoded, carried without being read.
pub struct LegacyInboundDecode {
    pub wire: Vec<u8>,
    pub id: String,
    pub source: [u8; 16],
    pub destination: [u8; 16],
    pub title: Vec<u8>,
    pub content: Vec<u8>,
    pub timestamp: rusqlite::types::Value,
    pub fields_msgpack: Option<Vec<u8>>,
    pub signature: Option<Vec<u8>>,
    pub stamp: Option<Vec<u8>>,
    pub decoded_wire: Vec<u8>,
}

/// The first decoding made of `wire`, if any.
pub fn find_legacy_decode(decodes: &[LegacyInboundDecode], wire: &[u8]) -> (r: Option<usize>)
    ensures
        r matches Some(k) ==> k < decodes@.len() && decodes@[k as int].wire@ == wire@,
        r is None ==> forall|k: int| 0 <= k < decodes@.len() ==> (#[trigger] decodes@[k]).wire@ != wire@,
{
    let mut k: usize = 0;
    while k < decodes.len()
        invariant
            k <= decodes.len(),
            forall|j: int| 0 <= j < k ==> (#[trigger] decodes@[j]).wire@ != wire@,
        decreases decodes.len() - k,
    {
        if bytes_eq(decodes[k].wire.as_slice(), wire) {
            return Some(k);
        }
        k = k + 1;
    }
    None
}

/// Whether a peer hash read from a legacy row is 32 ASCII hexadecimal bytes.
pub open spec fn legacy_peer_ok(bytes: Seq<u8>) -> bool {
    bytes.len() == 32 && forall|i: int| 0 <= i < 32 ==> is_hex_byte(#[trigger] bytes[i])
}

/// Whether a byte is an ASCII hexadecimal digit.
pub open spec fn is_hex_byte(b: u8) -> bool {
    (48 <= b <= 57) || (65 <= b <= 70) || (97 <= b <= 102)
}

/// `legacy_peer_ok` computed.
pub fn check_legacy_peer(bytes: &[u8]) -> (r: bool)
    ensures
        r == legacy_peer_ok(bytes@),
{
    if bytes.len() != 32 {
        return false;
    }
    let mut i: usize = 0;
    while i < 32
        invariant
            bytes@.len() == 32,
            i <= 32,
            forall|j: int| 0 <= j < i ==> is_hex_byte(#[trigger] bytes@[j]),
        decreases 32 - i,
    {
        let b = bytes[i];
        if !((48 <= b && b <= 57) || (65 <= b && b <= 70) || (97 <= b && b <= 102)) {
            return false;
        }
        i = i + 1;
    }
    true
}

/// The bytes a blob-or-`NULL` value holds, empty for `NULL`.
pub open spec fn blob_or_empty_of(v: SqlValue) -> Seq<u8> {
    match v {
        SqlValue::Blob(b) => b@,
        _ => Seq::empty(),
    }
}

/// Whether a legacy peer column is usable: valid UTF-8 that is 32
/// hexadecimal digits.
pub open spec fn legacy_peer_usable(bytes: Seq<u8>) -> bool {
    vstd::utf8::valid_utf8(bytes) && legacy_peer_ok(bytes)
}

/// The bytes of a column that is a blob or `NULL` (read as empty).
fn blob_or_empty(row: &[SqlValue], i: usize) -> (r: Result<Vec<u8>, StoreError>)
    ensures
        r is Ok <==> crate::sql::is_opt_blob_col(row@, i as int),
        r matches Ok(b) ==> b@ == blob_or_empty_of(row@[i as int]),
        r matches Err(e) ==> e == StoreError::InvalidColumn(i),
{
    if i >= row.len() {
        return Err(StoreError::InvalidColumn(i));
    }
    match &row[i] {
        SqlValue::Null => Ok(Vec::new()),
        SqlValue::Blob(b) => Ok(b.clone()),
        _ => Err(StoreError::InvalidColumn(i)),
    }
}

/// A legacy conversation-state row as a candidate for its canonical peer:
/// `None` when its peer hash is not valid UTF-8 of 32 hexadecimal digits.
/// Its rank orders update time, pinned flag, muted flag, then peer bytes.
pub fn state_candidate(row: &[SqlValue]) -> (r: Result<Option<Candidate>, StoreError>)
    ensures
        r is Ok <==> crate::sql::is_opt_blob_col(row@, 0) && (legacy_peer_usable(blob_or_empty_of(row@[0]))
            ==> crate::sql::is_int_col(row@, 1) && crate::sql::is_int_col(row@, 2) && crate::sql::is_int_col(row@, 3)),
        r matches Err(e) ==> e is InvalidColumn,
        r matches Ok(o) ==> (o is Some <==> legacy_peer_usable(blob_or_empty_of(row@[0]))),
        r matches Ok(Some(c)) ==> legacy_peer_ok(c.first@) && c.second@.len() == 0
            && c.first@ == blob_or_empty_of(row@[0])
            && c.key@ == crate::text::ascii_lower(vstd::utf8::decode_utf8(c.first@))
            && row@.len() >= 4 && row@[1] == SqlValue::Int(c.a) && row@[2] == SqlValue::Int(c.b)
            && row@[3] == SqlValue::Int(c.updated_at),
{
    let peer_bytes = blob_or_empty(row, 0)?;
    let peer = match string_from_utf8(peer_bytes.clone()) {
        Some(p) => p,
        None => return Ok(None),
    };
    if !check_legacy_peer(peer_bytes.as_slice()) {
        return Ok(None);
    }
    let pinned = col_int(row, 1)?;
    let muted = col_int(row, 2)?;
    let updated_at = col_int(row, 3)?;
    Ok(Some(Candidate {
        key: to_ascii_lower(peer.as_str()),
        updated_at,
        a: pinned,
        b: muted,
        first: peer_bytes,
        second: Vec::new(),
    }))
}

/// A legacy draft row as a candidate for its canonical peer, with its
/// content: `None` when peer or content is not valid UTF-8 or the peer is
/// not 32 hexadecimal digits. Its rank orders update time, content bytes,
/// then peer bytes.
pub fn draft_candidate(row: &[SqlValue]) -> (r: Result<Option<(Candidate, String)>, StoreError>)
    ensures
        r is Ok <==> crate::sql::is_blob_col(row@, 0) && crate::sql::is_blob_col(row@, 1) && (
            (legacy_peer_usable(blob_or_empty_of(row@[0])) && vstd::utf8::valid_utf8(blob_or_empty_of(row@[1])))
                ==> crate::sql::is_int_col(row@, 2)),
        r matches Err(e) ==> e is InvalidColumn,
        r matches Ok(o) ==> (o is Some <==> legacy_peer_usable(blob_or_empty_of(row@[0]))
            && vstd::utf8::valid_utf8(blob_or_empty_of(row@[1]))),
        r matches Ok(Some(p)) ==> legacy_peer_ok(p.0.second@) && p.0.a == 0 && p.0.b == 0
            && p.0.second@ == blob_or_empty_of(row@[0]) && p.0.first@ == blob_or_empty_of(row@[1])
            && p.0.key@ == crate::text::ascii_lower(vstd::utf8::decode_utf8(p.0.second@))
            && row@.len() >= 3 && row@[2] == SqlValue::Int(p.0.updated_at)
            && vstd::utf8::valid_utf8(p.0.first@) && p.1@ == vstd::utf8::decode_utf8(p.0.first@),
{
    let peer_bytes = col_blob(row, 0)?;
    let content_bytes = col_blob(row, 1)?;
    let peer = match string_from_utf8(peer_bytes.clone()) {
        Some(p) => p,
        None => return Ok(None),
    };
    let content = match string_from_utf8(content_bytes.clone()) {
        Some(c) => c,
        None => return Ok(None),
    };
    if !check_legacy_peer(peer_bytes.as_slice()) {
        return Ok(None);
    }
    let updated_at = col_int(row, 2)?;
    Ok(Some((
        Candidate { key: to_ascii_lower(peer.as_str()), updated_at, a: 0, b: 0, first: content_bytes, second: peer_bytes },
        content,
    )))
}

/// A contact read from a `peer_hash, alias, notes, created_at, updated_at` row.
pub fn contact_row(row: &[SqlValue]) -> (r: Result<ContactRecord, StoreError>)
    ensures
        r is Ok <==> crate::sql::is_text_col(row@, 0) && crate::sql::is_opt_text_col(row@, 1)
            && crate::sql::is_opt_text_col(row@, 2) && crate::sql::is_int_col(row@, 3)
            && crate::sql::is_int_col(row@, 4),
        r matches Err(e) ==> e is InvalidColumn,
        r matches Ok(c) ==> row@.len() >= 5 && Some(c.peer_hash@) == crate::sql::text_value(row@[0])
            && crate::text::opt_view(c.alias) == crate::sql::opt_text_col(row@, 1)
            && crate::text::opt_view(c.notes) == crate::sql::opt_text_col(row@, 2)
            && row@[3] == SqlValue::Int(c.created_at) && row@[4] == SqlValue::Int(c.updated_at),
{
    let peer_hash = col_text(row, 0)?;
    let alias = col_opt_text(row, 1)?;
    let notes = col_opt_text(row, 2)?;
    let created_at = col_int(row, 3)?;
    let updated_at = col_int(row, 4)?;
    if row.len() < 5 {
        return Err(StoreError::InvalidColumn(4));
    }
    Ok(ContactRecord { peer_hash, alias, notes, created_at, updated_at })
}

/// Whether a row of `PRAGMA index_xinfo` reads: its key flag (column 5) is
/// an integer and, for a key column, its direction (column 3) is an integer
/// and its name (column 2) is text, not an expression.
pub open spec fn xinfo_row_ok(row: Seq<SqlValue>) -> bool {
    &&& crate::sql::is_int_col(row, 5)
    &&& crate::sql::int_of(row[5]) != 0 ==> crate::sql::is_int_col(row, 3) && crate::sql::is_text_col(row, 2)
}

/// The key columns, name and whether descending, that rows of
/// `PRAGMA index_xinfo` list, in order.
pub open spec fn xinfo_keys(rows: Seq<Vec<SqlValue>>) -> Seq<(Seq<char>, bool)>
    decreases rows.len(),
{
    if rows.len() == 0 {
        Seq::empty()
    } else {
        let row = rows.last()@;
        let rest = xinfo_keys(rows.drop_last());
        if crate::sql::int_of(row[5]) != 0 {
            rest.push((crate::sql::text_value(row[2]).unwrap(), crate::sql::int_of(row[3]) != 0))
        } else {
            rest
        }
    }
}

/// The expected key columns with their names as text.
pub open spec fn expected_keys(expected: Seq<(&str, bool)>) -> Seq<(Seq<char>, bool)> {
    expected.map_values(|p: (&str, bool)| (p.0@, p.1))
}

/// Whether an index's key columns, as `PRAGMA index_xinfo` lists them
/// (name, descending flag, key flag in columns 2, 3 and 5), are exactly the
/// expected columns with their directions, in order. An expression among
/// the key columns is an error.
pub fn index_keys_match(rows: &[Vec<SqlValue>], expected: &[(&str, bool)]) -> (r: Result<bool, StoreError>)
    ensures
        r is Ok <==> forall|i: int| 0 <= i < rows@.len() ==> xinfo_row_ok(#[trigger] rows@[i]@),
        r matches Ok(b) ==> b == (xinfo_keys(rows@) == expected_keys(expected@)),
{
    let mut k: usize = 0;
    let mut i: usize = 0;
    let mut same = true;
    while i < rows.len()
        invariant
            i <= rows.len(),
            k <= i,
            forall|j: int| 0 <= j < i ==> xinfo_row_ok(#[trigger] rows@[j]@),
            k == xinfo_keys(rows@.take(i as int)).len(),
            same == (k <= expected@.len() && forall|j: int| 0 <= j < k ==> #[trigger] xinfo_keys(rows@.take(i as int))[j]
                == expected_keys(expected@)[j]),
        decreases rows.len() - i,
    {
        proof {
            assert(rows@.take(i + 1).drop_last() =~= rows@.take(i as int));
            assert(rows@.take(i + 1).last() == rows@[i as int]);
        }
        let row = rows[i].as_slice();
        let is_key = col_int(row, 5)? != 0;
        if is_key {
            let descending = col_int(row, 3)? != 0;
            let name = match col_opt_text(row, 2)? {
                Some(n) => n,
                None => return Err(invalid("pagination index contains an expression")),
            };
            let ghost before = xinfo_keys(rows@.take(i as int));
            let ghost entry = (name@, descending);
            assert(xinfo_keys(rows@.take(i + 1)) == before.push(entry));
            let matches = k < expected.len() && str_eq(name.as_str(), expected[k].0) && descending == expected[k].1;
            proof {
                let after = before.push(entry);
                assert(forall|j: int| 0 <= j < k ==> #[trigger] after[j] == before[j]);
                if k < expected@.len() {
                    assert(expected_keys(expected@)[k as int] == (expected@[k as int].0@, expected@[k as int].1));
                    assert(matches <==> after[k as int] == expected_keys(expected@)[k as int]);
                }
            }
            let ghost old_same = same;
            if !matches {
                same = false;
            }
            proof {
                let after = xinfo_keys(rows@.take(i + 1));
                let exp = expected_keys(expected@);
                assert(after == before.push(entry));
                assert(forall|j: int| 0 <= j < k ==> #[trigger] after[j] == before[j]);
                if same {
                    assert forall|j: int| 0 <= j < k + 1 implies #[trigger] after[j] == exp[j] by {
                        if j < k {
                            assert(before[j] == exp[j]);
                        }
                    }
                } else if k + 1 <= exp.len() {
                    if !matches {
                        assert(after[k as int] != exp[k as int]);
                    } else {
                        assert(!old_same);
                        let j = choose|j: int| 0 <= j < k && #[trigger] before[j] != exp[j];
                        assert(after[j] != exp[j]);
                    }
                }
            }
            k = k + 1;
        } else {
            assert(xinfo_keys(rows@.take(i + 1)) == xinfo_keys(rows@.take(i as int)));
        }
        i = i + 1;
    }
    proof {
        assert(rows@.take(rows@.len() as int) =~= rows@);
        if same && k == expected.len() {
            assert(xinfo_keys(rows@) =~= expected_keys(expected@));
        }
    }
    Ok(same && k == expected.len())
}

impl MessagesStore {
    /// Whether migration `id` is recorded.
    pub(crate) fn migration_applied(&mut self, id: &str) -> (r: Result<bool, StoreError>)
        ensures
            crate::store::extends(old(self)@, final(self)@),
    {
        self.bool_query("SELECT EXISTS(SELECT 1 FROM schema_migrations WHERE id = ?1)", &[text_arg(id)])
    }

    /// The first column of the first row of a query as optional text; `None`
    /// when there is no row or the value is `NULL`.
    pub(crate) fn opt_text_query(&mut self, sql: &str, args: &[SqlArg]) -> (r: Result<Option<String>, StoreError>)
        ensures
            crate::store::one_query(old(self)@, final(self)@, sql@, args@),
            crate::store::extends(old(self)@, final(self)@),
            crate::propagation_ops::queues_no_item(old(self)@, final(self)@),
            r matches Ok(Some(s)) ==> (final(self)@.last() matches crate::sql::SqlCall::Query(_, _, Some(rows))
                && rows.len() > 0 && crate::sql::opt_text_col(rows[0], 0) == Some(s@)),
    {
        match self.first_row(sql, args)? {
            Some(row) => col_opt_text(row.as_slice(), 0),
            None => Ok(None),
        }
    }

    /// The first column of the first row of a query as an optional integer;
    /// `None` when there is no row or the value is `NULL`.
    pub(crate) fn opt_int_query(&mut self, sql: &str, args: &[SqlArg]) -> (r: Result<Option<i64>, StoreError>)
        ensures
            crate::store::extends(old(self)@, final(self)@),
    {
        match self.first_row(sql, args)? {
            Some(row) => crate::sql::col_opt_int(row.as_slice(), 0),
            None => Ok(None),
        }
    }

    /// Whether a table has each of `required` among its columns; `pragma` is
    /// the table's `PRAGMA table_info` statement.
    pub(crate) fn table_has_columns(&mut self, pragma: &str, required: &[&str]) -> (r: Result<bool, StoreError>)
        ensures
            crate::store::extends(old(self)@, final(self)@),
    {
        let rows = self.rows(pragma, &[])?;
        Ok(has_all_names(rows.as_slice(), required))
    }

    pub(crate) fn table_exists(&mut self, table: &str) -> (r: Result<bool, StoreError>)
        ensures
            crate::store::extends(old(self)@, final(self)@),
    {
        self.bool_query(
            "SELECT EXISTS(SELECT 1 FROM sqlite_schema WHERE type = 'table' AND name = ?1)",
            &[text_arg(table)],
        )
    }

    /// Creates the schema and applies every pending migration. `legacy` holds
    /// the decodings of stored canonical wires that the v4 migration rewrites.
    pub(crate) fn init_schema(&mut self, legacy: &[LegacyInboundDecode]) -> (r: Result<(), StoreError>)
        ensures
            crate::store::extends(old(self)@, final(self)@),
            final(self)@.len() > old(self)@.len(),
            final(self)@[old(self)@.len() as int] == SqlCall::Batch(BASE_TABLES_SQL@),
            r is Ok ==> attachment_invariants_checked(old(self)@, final(self)@),
            r is Ok ==> crate::propagation_schema::propagation_tables_attested(final(self)@, old(self)@.len() as int),
    {
        self.batch(BASE_TABLES_SQL)?;
        let ghost based = self@;
        self.add_legacy_columns();
        let ghost widened = self@;
        let out = self.apply_migrations(legacy);
        proof {
            assert(self@[old(self)@.len() as int] == based[old(self)@.len() as int]) by {
                assert(widened[old(self)@.len() as int] == based[old(self)@.len() as int]);
            }
            if out is Ok {
                lemma_checked_widen(old(self)@, widened, self@, self@);
                crate::propagation_schema::lemma_tables_attested_widen(self@, self@, widened.len() as int, old(self)@.len() as int);
            }
        }
        out
    }

    /// Adds the columns that later versions gave the base tables; a column
    /// that is there already makes its statement fail, which is ignored.
    fn add_legacy_columns(&mut self)
        ensures
            crate::store::extends(old(self)@, final(self)@),
    {
        let _ = self.exec("ALTER TABLE messages ADD COLUMN title TEXT", &[]);
        let _ = self.exec("UPDATE messages SET title = '' WHERE title IS NULL", &[]);
        let _ = self.exec("ALTER TABLE messages ADD COLUMN fields TEXT", &[]);
        let _ = self.exec("ALTER TABLE messages ADD COLUMN receipt_status TEXT", &[]);
        let _ = self.exec("ALTER TABLE announces ADD COLUMN name TEXT", &[]);
        let _ = self.exec("ALTER TABLE announces ADD COLUMN name_source TEXT", &[]);
        let _ = self.exec("ALTER TABLE announces ADD COLUMN first_seen INTEGER", &[]);
        let _ = self.exec("ALTER TABLE announces ADD COLUMN seen_count INTEGER", &[]);
        let _ = self.exec("ALTER TABLE announces ADD COLUMN app_data_hex TEXT", &[]);
        let _ = self.exec("ALTER TABLE announces ADD COLUMN capabilities TEXT", &[]);
        let _ = self.exec("ALTER TABLE announces ADD COLUMN rssi REAL", &[]);
        let _ = self.exec("ALTER TABLE announces ADD COLUMN snr REAL", &[]);
        let _ = self.exec("ALTER TABLE announces ADD COLUMN q REAL", &[]);
        let _ = self.exec("ALTER TABLE announces ADD COLUMN stamp_cost INTEGER", &[]);
        let _ = self.exec("ALTER TABLE announces ADD COLUMN stamp_cost_flexibility INTEGER", &[]);
        let _ = self.exec("ALTER TABLE announces ADD COLUMN peering_cost INTEGER", &[]);
        let _ = self.exec("ALTER TABLE messages ADD COLUMN read INTEGER DEFAULT 0", &[]);
    }

    /// The migrations up to v8, each once.
    fn apply_early_migrations(&mut self, legacy: &[LegacyInboundDecode]) -> (r: Result<(), StoreError>)
        ensures
            crate::store::extends(old(self)@, final(self)@),
    {
        self.batch(PEER_TABLES_SQL)?;
        self.batch(MIGRATIONS_TABLE_SQL)?;
        if !self.migration_applied(ROUTER_MIGRATION)? {
            self.batch(ROUTER_SQL)?;
        }
        if !self.migration_applied(RECEIPT_MIGRATION)? {
            self.batch(RECEIPT_SQL)?;
        }
        if !self.migration_applied(CANONICAL_MIGRATION)? {
            self.batch(CANONICAL_SQL)?;
        }
        if !self.migration_applied(FIDELITY_MIGRATION)? {
            self.begin()?;
            let applied = self.migrate_fidelity(legacy);
            self.finish(applied)?;
        }
        if !self.migration_applied(RESERVATION_MIGRATION)? {
            self.batch(RESERVATION_SQL)?;
        }
        if !self.migration_applied(CONVERSATION_MIGRATION)? {
            self.begin_immediate()?;
            let applied = self.migrate_conversation_state();
            self.finish(applied)?;
        }
        if !self.migration_applied(SCHEMA_HARDENING_MIGRATION)? {
            self.begin_immediate()?;
            let applied = self.harden_conversation_schema();
            self.finish(applied)?;
        }
        self.ensure_pagination_schema(PAGINATION_MIGRATION)?;
        Ok(())
    }

    /// Every schema step after the base tables, each migration once.
    fn apply_migrations(&mut self, legacy: &[LegacyInboundDecode]) -> (r: Result<(), StoreError>)
        ensures
            crate::store::extends(old(self)@, final(self)@),
            r is Ok ==> attachment_invariants_checked(old(self)@, final(self)@),
            r is Ok ==> crate::propagation_schema::propagation_tables_attested(final(self)@, old(self)@.len() as int),
    {
        self.apply_early_migrations(legacy)?;
        let ghost before_attachments = self@;
        self.ensure_attachment_schema(ATTACHMENT_MIGRATION)?;
        let ghost after_attachments = self@;
        let ghost before_propagation = self@;
        self.ensure_standard_propagation_schema()?;
        let ghost after_propagation = self@;
        self.ensure_message_inspection_schema()?;
        let ghost inspected = self@;
        self.prune_delivery_evidence(crate::store::unix_time_secs())?;
        proof {
            assert(crate::store::extends(after_attachments, self@)) by {
                assert forall|i: int| 0 <= i < after_attachments.len() implies #[trigger] self@[i] == after_attachments[i] by {
                    assert(after_propagation[i] == after_attachments[i]);
                    assert(inspected[i] == after_propagation[i]);
                }
            }
            lemma_checked_widen(old(self)@, before_attachments, after_attachments, self@);
            assert(crate::store::extends(after_propagation, self@)) by {
                assert forall|i: int| 0 <= i < after_propagation.len() implies #[trigger] self@[i] == after_propagation[i] by {
                    assert(inspected[i] == after_propagation[i]);
                }
            }
            crate::propagation_schema::lemma_tables_attested_widen(
                after_propagation,
                self@,
                before_propagation.len() as int,
                old(self)@.len() as int,
            );
        }
        Ok(())
    }

    /// v4: widens the stamp-cost ranges, adds ticket delivery tables, and
    /// rewrites each legacy canonical message from its decoded wire; one that
    /// did not decode, or decoded to another id, is marked invalid.
    fn migrate_fidelity(&mut self, legacy: &[LegacyInboundDecode]) -> (r: Result<(), StoreError>)
        ensures
            crate::store::extends(old(self)@, final(self)@),
    {
        self.batch(FIDELITY_SQL)?;
        let rows = self.rows("SELECT message_id, wire FROM canonical_inbound_messages", &[])?;
        let mut i: usize = 0;
        while i < rows.len()
            invariant
                crate::store::extends(old(self)@, self@),
                i <= rows.len(),
            decreases rows.len() - i,
        {
            let row = rows[i].as_slice();
            let message_id = col_text(row, 0)?;
            let wire = col_blob(row, 1)?;
            let decoded = match find_legacy_decode(legacy, wire.as_slice()) {
                Some(k) => if str_eq(legacy[k].id.as_str(), message_id.as_str()) {
                    Some(k)
                } else {
                    None
                },
                None => None,
            };
            match decoded {
                Some(k) => {
                    let d = &legacy[k];
                    self.exec(
                        "UPDATE canonical_inbound_messages SET
                             source = ?2, destination = ?3, title = ?4, content = ?5,
                             timestamp = ?6, fields_msgpack = ?7, signature = ?8,
                             stamp = ?9, wire = ?10
                         WHERE message_id = ?1",
                        &[
                            text_arg(message_id.as_str()),
                            blob_arg(&d.source),
                            blob_arg(&d.destination),
                            blob_arg(d.title.as_slice()),
                            blob_arg(d.content.as_slice()),
                            SqlArg::Value(d.timestamp.clone()),
                            opt_blob_arg(crate::store::opt_slice(&d.fields_msgpack)),
                            opt_blob_arg(crate::store::opt_slice(&d.signature)),
                            opt_blob_arg(crate::store::opt_slice(&d.stamp)),
                            blob_arg(d.decoded_wire.as_slice()),
                        ],
                    )?;
                },
                None => {
                    self.exec(
                        "UPDATE canonical_inbound_messages
                         SET authentication_state = 'invalid'
                         WHERE message_id = ?1",
                        &[text_arg(message_id.as_str())],
                    )?;
                },
            }
            i = i + 1;
        }
        self.exec(
            "INSERT INTO schema_migrations (id, applied_at) VALUES (?1, CAST(strftime('%s','now') AS INTEGER))",
            &[text_arg(FIDELITY_MIGRATION)],
        )?;
        Ok(())
    }

    /// v6: strict conversation tables, and contacts whose peer hashes differ
    /// only in case merged into one lowercase contact.
    fn migrate_conversation_state(&mut self) -> (r: Result<(), StoreError>)
        ensures
            crate::store::extends(old(self)@, final(self)@),
    {
        if self.migration_applied(CONVERSATION_MIGRATION)? {
            return Ok(());
        }
        self.rebuild_conversation_schema()?;
        if !self.conversation_schema_is_valid()? {
            return Err(invalid("v6 conversation schema validation failed"));
        }
        let rows = self.rows(VALID_CONTACTS_SQL, &[])?;
        let mut contacts: Vec<ContactRecord> = Vec::new();
        let mut i: usize = 0;
        while i < rows.len()
            invariant
                crate::store::extends(old(self)@, self@),
                i <= rows.len(),
            decreases rows.len() - i,
        {
            contacts.push(contact_row(rows[i].as_slice())?);
            i = i + 1;
        }
        let merged = merge_contacts(contacts.as_slice());
        self.exec(DELETE_VALID_CONTACTS_SQL, &[])?;
        let mut k: usize = 0;
        while k < merged.len()
            invariant
                crate::store::extends(old(self)@, self@),
                k <= merged.len(),
            decreases merged.len() - k,
        {
            let c = &merged[k];
            self.exec(
                "INSERT INTO contacts
                 (peer_hash, alias, notes, created_at, updated_at)
                 VALUES (?1, ?2, ?3, ?4, ?5)",
                &[
                    text_arg(c.peer_hash.as_str()),
                    opt_text_arg(crate::store::opt_str(&c.alias)),
                    opt_text_arg(crate::store::opt_str(&c.notes)),
                    int_arg(c.created_at),
                    int_arg(c.updated_at),
                ],
            )?;
            k = k + 1;
        }
        self.batch(CONTACTS_INDEX_SQL)?;
        self.exec(
            "INSERT INTO schema_migrations (id, applied_at)
                  VALUES (?1, CAST(strftime('%s','now') AS INTEGER))",
            &[text_arg(CONVERSATION_MIGRATION)],
        )?;
        Ok(())
    }

    /// v7: rebuilds the conversation tables unless they already hold every
    /// required constraint.
    fn harden_conversation_schema(&mut self) -> (r: Result<(), StoreError>)
        ensures
            crate::store::extends(old(self)@, final(self)@),
    {
        if self.migration_applied(SCHEMA_HARDENING_MIGRATION)? {
            return Ok(());
        }
        if !self.conversation_schema_is_valid()? {
            self.rebuild_conversation_schema()?;
        }
        if !self.conversation_schema_is_valid()? {
            return Err(invalid("v7 conversation schema validation failed"));
        }
        self.exec(
            "INSERT INTO schema_migrations (id, applied_at)
                     VALUES (?1, CAST(strftime('%s','now') AS INTEGER))",
            &[text_arg(SCHEMA_HARDENING_MIGRATION)],
        )?;
        Ok(())
    }

    /// Recreates the conversation tables with their constraints, keeping for
    /// each canonical peer its latest valid state and draft.
    fn rebuild_conversation_schema(&mut self) -> (r: Result<(), StoreError>)
        ensures
            crate::store::extends(old(self)@, final(self)@),
    {
        self.batch(
            "CREATE TABLE IF NOT EXISTS conversation_state
                 (peer_hash, pinned, muted, updated_at);
             CREATE TABLE IF NOT EXISTS conversation_drafts
                 (peer_hash, content, updated_at);",
        )?;
        let mut states: Vec<Candidate> = Vec::new();
        if self.table_has_columns(
            "PRAGMA table_info(conversation_state)",
            &["peer_hash", "pinned", "muted", "updated_at"],
        )? {
            let rows = self.rows(
                "SELECT CAST(peer_hash AS BLOB), pinned, muted, updated_at
                 FROM conversation_state
                 WHERE typeof(peer_hash) = 'text'
                   AND typeof(pinned) = 'integer' AND pinned IN (0, 1)
                   AND typeof(muted) = 'integer' AND muted IN (0, 1)
                   AND typeof(updated_at) = 'integer'",
                &[],
            )?;
            let mut i: usize = 0;
            while i < rows.len()
                invariant
                    crate::store::extends(old(self)@, self@),
                    i <= rows.len(),
                decreases rows.len() - i,
            {
                match state_candidate(rows[i].as_slice())? {
                    Some(c) => states.push(c),
                    None => {},
                }
                i = i + 1;
            }
        }
        let mut drafts: Vec<Candidate> = Vec::new();
        let mut contents: Vec<String> = Vec::new();
        if self.table_has_columns(
            "PRAGMA table_info(conversation_drafts)",
            &["peer_hash", "content", "updated_at"],
        )? {
            let rows = self.rows(
                "SELECT CAST(peer_hash AS BLOB), CAST(content AS BLOB), updated_at
                 FROM conversation_drafts
                 WHERE typeof(peer_hash) = 'text'
                   AND typeof(content) = 'text'
                   AND length(CAST(content AS BLOB)) <= 65536
                   AND typeof(updated_at) = 'integer'",
                &[],
            )?;
            let mut i: usize = 0;
            while i < rows.len()
                invariant
                    crate::store::extends(old(self)@, self@),
                    i <= rows.len(),
                    drafts@.len() == contents@.len(),
                decreases rows.len() - i,
            {
                match draft_candidate(rows[i].as_slice())? {
                    Some((c, content)) => {
                        drafts.push(c);
                        contents.push(content);
                    },
                    None => {},
                }
                i = i + 1;
            }
        }
        let kept_states = pick_latest(states.as_slice());
        let kept_drafts = pick_latest(drafts.as_slice());
        self.batch(
            "DROP TABLE IF EXISTS conversation_state_v6_weak;
             DROP TABLE IF EXISTS conversation_drafts_v6_weak;
             ALTER TABLE conversation_state RENAME TO conversation_state_v6_weak;
             ALTER TABLE conversation_drafts RENAME TO conversation_drafts_v6_weak;",
        )?;
        self.batch(CONVERSATION_SCHEMA_DDL)?;
        let mut s: usize = 0;
        while s < kept_states.len()
            invariant
                crate::store::extends(old(self)@, self@),
                s <= kept_states.len(),
                crate::migration::picks_latest(states@, kept_states@),
            decreases kept_states.len() - s,
        {
            let c = &states[kept_states[s]];
            self.exec(
                "INSERT INTO conversation_state (peer_hash, pinned, muted, updated_at)
                 VALUES (?1, ?2, ?3, ?4)",
                &[text_arg(c.key.as_str()), int_arg(c.a), int_arg(c.b), int_arg(c.updated_at)],
            )?;
            s = s + 1;
        }
        let mut d: usize = 0;
        while d < kept_drafts.len()
            invariant
                crate::store::extends(old(self)@, self@),
                d <= kept_drafts.len(),
                drafts@.len() == contents@.len(),
                crate::migration::picks_latest(drafts@, kept_drafts@),
            decreases kept_drafts.len() - d,
        {
            let k = kept_drafts[d];
            self.exec(
                "INSERT INTO conversation_drafts (peer_hash, content, updated_at)
                 VALUES (?1, ?2, ?3)",
                &[text_arg(drafts[k].key.as_str()), text_arg(contents[k].as_str()), int_arg(drafts[k].updated_at)],
            )?;
            d = d + 1;
        }
        self.batch(
            "DROP TABLE conversation_state_v6_weak;
             DROP TABLE conversation_drafts_v6_weak;",
        )?;
        Ok(())
    }

    /// Whether the conversation tables have exactly their columns and every
    /// constraint on peer hashes, flags and draft content.
    pub fn conversation_schema_is_valid(&mut self) -> (r: Result<bool, StoreError>)
        ensures
            crate::store::extends(old(self)@, final(self)@),
    {
        let state_rows = self.rows("SELECT name, type, \"notnull\", pk FROM pragma_table_info('conversation_state')", &[])?;
        let draft_rows = self.rows("SELECT name, type, \"notnull\", pk FROM pragma_table_info('conversation_drafts')", &[])?;
        let expected_state = [
            crate::schema_check::column("peer_hash", "TEXT", 1, 1),
            crate::schema_check::column("pinned", "INTEGER", 1, 0),
            crate::schema_check::column("muted", "INTEGER", 1, 0),
            crate::schema_check::column("updated_at", "INTEGER", 1, 0),
        ];
        let expected_drafts = [
            crate::schema_check::column("peer_hash", "TEXT", 1, 1),
            crate::schema_check::column("content", "TEXT", 1, 0),
            crate::schema_check::column("updated_at", "INTEGER", 1, 0),
        ];
        if !crate::schema_check::columns_match(state_rows.as_slice(), &expected_state)
            || !crate::schema_check::columns_match(draft_rows.as_slice(), &expected_drafts) {
            return Ok(false);
        }
        let state_sql = match self.opt_text_query(
            "SELECT sql FROM sqlite_schema WHERE type = 'table' AND name = 'conversation_state'",
            &[],
        )? {
            Some(sql) => to_ascii_lower(sql.as_str()),
            None => return Ok(false),
        };
        let draft_sql = match self.opt_text_query(
            "SELECT sql FROM sqlite_schema WHERE type = 'table' AND name = 'conversation_drafts'",
            &[],
        )? {
            Some(sql) => to_ascii_lower(sql.as_str()),
            None => return Ok(false),
        };
        let peer_constraints = [
            "peer_hash text not null primary key",
            "length(peer_hash) = 32",
            "peer_hash = lower(peer_hash)",
            "peer_hash not glob '*[^0-9a-f]*'",
        ];
        let state_constraints = [
            "pinned integer not null default 0",
            "muted integer not null default 0",
            "pinned in (0, 1)",
            "muted in (0, 1)",
            "updated_at integer not null",
        ];
        let draft_constraints = [
            "content text not null",
            "typeof(content) = 'text'",
            "length(cast(content as blob)) <= 65536",
            "updated_at integer not null",
        ];
        Ok(contains_all(state_sql.as_str(), &peer_constraints) && contains_all(draft_sql.as_str(), &peer_constraints)
            && contains_all(state_sql.as_str(), &state_constraints) && contains_all(draft_sql.as_str(), &draft_constraints))
    }

    // ── v8: stable pagination ───────────────────────────────────────────

    fn pagination_key_schema_is_valid(&mut self) -> (r: Result<bool, StoreError>)
        ensures
            crate::store::extends(old(self)@, final(self)@),
    {
        if !self.table_exists("message_page_keys")?
            || !self.table_has_columns(
                "PRAGMA table_info(message_page_keys)",
                &["message_id", "ingest_seq", "sort_timestamp", "conversation_peer"],
            )? {
            return Ok(false);
        }
        let sql = match self.first_row(
            "SELECT sql FROM sqlite_schema WHERE type = 'table' AND name = 'message_page_keys'",
            &[],
        )? {
            Some(row) => col_text(row.as_slice(), 0)?,
            None => return Err(StoreError::QueryReturnedNoRows),
        };
        let sql = to_ascii_lower(sql.as_str());
        let required = [
            "message_id text not null unique references messages(id) on delete cascade",
            "ingest_seq integer primary key autoincrement",
            "sort_timestamp integer not null",
            "conversation_peer text not null",
        ];
        if !contains_all(sql.as_str(), &required) {
            return Ok(false);
        }
        match self.first_row("PRAGMA foreign_key_list(message_page_keys)", &[])? {
            Some(row) => {
                let row = row.as_slice();
                let parent = col_text(row, 2)?;
                let from = col_text(row, 3)?;
                let on_delete = col_text(row, 6)?;
                Ok(str_eq(parent.as_str(), "messages") && str_eq(from.as_str(), "message_id")
                    && str_eq(on_delete.as_str(), "CASCADE"))
            },
            None => Ok(false),
        }
    }

    fn pagination_keys_are_coherent(&mut self) -> (r: Result<bool, StoreError>)
        ensures
            crate::store::extends(old(self)@, final(self)@),
    {
        let incoherent = self.bool_query(PAGE_KEYS_COHERENT_SQL, &[])?;
        Ok(!incoherent)
    }

    /// The pagination identity already stored, if any: store id, conversation
    /// epoch and cursor secret; a fresh secret where the table predates it.
    fn load_existing_page_metadata(&mut self) -> (r: Result<Option<([u8; 16], i64, [u8; 32])>, StoreError>)
        ensures
            crate::store::extends(old(self)@, final(self)@),
    {
        if !self.table_exists("message_page_metadata")? {
            return Ok(None);
        }
        if !self.table_has_columns(
            "PRAGMA table_info(message_page_metadata)",
            &["singleton", "store_id", "conversation_epoch"],
        )? {
            return Err(invalid("pagination metadata is missing required columns"));
        }
        let row_count = self.int_query("SELECT COUNT(*) FROM message_page_metadata", &[])?;
        let valid = self.bool_query(
            "SELECT EXISTS(
                 SELECT 1 FROM message_page_metadata
                 WHERE singleton = 1
                   AND typeof(store_id) = 'blob' AND length(store_id) = 16
                   AND typeof(conversation_epoch) = 'integer'
                   AND conversation_epoch BETWEEN 0 AND 9223372036854775807
             )",
            &[],
        )?;
        if row_count != 1 || !valid {
            return Err(invalid("pagination metadata has invalid types or ranges"));
        }
        let has_secret = self.table_has_columns("PRAGMA table_info(message_page_metadata)", &["cursor_secret"])?;
        let row = match self.first_row(
            "SELECT store_id, conversation_epoch FROM message_page_metadata WHERE singleton = 1",
            &[],
        )? {
            Some(row) => row,
            None => return Err(StoreError::QueryReturnedNoRows),
        };
        let store_id = crate::sql::col_array::<16>(row.as_slice(), 0)?;
        let conversation_epoch = col_int(row.as_slice(), 1)?;
        let cursor_secret = if has_secret {
            let valid_secret = self.bool_query(
                "SELECT typeof(cursor_secret) = 'blob' AND length(cursor_secret) = 32
                 FROM message_page_metadata WHERE singleton = 1",
                &[],
            )?;
            if !valid_secret {
                return Err(invalid("pagination cursor secret has invalid type or length"));
            }
            match self.first_row("SELECT cursor_secret FROM message_page_metadata WHERE singleton = 1", &[])? {
                Some(row) => crate::sql::col_array::<32>(row.as_slice(), 0)?,
                None => return Err(StoreError::QueryReturnedNoRows),
            }
        } else {
            random32()?
        };
        Ok(Some((store_id, conversation_epoch, cursor_secret)))
    }

    fn pagination_index_is_valid(&mut self, name: &str, pragma: &str, expected: &[(&str, bool)]) -> (r: Result<bool, StoreError>)
        ensures
            crate::store::extends(old(self)@, final(self)@),
    {
        let exists = self.bool_query(
            "SELECT EXISTS(SELECT 1 FROM sqlite_schema WHERE type = 'index' AND name = ?1)",
            &[text_arg(name)],
        )?;
        if !exists {
            return Ok(false);
        }
        let rows = self.rows(pragma, &[])?;
        index_keys_match(rows.as_slice(), expected)
    }

    fn install_pagination_invariants(&mut self) -> (r: Result<(), StoreError>)
        ensures
            crate::store::extends(old(self)@, final(self)@),
    {
        if !self.pagination_index_is_valid(
            "idx_message_page_peer_order",
            "PRAGMA index_xinfo(idx_message_page_peer_order)",
            &[("conversation_peer", false), ("sort_timestamp", true), ("ingest_seq", true)],
        )? {
            self.batch("DROP INDEX IF EXISTS idx_message_page_peer_order;")?;
        }
        if !self.pagination_index_is_valid(
            "idx_message_page_snapshot_conversation",
            "PRAGMA index_xinfo(idx_message_page_snapshot_conversation)",
            &[("ingest_seq", false), ("conversation_peer", false), ("sort_timestamp", true)],
        )? {
            self.batch("DROP INDEX IF EXISTS idx_message_page_snapshot_conversation;")?;
        }
        self.batch(PAGINATION_INVARIANTS_SQL)
    }

    fn pagination_invariants_are_present(&mut self) -> (r: Result<bool, StoreError>)
        ensures
            crate::store::extends(old(self)@, final(self)@),
    {
        let triggers = self.int_query("SELECT COUNT(*) FROM sqlite_schema WHERE type = 'trigger' AND name IN (
             'messages_page_key_after_insert',
             'messages_page_membership_immutable',
             'message_page_keys_immutable',
             'message_page_keys_delete_guard',
             'message_page_metadata_secret_immutable',
             'messages_conversation_epoch_after_delete',
             'messages_conversation_epoch_after_read',
             'conversation_state_epoch_after_insert',
             'conversation_state_epoch_after_pin',
             'conversation_state_epoch_after_delete')", &[])?;
        let indexes = self.int_query("SELECT COUNT(*) FROM sqlite_schema WHERE type = 'index' AND name IN (
             'idx_message_page_peer_order', 'idx_message_page_snapshot_conversation')", &[])?;
        Ok(triggers == 10 && indexes == 2)
    }

    /// v8: page keys that order every message, the store's pagination
    /// identity, and the triggers that keep both coherent.
    fn ensure_pagination_schema(&mut self, migration_id: &str) -> (r: Result<(), StoreError>)
        ensures
            crate::store::extends(old(self)@, final(self)@),
    {
        self.begin_immediate()?;
        let applied = self.ensure_pagination_schema_in_transaction(migration_id);
        self.finish(applied)
    }

    fn ensure_pagination_schema_in_transaction(&mut self, migration_id: &str) -> (r: Result<(), StoreError>)
        ensures
            crate::store::extends(old(self)@, final(self)@),
    {
        self.batch(DROP_PAGINATION_TRIGGERS_SQL)?;
        let existing = self.load_existing_page_metadata()?;
        let keys_valid = self.pagination_key_schema_is_valid()? && self.pagination_keys_are_coherent()?;
        let (mut store_id, mut epoch, mut secret) = match existing {
            Some(m) => m,
            None => (random16()?, 0i64, random32()?),
        };
        if !keys_valid {
            self.batch("DROP TABLE IF EXISTS message_page_keys;")?;
            self.batch(PAGE_KEYS_SCHEMA_DDL)?;
            self.batch(REBUILD_PAGE_KEYS_SQL)?;
            store_id = random16()?;
            secret = random32()?;
        }
        self.batch("DROP TABLE IF EXISTS message_page_metadata;")?;
        self.batch(PAGE_METADATA_SCHEMA_DDL)?;
        self.exec(
            "INSERT INTO message_page_metadata
                 (singleton, store_id, conversation_epoch, cursor_secret) VALUES (1, ?1, ?2, ?3)",
            &[blob_arg(&store_id), int_arg(epoch), blob_arg(&secret)],
        )?;
        self.install_pagination_invariants()?;
        if !self.pagination_key_schema_is_valid()? || !self.pagination_keys_are_coherent()?
            || !self.pagination_invariants_are_present()? {
            return Err(invalid("v8 pagination schema validation failed"));
        }
        self.exec(
            "INSERT OR IGNORE INTO schema_migrations (id, applied_at)
             VALUES (?1, CAST(strftime('%s','now') AS INTEGER))",
            &[text_arg(migration_id)],
        )?;
        Ok(())
    }

    // ── v9: attachments ─────────────────────────────────────────────────

    fn attachment_schema_is_valid(&mut self) -> (r: Result<bool, StoreError>)
        ensures
            crate::store::extends(old(self)@, final(self)@),
    {
        let blobs_required = [
            "typeof(digest) = 'blob'",
            "length(digest) = 32",
            "byte_len between 0 and 786432",
            "length(data) = byte_len",
            "typeof(state) = 'text'",
            "integrity_failed",
        ];
        let attachments_required = [
            "references messages(id) on delete cascade",
            "ordinal between 0 and 7",
            "references attachment_blobs(digest)",
            "typeof(resource_hash) = 'blob'",
            "between 1 and 255",
            "primary key(message_id, ordinal)",
        ];
        let issues_required = [
            "references messages(id) on delete cascade",
            "reason text not null",
            "length(cast(reason as blob)) between 1 and 1024",
        ];
        let transfers_required = [
            "references messages(id) on delete cascade",
            "typeof(representation) = 'text'",
            "representation in ('packet', 'resource')",
            "typeof(direction) = 'text'",
            "direction in ('inbound', 'outbound')",
            "typeof(resource_hash) = 'blob'",
            "typeof(transferred) = 'integer'",
            "typeof(total) = 'integer'",
            "typeof(checksum_verified) = 'integer'",
            "transferred <= total",
            "checksum_verified in (0, 1)",
        ];
        if !self.table_sql_contains("attachment_blobs", &blobs_required)?
            || !self.table_sql_contains("message_attachments", &attachments_required)?
            || !self.table_sql_contains("attachment_issues", &issues_required)?
            || !self.table_sql_contains("attachment_transfers", &transfers_required)? {
            return Ok(false);
        }
        self.bool_query(
            "SELECT EXISTS(SELECT 1 FROM sqlite_schema
             WHERE type = 'index' AND name = 'idx_message_attachments_digest'
               AND lower(sql) LIKE '%message_attachments(digest)%')",
            &[],
        )
    }

    /// Whether a table exists and its lowercased SQL holds each of `required`.
    fn table_sql_contains(&mut self, table: &str, required: &[&str]) -> (r: Result<bool, StoreError>)
        ensures
            crate::store::extends(old(self)@, final(self)@),
    {
        match self.opt_text_query(
            "SELECT sql FROM sqlite_schema WHERE type = 'table' AND name = ?1",
            &[text_arg(table)],
        )? {
            Some(sql) => {
                let normalized = to_ascii_lower(sql.as_str());
                Ok(contains_all(normalized.as_str(), required))
            },
            None => Ok(false),
        }
    }

    fn attachment_schema_has_expected_columns(&mut self) -> (r: Result<bool, StoreError>)
        ensures
            crate::store::extends(old(self)@, final(self)@),
    {
        Ok(self.table_has_columns(
            "PRAGMA table_info(attachment_blobs)",
            &["digest", "byte_len", "data", "state", "created_at", "verified_at"],
        )? && self.table_has_columns(
            "PRAGMA table_info(message_attachments)",
            &["message_id", "ordinal", "digest", "wire_name", "content_type", "transfer_id", "resource_hash", "source"],
        )? && self.table_has_columns(
            "PRAGMA table_info(attachment_issues)",
            &["message_id", "reason", "created_at"],
        )? && self.table_has_columns(
            "PRAGMA table_info(attachment_transfers)",
            &[
                "message_id",
                "transfer_id",
                "resource_hash",
                "representation",
                "direction",
                "state",
                "transferred",
                "total",
                "checksum_verified",
                "error",
                "updated_at",
            ],
        )?)
    }

    /// v9: attachment blobs shared by digest, with their transfers; on every
    /// start, interrupted transfers fail, orphan blobs go and corrupt blobs
    /// are marked.
    fn ensure_attachment_schema(&mut self, migration_id: &str) -> (r: Result<(), StoreError>)
        ensures
            crate::store::extends(old(self)@, final(self)@),
            r is Ok ==> attachment_invariants_checked(old(self)@, final(self)@),
            r is Ok ==> crate::store::succeeded_atomically(old(self)@, final(self)@),
            r is Err ==> crate::store::failed_cleanly(old(self)@, final(self)@),
    {
        self.begin_immediate()?;
        let ghost began = self@;
        let applied = self.ensure_attachment_schema_in_transaction(migration_id);
        let ghost stepped = self@;
        let out = self.finish(applied);
        proof {
            if out is Ok {
                lemma_checked_widen(old(self)@, began, stepped, self@);
            }
        }
        out
    }

    fn ensure_attachment_schema_in_transaction(&mut self, migration_id: &str) -> (r: Result<(), StoreError>)
        ensures
            crate::store::extends(old(self)@, final(self)@),
            r is Ok ==> attachment_invariants_checked(old(self)@, final(self)@),
    {
        let applied = self.migration_applied(migration_id)?;
        if !applied {
            self.batch(ATTACHMENT_TABLES_SQL)?;
            if !self.attachment_schema_is_valid()? {
                return Err(invalid("v9 attachment schema validation failed"));
            }
            self.exec(
                "INSERT INTO schema_migrations (id, applied_at)
                 VALUES (?1, CAST(strftime('%s','now') AS INTEGER))",
                &[text_arg(migration_id)],
            )?;
        } else if !self.attachment_schema_is_valid()? {
            if !self.attachment_schema_has_expected_columns()? {
                return Err(invalid("v9 attachment schema marker present for malformed schema"));
            }
            self.batch(REBUILD_ATTACHMENTS_SQL)?;
            if !self.attachment_schema_is_valid()? {
                return Err(invalid("v9 attachment strict schema repair failed"));
            }
            self.exec(
                "INSERT OR IGNORE INTO schema_migrations (id, applied_at)
                 VALUES ('2026-08-24-lxmf-inline-attachments-v9-strict-types',
                         CAST(strftime('%s','now') AS INTEGER))",
                &[],
            )?;
        }
        let no_args: [SqlArg; 0] = [];
        assert(crate::sql::args_view(no_args@) =~= Seq::<crate::sql::ArgView>::empty());
        let ghost failing_at: int = self@.len() as int;
        self.exec(FAIL_INTERRUPTED_TRANSFERS_SQL, &no_args)?;
        let ghost refs_at: int = self@.len() as int;
        let invalid_references = self.bool_query(REFERENCE_CHECK_SQL, &no_args)?;
        if invalid_references {
            return Err(invalid("v9 attachment reference invariant failed"));
        }
        let ghost refs_read = self@;
        self.gc_attachment_blobs()?;
        let ghost quota_at: int = self@.len() as int;
        let row = match self.first_row(BLOB_TOTALS_SQL, &no_args)? {
            Some(row) => row,
            None => return Err(StoreError::QueryReturnedNoRows),
        };
        let retained_count = col_int(row.as_slice(), 0)?;
        let retained_bytes = col_int(row.as_slice(), 1)?;
        if retained_count > crate::limits::MAX_ATTACHMENT_BLOB_COUNT as i64
            || retained_bytes > crate::limits::MAX_ATTACHMENT_BLOB_AGGREGATE_BYTES as i64 {
            return Err(invalid("v9 attachment quota invariant failed"));
        }
        let ghost quota_read = self@;
        proof {
            assert(old(self)@.len() <= failing_at);
            assert(self@[refs_at] == refs_read[refs_at]);
            assert(self@[failing_at] == refs_read[failing_at]);
            assert(interrupted_failed(self@[failing_at]));
            assert(references_clean(self@[refs_at]));
            assert(blobs_within_quota(self@[quota_at]));
            assert(attachment_invariants_checked(old(self)@, self@));
        }
        let rows = self.rows(
            "SELECT digest, byte_len, data FROM attachment_blobs WHERE state = 'verified' ORDER BY digest",
            &[],
        )?;
        let mut corrupt: Vec<Vec<u8>> = Vec::new();
        let mut i: usize = 0;
        while i < rows.len()
            invariant
                crate::store::extends(old(self)@, self@),
                i <= rows.len(),
                crate::store::extends(quota_read, self@),
                attachment_invariants_checked(old(self)@, quota_read),
            decreases rows.len() - i,
        {
            let row = rows[i].as_slice();
            let digest = col_blob(row, 0)?;
            let byte_len = col_int(row, 1)?;
            let data = col_blob(row, 2)?;
            if blob_is_corrupt(digest.as_slice(), byte_len, data.as_slice()) {
                corrupt.push(digest);
            }
            i = i + 1;
        }
        let mut k: usize = 0;
        while k < corrupt.len()
            invariant
                crate::store::extends(old(self)@, self@),
                k <= corrupt.len(),
                crate::store::extends(quota_read, self@),
                attachment_invariants_checked(old(self)@, quota_read),
            decreases corrupt.len() - k,
        {
            self.exec(
                "UPDATE attachment_blobs SET state = 'integrity_failed', verified_at = NULL WHERE digest = ?1",
                &[blob_arg(corrupt[k].as_slice())],
            )?;
            k = k + 1;
        }
        proof {
            lemma_checked_extend(old(self)@, quota_read, self@);
        }
        Ok(())
    }

    /// Deletes blobs that no attachment references; returns how many.
    pub(crate) fn gc_attachment_blobs(&mut self) -> (r: Result<usize, StoreError>)
        ensures
            crate::store::extends(old(self)@, final(self)@),
    {
        self.exec(
            "DELETE FROM attachment_blobs
             WHERE NOT EXISTS (SELECT 1 FROM message_attachments ma WHERE ma.digest = attachment_blobs.digest)",
            &[],
        )
    }

    // ── v13: message inspection ─────────────────────────────────────────

    /// Whether the message inspection tables, the delivery evidence table and
    /// their indexes are exactly those the v13 migration creates.
    pub fn message_inspection_schema_is_valid(&mut self) -> (r: Result<bool, StoreError>)
        ensures
            crate::store::extends(old(self)@, final(self)@),
    {
        let objects = [
            ("table", "canonical_inbound_inspection", CANONICAL_INSPECTION_TABLE_SQL),
            ("table", "outbound_message_inspection", OUTBOUND_INSPECTION_TABLE_SQL),
            ("table", "message_delivery_evidence", DELIVERY_EVIDENCE_TABLE_SQL),
            ("index", "idx_message_delivery_evidence_message", DELIVERY_EVIDENCE_INDEX_SQL),
            ("index", "idx_message_delivery_evidence_terminal", DELIVERY_EVIDENCE_RETENTION_INDEX_SQL),
        ];
        let mut i: usize = 0;
        while i < 5
            invariant
                crate::store::extends(old(self)@, self@),
                i <= 5,
            decreases 5 - i,
        {
            let (kind, name, expected) = objects[i];
            let sql = self.opt_text_query(
                "SELECT sql FROM sqlite_master WHERE type = ?1 AND name = ?2",
                &[text_arg(kind), text_arg(name)],
            )?;
            let matches = match sql {
                Some(actual) => {
                    let a = crate::schema_sql::normalize_local_schema_sql(actual.as_str());
                    let e = crate::schema_sql::normalize_local_schema_sql(expected);
                    str_eq(a.as_str(), e.as_str())
                },
                None => false,
            };
            if !matches {
                return Ok(false);
            }
            i = i + 1;
        }
        let tables = ["canonical_inbound_inspection", "outbound_message_inspection", "message_delivery_evidence"];
        let mut t: usize = 0;
        while t < 3
            invariant
                crate::store::extends(old(self)@, self@),
                t <= 3,
            decreases 3 - t,
        {
            let strict = self.opt_int_query(
                "SELECT strict FROM pragma_table_list WHERE schema = 'main' AND name = ?1",
                &[text_arg(tables[t])],
            )?;
            if strict != Some(1i64) {
                return Ok(false);
            }
            t = t + 1;
        }
        Ok(true)
    }

    /// v13: inspection rows for canonical and outbound messages, and the
    /// delivery evidence table; a marker over a malformed schema fails.
    fn ensure_message_inspection_schema(&mut self) -> (r: Result<(), StoreError>)
        ensures
            crate::store::extends(old(self)@, final(self)@),
    {
        if self.migration_applied(MESSAGE_INSPECTION_MIGRATION)? {
            return if self.message_inspection_schema_is_valid()? {
                Ok(())
            } else {
                Err(invalid("v13 message inspection schema attestation failed"))
            };
        }
        let collision = self.bool_query("SELECT EXISTS(
             SELECT 1 FROM sqlite_master WHERE name IN (
                 'canonical_inbound_inspection','outbound_message_inspection',
                 'message_delivery_evidence','idx_message_delivery_evidence_message',
                 'idx_message_delivery_evidence_terminal'
             )
         )", &[])?;
        if collision {
            return Err(invalid("v13 message inspection schema object collision"));
        }
        self.begin_immediate()?;
        let applied = self.create_message_inspection_schema();
        self.finish(applied)
    }

    fn create_message_inspection_schema(&mut self) -> (r: Result<(), StoreError>)
        ensures
            crate::store::extends(old(self)@, final(self)@),
    {
        self.batch(CANONICAL_INSPECTION_TABLE_SQL)?;
        self.batch(OUTBOUND_INSPECTION_TABLE_SQL)?;
        self.exec(
            "INSERT INTO canonical_inbound_inspection (message_id, stamp_target)
             SELECT message_id, NULL FROM canonical_inbound_messages",
            &[],
        )?;
        self.exec(
            "INSERT INTO outbound_message_inspection (message_id, terminal_detail)
             SELECT message_id, NULL FROM outbound_routes",
            &[],
        )?;
        self.batch(DELIVERY_EVIDENCE_TABLE_SQL)?;
        self.batch(DELIVERY_EVIDENCE_INDEX_SQL)?;
        self.batch(DELIVERY_EVIDENCE_RETENTION_INDEX_SQL)?;
        if !self.message_inspection_schema_is_valid()? {
            return Err(invalid("v13 message inspection schema validation failed"));
        }
        self.exec(
            "INSERT INTO schema_migrations (id, applied_at) VALUES (?1, CAST(strftime('%s','now') AS INTEGER))",
            &[text_arg(MESSAGE_INSPECTION_MIGRATION)],
        )?;
        Ok(())
    }

    /// Deletes terminal delivery evidence older than the retention period,
    /// with the matching outbound evidence; returns how many records went.
    pub fn prune_delivery_evidence(&mut self, now: i64) -> (r: Result<usize, StoreError>)
        ensures
            crate::store::extends(old(self)@, final(self)@),
            r is Ok ==> crate::store::succeeded_atomically(old(self)@, final(self)@),
            r is Err ==> crate::store::failed_cleanly(old(self)@, final(self)@),
    {
        let floor = if now > 0 { now } else { 0 };
        self.begin()?;
        let pruned = self.prune_delivery_evidence_in_transaction(floor);
        self.finish(pruned)
    }

    pub(crate) fn prune_delivery_evidence_in_transaction(&mut self, now: i64) -> (r: Result<usize, StoreError>)
        ensures
            crate::store::extends(old(self)@, final(self)@),
    {
        self.exec(
            "DELETE FROM outbound_evidence
             WHERE evidence_id IN (
                 SELECT evidence_hash FROM message_delivery_evidence
                 WHERE terminal_at IS NOT NULL AND terminal_at <= ?1 - ?2
             )",
            &[int_arg(now), int_arg(DELIVERY_EVIDENCE_RETENTION_SECS)],
        )?;
        self.exec(
            "DELETE FROM message_delivery_evidence
             WHERE terminal_at IS NOT NULL AND terminal_at <= ?1 - ?2",
            &[int_arg(now), int_arg(DELIVERY_EVIDENCE_RETENTION_SECS)],
        )
    }
}

/// Sixteen random bytes from the operating system.
fn random16() -> (r: Result<[u8; 16], StoreError>)
    ensures
        r matches Err(e) ==> e is InvalidParameter,
{
    match crate::outside::os_random16() {
        Some(b) => Ok(b),
        None => Err(invalid("system random source failed")),
    }
}

/// Thirty-two random bytes from the operating system.
fn random32() -> (r: Result<[u8; 32], StoreError>)
    ensures
        r matches Err(e) ==> e is InvalidParameter,
{
    match crate::outside::os_random32() {
        Some(b) => Ok(b),
        None => Err(invalid("system random source failed")),
    }
}

/// Whether a stored blob fails its integrity check: a negative or wrong
/// length, or a digest that is not the SHA-256 of its data.
pub open spec fn blob_corrupt(digest: Seq<u8>, byte_len: i64, data: Seq<u8>) -> bool {
    byte_len < 0 || byte_len != data.len() || digest != crate::outside::sha256(data)
}

/// `blob_corrupt` computed.
pub fn blob_is_corrupt(digest: &[u8], byte_len: i64, data: &[u8]) -> (r: bool)
    ensures
        r == blob_corrupt(digest@, byte_len, data@),
{
    if byte_len < 0 || byte_len as u64 != data.len() as u64 {
        return true;
    }
    let actual = crate::outside::sha256_digest(data);
    !bytes_eq(digest, &actual)
}

/// The statement that fails every transfer a restart interrupted.
pub const FAIL_INTERRUPTED_TRANSFERS_SQL: &'static str = "UPDATE attachment_transfers SET state = 'failed', error = 'daemon_restarted'
             WHERE state IN ('queued', 'transferring')";

/// The read of whether an attachment or a transfer refers to a missing
/// message or blob.
pub const REFERENCE_CHECK_SQL: &'static str = "SELECT EXISTS(
             SELECT 1 FROM message_attachments ma
             LEFT JOIN messages m ON m.id = ma.message_id
             LEFT JOIN attachment_blobs b ON b.digest = ma.digest
             WHERE m.id IS NULL OR b.digest IS NULL
         ) OR EXISTS(
             SELECT 1 FROM attachment_transfers t LEFT JOIN messages m ON m.id = t.message_id
             WHERE m.id IS NULL
         )";

/// The read of how many blobs are kept and their bytes.
pub const BLOB_TOTALS_SQL: &'static str = "SELECT COUNT(*), COALESCE(SUM(length(data)), 0) FROM attachment_blobs";

/// Whether `call` failed the interrupted transfers without error.
pub open spec fn interrupted_failed(call: SqlCall) -> bool {
    &&& call matches SqlCall::Execute(q, a, Some(_))
    &&& q == FAIL_INTERRUPTED_TRANSFERS_SQL@
}

/// Whether `call` found no dangling attachment or transfer reference.
pub open spec fn references_clean(call: SqlCall) -> bool {
    &&& call matches SqlCall::Query(q, _, Some(_))
    &&& q == REFERENCE_CHECK_SQL@
    &&& crate::store::query_int(call) == Some(0i64)
}

/// Whether `call` found the kept blobs within the store's count and byte
/// quota.
pub open spec fn blobs_within_quota(call: SqlCall) -> bool {
    &&& call matches SqlCall::Query(q, _, Some(rows))
    &&& q == BLOB_TOTALS_SQL@
    &&& rows.len() > 0
    &&& rows[0].len() > 1
    &&& rows[0][0] matches SqlValue::Int(count)
    &&& count <= crate::limits::MAX_ATTACHMENT_BLOB_COUNT
    &&& rows[0][1] matches SqlValue::Int(bytes)
    &&& bytes <= crate::limits::MAX_ATTACHMENT_BLOB_AGGREGATE_BYTES
}

/// Whether, among the calls `after` adds to `before`, interrupted transfers
/// were failed, no reference was found dangling and the blobs were found
/// within quota.
pub open spec fn attachment_invariants_checked(before: Seq<SqlCall>, after: Seq<SqlCall>) -> bool {
    &&& exists|j: int| before.len() <= j < after.len() && #[trigger] interrupted_failed(after[j])
    &&& exists|j: int| before.len() <= j < after.len() && #[trigger] references_clean(after[j])
    &&& exists|j: int| before.len() <= j < after.len() && #[trigger] blobs_within_quota(after[j])
}

proof fn lemma_checked_extend(before: Seq<SqlCall>, mid: Seq<SqlCall>, after: Seq<SqlCall>)
    requires
        attachment_invariants_checked(before, mid),
        crate::store::extends(mid, after),
    ensures
        attachment_invariants_checked(before, after),
{
    let a = choose|j: int| before.len() <= j < mid.len() && #[trigger] interrupted_failed(mid[j]);
    let b = choose|j: int| before.len() <= j < mid.len() && #[trigger] references_clean(mid[j]);
    let c = choose|j: int| before.len() <= j < mid.len() && #[trigger] blobs_within_quota(mid[j]);
    assert(after[a] == mid[a]);
    assert(after[b] == mid[b]);
    assert(after[c] == mid[c]);
}

proof fn lemma_checked_widen(outer: Seq<SqlCall>, inner: Seq<SqlCall>, mid: Seq<SqlCall>, after: Seq<SqlCall>)
    requires
        outer.len() <= inner.len(),
        attachment_invariants_checked(inner, mid),
        crate::store::extends(mid, after),
    ensures
        attachment_invariants_checked(outer, after),
{
    lemma_checked_extend(inner, mid, after);
    let a = choose|j: int| inner.len() <= j < after.len() && #[trigger] interrupted_failed(after[j]);
    let b = choose|j: int| inner.len() <= j < after.len() && #[trigger] references_clean(after[j]);
    let c = choose|j: int| inner.len() <= j < after.len() && #[trigger] blobs_within_quota(after[j]);
    assert(interrupted_failed(after[a]));
    assert(references_clean(after[b]));
    assert(blobs_within_quota(after[c]));
}

} // verus!
