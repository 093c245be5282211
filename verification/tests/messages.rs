use rusqlite::OptionalExtension;
use styrene_storage::error::{PageError, StoreError};
use styrene_storage::limits::{
    DELIVERY_EVIDENCE_RETENTION_SECS, MAX_ATTACHMENT_BLOB_COUNT, MAX_DRAFT_AGGREGATE_BYTES, MAX_DRAFT_BYTES,
    MAX_RETAINED_DRAFTS, MAX_SEARCH_QUERY_BYTES, TICKET_LENGTH,
};
use styrene_storage::schema::{
    DELIVERY_EVIDENCE_INDEX_SQL, DELIVERY_EVIDENCE_RETENTION_INDEX_SQL, DELIVERY_EVIDENCE_TABLE_SQL, MESSAGE_INSPECTION_MIGRATION,
};
use styrene_storage::records::{
    AttachmentBlobInput, CanonicalInboundRecord, ContactRecord, ConversationDraft, InboundAttachmentTransferEvidence,
    LxmfStampPolicy, LxmfTicketRecord, MessageDeliveryEvidenceRecord, MessageRecord, MutationDisposition,
    OutboundAttemptRecord, OutboundRouteRecord,
};
use styrene_storage::store::MessagesStore;

fn open_store(path: &std::path::Path) -> Result<MessagesStore, StoreError> {
    let connection = rusqlite::Connection::open(path).map_err(StoreError::Database)?;
    MessagesStore::from_connection(connection, &[])
}

fn outbound_message(id: &str, timestamp: i64, receipt_status: Option<&str>) -> MessageRecord {
    MessageRecord {
        id: id.to_string(),
        source: "src".to_string(),
        destination: "dst".to_string(),
        title: "title".to_string(),
        content: "body".to_string(),
        timestamp,
        direction: "out".to_string(),
        fields: None,
        receipt_status: receipt_status.map(ToString::to_string),
        read: false,
    }
}

fn peer_message(id: &str, peer: &str, timestamp: i64, incoming: bool) -> MessageRecord {
    MessageRecord {
        id: id.into(),
        source: if incoming { peer.into() } else { "11111111111111111111111111111111".into() },
        destination: if incoming { "11111111111111111111111111111111".into() } else { peer.into() },
        title: String::new(),
        content: id.into(),
        timestamp,
        direction: if incoming { "in".into() } else { "out".into() },
        fields: None,
        receipt_status: None,
        read: !incoming,
    }
}

fn outbound_route(id: &str, retry_of: Option<&str>) -> OutboundRouteRecord {
    OutboundRouteRecord {
        message_id: id.into(),
        requested_method: "direct".into(),
        actual_method: "direct".into(),
        representation: "packet".into(),
        fallback_reason: None,
        correlation_id: "retry-chain".into(),
        retry_of: retry_of.map(str::to_owned),
        deadline_unix_ms: 100,
        state: "queued".into(),
        attempt_count: 0,
    }
}

fn add_attempt(store: &mut MessagesStore, message_id: &str) {
    store
        .begin_outbound_attempt(&OutboundAttemptRecord {
            message_id: message_id.into(),
            attempt_number: 1,
            started_unix_ms: 1,
            deadline_unix_ms: 100,
            state: "delivered".into(),
        })
        .unwrap();
}

fn chat_message(id: &str, source: &str, dest: &str, ts: i64) -> MessageRecord {
    MessageRecord {
        id: id.to_string(),
        source: source.to_string(),
        destination: dest.to_string(),
        title: String::new(),
        content: format!("message {id}"),
        timestamp: ts,
        direction: if source == "me" { "out".to_string() } else { "in".to_string() },
        fields: None,
        receipt_status: None,
        read: false,
    }
}



#[test]
fn v8_backfills_deterministically_and_trigger_covers_compatibility_writers() {
    let directory = tempfile::tempdir().unwrap();
    let path = directory.path().join("messages.db");
    {
        let connection = rusqlite::Connection::open(&path).unwrap();
        connection
            .execute_batch(
                "CREATE TABLE messages (
                     id TEXT PRIMARY KEY, source TEXT NOT NULL, destination TEXT NOT NULL,
                     title TEXT NOT NULL, content TEXT NOT NULL, timestamp INTEGER NOT NULL,
                     direction TEXT NOT NULL, fields TEXT, receipt_status TEXT, read INTEGER
                 );
                 INSERT INTO messages VALUES
                     ('b', 'AAAAAAAAAAAAAAAAAAAAAAAAAAAAAAAA', 'local', '', 'b', 9, 'in', NULL, NULL, 0),
                     ('a', 'aaaaaaaaaaaaaaaaaaaaaaaaaaaaaaaa', 'local', '', 'a', 9, 'in', NULL, NULL, 0);",
            )
            .unwrap();
    }
    let mut store = open_store(&path).unwrap();
    let keys: Vec<(String, i64, String)> = store
        .connection()
        .prepare(
            "SELECT message_id, ingest_seq, conversation_peer
             FROM message_page_keys ORDER BY ingest_seq",
        )
        .unwrap()
        .query_map([], |row| Ok((row.get(0)?, row.get(1)?, row.get(2)?)))
        .unwrap()
        .collect::<rusqlite::Result<_>>()
        .unwrap();
    assert_eq!(keys, vec![("a".into(), 1, "a".repeat(32)), ("b".into(), 2, "a".repeat(32))]);

    store
        .connection()
        .execute(
            "INSERT INTO messages VALUES
             ('compat', 'AAAAAAAAAAAAAAAAAAAAAAAAAAAAAAAA', 'local', '', '', 1, 'in', NULL, NULL, 0)",
            [],
        )
        .unwrap();
    let key: (i64, String) = store
        .connection()
        .query_row(
            "SELECT sort_timestamp, conversation_peer FROM message_page_keys
             WHERE message_id = 'compat'",
            [],
            |row| Ok((row.get(0)?, row.get(1)?)),
        )
        .unwrap();
    assert_eq!(key, (1, "a".repeat(32)));
    store.insert_message(&peer_message("compat", &"a".repeat(32), 999, true)).unwrap();
    let unchanged: (i64, i64) = store
        .connection()
        .query_row(
            "SELECT sort_timestamp, ingest_seq FROM message_page_keys
             WHERE message_id = 'compat'",
            [],
            |row| Ok((row.get(0)?, row.get(1)?)),
        )
        .unwrap();
    assert_eq!(unchanged, (1, 3));
    let plan = store
        .connection()
        .prepare(
            "EXPLAIN QUERY PLAN SELECT message_id FROM message_page_keys
             WHERE conversation_peer = ?1 AND ingest_seq <= ?2
             ORDER BY sort_timestamp DESC, ingest_seq DESC LIMIT 10",
        )
        .unwrap()
        .query_map(("a".repeat(32), i64::MAX,), |row| row.get::<_, String>(3))
        .unwrap()
        .collect::<rusqlite::Result<Vec<_>>>()
        .unwrap();
    assert!(plan.iter().any(|detail| detail.contains("idx_message_page_peer_order")));
    let aggregation_plan = store
        .connection()
        .prepare(
            "EXPLAIN QUERY PLAN SELECT conversation_peer, COUNT(*)
             FROM message_page_keys WHERE ingest_seq <= ?1 GROUP BY conversation_peer",
        )
        .unwrap()
        .query_map((i64::MAX,), |row| row.get::<_, String>(3))
        .unwrap()
        .collect::<rusqlite::Result<Vec<_>>>()
        .unwrap();
    assert!(
        aggregation_plan.iter().any(|detail| {
            detail.contains("INTEGER PRIMARY KEY")
                || detail.contains("idx_message_page_snapshot_conversation")
                || detail.contains("COVERING INDEX idx_message_page_peer_order")
        }),
        "{aggregation_plan:?}"
    );
}

#[test]
fn message_membership_is_immutable_for_upsert_and_compatibility_sql() {
    let directory = tempfile::tempdir().unwrap();
    let path = directory.path().join("messages.db");
    let mut store = open_store(&path).unwrap();
    let peer = "aaaaaaaaaaaaaaaaaaaaaaaaaaaaaaaa";
    let original = peer_message("immutable", peer, 1, true);
    store.insert_message(&original).unwrap();

    let mut conflict = peer_message("immutable", "bbbbbbbbbbbbbbbbbbbbbbbbbbbbbbbb", 99, false);
    conflict.title = "updated".into();
    conflict.content = "mutable content".into();
    conflict.receipt_status = Some("delivered".into());
    conflict.read = true;
    store.insert_message(&conflict).unwrap();
    let authoritative = store.get_message("immutable").unwrap().unwrap();
    assert_eq!(
        (
            authoritative.source.as_str(),
            authoritative.destination.as_str(),
            authoritative.timestamp,
            authoritative.direction.as_str()
        ),
        (
            original.source.as_str(),
            original.destination.as_str(),
            original.timestamp,
            original.direction.as_str()
        )
    );
    assert_eq!(authoritative.content, "mutable content");
    assert_eq!(authoritative.receipt_status.as_deref(), Some("delivered"));

    let compatibility = rusqlite::Connection::open(&path).unwrap();
    compatibility.busy_timeout(std::time::Duration::from_secs(1)).unwrap();
    assert!(compatibility
        .execute(
            "UPDATE messages SET source = ?2, timestamp = 500 WHERE id = ?1",
            ("immutable", "cccccccccccccccccccccccccccccccc",),
        )
        .is_err());
    assert_eq!(
        compatibility
            .execute(
                "UPDATE messages SET receipt_status = 'read', read = 1 WHERE id = 'immutable'",
                [],
            )
            .unwrap(),
        1
    );
    let coherent: bool = compatibility
        .query_row(
            "SELECT k.sort_timestamp = m.timestamp AND k.conversation_peer = lower(m.source)
             FROM messages m JOIN message_page_keys k ON k.message_id = m.id
             WHERE m.id = 'immutable'",
            [],
            |row| row.get(0),
        )
        .unwrap();
    assert!(coherent);
}

#[test]
fn compatibility_connection_cannot_orphan_page_key_but_parent_cascade_works() {
    let directory = tempfile::tempdir().unwrap();
    let path = directory.path().join("messages.db");
    let mut store = open_store(&path).unwrap();
    let peer = "aaaaaaaaaaaaaaaaaaaaaaaaaaaaaaaa";
    store.insert_message(&peer_message("guarded", peer, 1, true)).unwrap();
    let compatibility = rusqlite::Connection::open(&path).unwrap();
    compatibility.pragma_update(None, "foreign_keys", "ON").unwrap();
    assert!(compatibility
        .execute("DELETE FROM message_page_keys WHERE message_id = 'guarded'", [])
        .is_err());
    assert_eq!(
        compatibility.execute("DELETE FROM messages WHERE id = 'guarded'", []).unwrap(),
        1
    );
    assert_eq!(
        store
            .connection()
            .query_row(
                "SELECT COUNT(*) FROM message_page_keys WHERE message_id = 'guarded'",
                [],
                |row| row.get::<_, i64>(0),
            )
            .unwrap(),
        0
    );
}

#[test]
fn conversation_epoch_exhaustion_fails_mutations_without_partial_effects() {
    let mut store = MessagesStore::in_memory().unwrap();
    let peer = "aaaaaaaaaaaaaaaaaaaaaaaaaaaaaaaa";
    store.insert_message(&peer_message("epoch", peer, 1, true)).unwrap();
    store.set_conversation_pinned(&peer, false).unwrap();
    store
        .connection()
        .execute(
            "UPDATE message_page_metadata SET conversation_epoch = ?1 WHERE singleton = 1",
            (i64::MAX,),
        )
        .unwrap();
    assert!(store.set_conversation_pinned(&peer, true).is_err());
    assert!(store.mark_read(peer).is_err());
    assert!(store.delete_message("epoch").is_err());
    assert!(!store.list_conversations(false).unwrap()[0].pinned);
    assert!(!store.get_message("epoch").unwrap().unwrap().read);
}

#[test]
fn open_rejects_malformed_pagination_metadata_types() {
    let directory = tempfile::tempdir().unwrap();
    let path = directory.path().join("messages.db");
    {
        let mut store = open_store(&path).unwrap();
        store
            .connection()
            .execute_batch(
                "DROP TRIGGER message_page_metadata_secret_immutable;
                 ALTER TABLE message_page_metadata RENAME TO message_page_metadata_valid;
                 CREATE TABLE message_page_metadata (
                     singleton, store_id, conversation_epoch, cursor_secret
                 );
                 INSERT INTO message_page_metadata
                     SELECT singleton, store_id, 1.5, cursor_secret
                     FROM message_page_metadata_valid;
                 DROP TABLE message_page_metadata_valid;",
            )
            .unwrap();
    }
    assert!(open_store(&path).is_err());
}

#[test]
fn router_migration_and_records_survive_reopen() {
    let temp = tempfile::tempdir().unwrap();
    let path = temp.path().join("messages.db");
    {
        let legacy = rusqlite::Connection::open(&path).unwrap();
        legacy
            .execute_batch(
                "CREATE TABLE messages (
                    id TEXT PRIMARY KEY, source TEXT NOT NULL, destination TEXT NOT NULL,
                    title TEXT NOT NULL, content TEXT NOT NULL, timestamp INTEGER NOT NULL,
                    direction TEXT NOT NULL, fields TEXT, receipt_status TEXT, read INTEGER DEFAULT 0
                );",
            )
            .unwrap();
    }
    let route = OutboundRouteRecord {
        message_id: "routed".into(),
        requested_method: "opportunistic".into(),
        actual_method: "direct".into(),
        representation: "resource".into(),
        fallback_reason: Some("encoded payload exceeds packet limit".into()),
        correlation_id: "correlation".into(),
        retry_of: None,
        deadline_unix_ms: 42_000,
        state: "queued".into(),
        attempt_count: 0,
    };
    {
        let mut store = open_store(&path).unwrap();
        store
            .insert_outbound_message(&outbound_message("routed", 1, Some("queued")), &route)
            .unwrap();
        assert!(store
            .begin_outbound_attempt(&OutboundAttemptRecord {
                message_id: "routed".into(),
                attempt_number: 1,
                started_unix_ms: 10_000,
                deadline_unix_ms: 42_000,
                state: "sending".into(),
            })
            .unwrap());
    }

    let mut reopened = open_store(&path).unwrap();
    let persisted = reopened.outbound_route("routed").unwrap().unwrap();
    assert_eq!(
        persisted,
        OutboundRouteRecord { attempt_count: 1, state: "sending".into(), ..route }
    );
    assert_eq!(reopened.outbound_attempts("routed").unwrap().len(), 1);
}

#[test]
fn foreign_keys_are_enabled_and_message_delete_cascades_router_state() {
    let mut store = MessagesStore::in_memory().unwrap();
    let foreign_keys: i64 =
        store.connection().pragma_query_value(None, "foreign_keys", |row| row.get(0)).unwrap();
    assert_eq!(foreign_keys, 1);
    let route = OutboundRouteRecord {
        message_id: "cascade".into(),
        requested_method: "direct".into(),
        actual_method: "direct".into(),
        representation: "packet".into(),
        fallback_reason: None,
        correlation_id: "cascade".into(),
        retry_of: None,
        deadline_unix_ms: 42_000,
        state: "queued".into(),
        attempt_count: 0,
    };
    store
        .insert_outbound_message(&outbound_message("cascade", 1, Some("queued")), &route)
        .unwrap();
    store
        .begin_outbound_attempt(&OutboundAttemptRecord {
            message_id: "cascade".into(),
            attempt_number: 1,
            started_unix_ms: 1,
            deadline_unix_ms: 42_000,
            state: "sending".into(),
        })
        .unwrap();

    assert!(store.finish_outbound("cascade", "delivered", "delivered").unwrap());
    assert!(store.delete_message("cascade").unwrap());

    assert!(store.outbound_route("cascade").unwrap().is_none());
    assert!(store.outbound_attempts("cascade").unwrap().is_empty());
}

#[test]
fn message_upsert_preserves_lifecycle_and_canonical_children() {
    let mut store = MessagesStore::in_memory().unwrap();
    let route = OutboundRouteRecord {
        message_id: "upsert-route".into(),
        requested_method: "direct".into(),
        actual_method: "direct".into(),
        representation: "packet".into(),
        fallback_reason: None,
        correlation_id: "upsert-route".into(),
        retry_of: None,
        deadline_unix_ms: 100,
        state: "sending".into(),
        attempt_count: 0,
    };
    store
        .insert_outbound_message(&outbound_message("upsert-route", 1, Some("sending")), &route)
        .unwrap();
    store
        .begin_outbound_attempt(&OutboundAttemptRecord {
            message_id: "upsert-route".into(),
            attempt_number: 1,
            started_unix_ms: 1,
            deadline_unix_ms: 100,
            state: "sending".into(),
        })
        .unwrap();
    let mut updated = outbound_message("upsert-route", 2, Some("delivered"));
    updated.content = "updated without replacement".into();
    store.insert_message(&updated).unwrap();
    assert!(store.outbound_route("upsert-route").unwrap().is_some());
    assert_eq!(store.outbound_attempts("upsert-route").unwrap().len(), 1);

    let projection = chat_message("upsert-canonical", "aa", "me", 1);
    let canonical = CanonicalInboundRecord {
        message_id: projection.id.clone(),
        source: [1; 16],
        destination: [2; 16],
        title: Vec::new(),
        content: b"canonical".to_vec(),
        timestamp: rusqlite::types::Value::Real(1.0),
        fields_msgpack: None,
        signature: None,
        stamp: None,
        wire: vec![3; 64],
        authentication_state: "unknown_identity".into(),
        stamp_state: "unknown".into(),
        stamp_value: None,
        stamp_target: None,
    };
    store.insert_canonical_inbound_if_absent(&projection, &canonical).unwrap();
    let mut updated_projection = projection;
    updated_projection.content = "new projection".into();
    store.insert_message(&updated_projection).unwrap();
    assert!(store.canonical_inbound("upsert-canonical").unwrap() == Some(canonical));
}

#[test]
fn sdk_domain_snapshot_roundtrip() {
    let mut store = MessagesStore::in_memory().expect("in-memory store");
    let initial = store.get_sdk_domain_snapshot().expect("query snapshot");
    assert!(initial.is_none(), "snapshot should be absent before first write");

    let snapshot: serde_json::Value = serde_json::from_str(
        r#"{ "topics": [{ "topic_id": "topic-1" }], "attachments": [], "markers": [] }"#,
    )
    .unwrap();
    store.put_sdk_domain_snapshot(&snapshot.to_string()).expect("persist snapshot");

    let loaded = store.get_sdk_domain_snapshot().expect("load snapshot");
    let loaded: Option<serde_json::Value> = loaded.map(|text| serde_json::from_str(&text).unwrap());
    assert_eq!(loaded, Some(snapshot));
}

#[test]
fn sdk_domain_snapshot_clear_removes_record() {
    let mut store = MessagesStore::in_memory().expect("in-memory store");
    store
        .put_sdk_domain_snapshot(r#"{ "voice_sessions": [{ "session_id": "voice-1" }] }"#)
        .expect("persist snapshot");
    store.clear_sdk_domain_snapshot().expect("clear snapshot");
    let loaded = store.get_sdk_domain_snapshot().expect("load snapshot");
    assert!(loaded.is_none(), "snapshot should be removed after clear");
}

#[test]
fn expire_outbound_messages_marks_non_terminal_records() {
    let mut store = MessagesStore::in_memory().expect("in-memory store");
    store
        .insert_message(&outbound_message("out-non-terminal", 10, None))
        .expect("insert non-terminal");
    store
        .insert_message(&outbound_message("out-terminal", 10, Some("delivered")))
        .expect("insert terminal");
    let expired = store.expire_outbound_messages_before(11).expect("expire outbound");
    assert_eq!(expired, vec!["out-non-terminal".to_string()]);
    let non_terminal = store
        .get_message("out-non-terminal")
        .expect("load non-terminal")
        .expect("non-terminal exists");
    assert_eq!(non_terminal.receipt_status.as_deref(), Some("expired"));
    let terminal =
        store.get_message("out-terminal").expect("load terminal").expect("terminal exists");
    assert_eq!(terminal.receipt_status.as_deref(), Some("delivered"));
}

#[test]
fn prune_outbound_messages_terminal_first_prefers_terminal_records() {
    let mut store = MessagesStore::in_memory().expect("in-memory store");
    store
        .insert_message(&outbound_message("msg-terminal-old", 1, Some("sent: direct")))
        .expect("insert terminal old");
    store
        .insert_message(&outbound_message("msg-non-terminal", 2, None))
        .expect("insert non-terminal");
    store
        .insert_message(&outbound_message("msg-terminal-new", 3, Some("delivered")))
        .expect("insert terminal new");

    let pruned = store.prune_outbound_messages(2, "terminal_first").expect("prune outbound");
    assert_eq!(pruned.len(), 2);
    assert!(pruned.iter().any(|id| id == "msg-terminal-old"));
    assert!(pruned.iter().any(|id| id == "msg-terminal-new"));
    assert!(
        store.get_message("msg-non-terminal").expect("load non-terminal").is_some(),
        "non-terminal record should remain when terminal records satisfy prune count"
    );
}

#[test]
fn deleting_retry_original_detaches_and_preserves_retry_attempts() {
    let mut store = MessagesStore::in_memory().unwrap();
    store
        .insert_outbound_message(
            &outbound_message("original-delete", 1, Some("delivered")),
            &outbound_route("original-delete", None),
        )
        .unwrap();
    store
        .insert_outbound_message(
            &outbound_message("retry-delete", 2, Some("delivered")),
            &outbound_route("retry-delete", Some("original-delete")),
        )
        .unwrap();
    add_attempt(&mut store, "original-delete");
    add_attempt(&mut store, "retry-delete");
    assert!(store.finish_outbound("original-delete", "delivered", "delivered").unwrap());

    assert!(store.delete_message("original-delete").unwrap());
    assert!(store.outbound_route("original-delete").unwrap().is_none());
    assert!(store.outbound_attempts("original-delete").unwrap().is_empty());
    assert_eq!(store.outbound_route("retry-delete").unwrap().unwrap().retry_of, None);
    assert_eq!(store.outbound_attempts("retry-delete").unwrap().len(), 1);
}

#[test]
fn pruning_retry_original_is_atomic_and_preserves_retry_attempts() {
    let mut store = MessagesStore::in_memory().unwrap();
    store
        .insert_outbound_message(
            &outbound_message("original-prune", 1, Some("delivered")),
            &outbound_route("original-prune", None),
        )
        .unwrap();
    store
        .insert_outbound_message(
            &outbound_message("retry-prune", 2, Some("delivered")),
            &outbound_route("retry-prune", Some("original-prune")),
        )
        .unwrap();
    add_attempt(&mut store, "original-prune");
    add_attempt(&mut store, "retry-prune");

    assert_eq!(
        store.prune_outbound_messages(1, "oldest").unwrap(),
        vec!["original-prune".to_string()]
    );
    assert_eq!(store.outbound_route("retry-prune").unwrap().unwrap().retry_of, None);
    assert_eq!(store.outbound_attempts("retry-prune").unwrap().len(), 1);
}

#[test]
fn conversation_delete_detaches_retry_outside_conversation() {
    let mut store = MessagesStore::in_memory().unwrap();
    let peer = "e1".repeat(16);
    let survivor = "e2".repeat(16);
    let mut original = outbound_message("original-conversation", 1, Some("delivered"));
    original.destination = peer.clone();
    let mut retry = outbound_message("retry-conversation", 2, Some("delivered"));
    retry.destination = survivor;
    store.insert_outbound_message(&original, &outbound_route(&original.id, None)).unwrap();
    store
        .insert_outbound_message(&retry, &outbound_route(&retry.id, Some(&original.id)))
        .unwrap();
    add_attempt(&mut store, &retry.id);
    assert!(store.finish_outbound(&original.id, "delivered", "delivered").unwrap());

    assert_eq!(store.delete_conversation(&peer).unwrap(), 1);
    assert_eq!(store.outbound_route(&retry.id).unwrap().unwrap().retry_of, None);
    assert_eq!(store.outbound_attempts(&retry.id).unwrap().len(), 1);
}

#[test]
fn mark_read_updates_unread_messages() {
    let mut store = MessagesStore::in_memory().expect("store");
    store.insert_message(&chat_message("m1", "alice", "me", 1)).expect("insert");
    store.insert_message(&chat_message("m2", "alice", "me", 2)).expect("insert");
    store.insert_message(&chat_message("out", "me", "alice", 2)).expect("insert");
    store.insert_message(&chat_message("m3", "bob", "me", 3)).expect("insert");

    let count = store.mark_read("alice").expect("mark_read");
    assert_eq!(count, 2);

    let m1 = store.get_message("m1").expect("get").expect("exists");
    assert!(m1.read);
    let m3 = store.get_message("m3").expect("get").expect("exists");
    assert!(!m3.read); // Bob's message unchanged
    let outbound = store.get_message("out").expect("get").expect("exists");
    assert!(!outbound.read, "mark_read must not rewrite outbound rows");
}

#[test]
fn delete_conversation_removes_all_peer_messages() {
    let mut store = MessagesStore::in_memory().expect("store");
    store.insert_message(&chat_message("m1", "alice", "me", 1)).expect("insert");
    store.insert_message(&chat_message("m2", "me", "alice", 2)).expect("insert");
    store.insert_message(&chat_message("m3", "bob", "me", 3)).expect("insert");

    let count = store.delete_conversation("alice").expect("delete");
    assert_eq!(count, 2);
    assert!(store.get_message("m1").expect("get").is_none());
    assert!(store.get_message("m2").expect("get").is_none());
    assert!(store.get_message("m3").expect("get").is_some());
}

#[test]
fn delete_message_removes_single_record() {
    let mut store = MessagesStore::in_memory().expect("store");
    store.insert_message(&chat_message("m1", "alice", "me", 1)).expect("insert");
    assert!(store.delete_message("m1").expect("delete"));
    assert!(!store.delete_message("m1").expect("delete again"));
}

#[test]
fn search_messages_finds_by_content() {
    let mut store = MessagesStore::in_memory().expect("store");
    let mut msg = chat_message("m1", "alice", "me", 1);
    msg.content = "hello world".to_string();
    store.insert_message(&msg).expect("insert");
    let mut msg2 = chat_message("m2", "bob", "me", 2);
    msg2.content = "goodbye".to_string();
    store.insert_message(&msg2).expect("insert");

    let results = store.search_messages("hello", None, 10).expect("search");
    assert_eq!(results.len(), 1);
    assert_eq!(results[0].id, "m1");

    let scoped = store.search_messages("hello", Some("bob"), 10).expect("search");
    assert_eq!(scoped.len(), 0);
}

#[test]
fn list_conversations_groups_by_peer() {
    let mut store = MessagesStore::in_memory().expect("store");
    store.insert_message(&chat_message("m1", "alice", "me", 1)).expect("insert");
    store.insert_message(&chat_message("m2", "me", "alice", 2)).expect("insert");
    store.insert_message(&chat_message("m3", "bob", "me", 3)).expect("insert");

    let convos = store.list_conversations(false).expect("list");
    assert_eq!(convos.len(), 2);
    // Most recent first
    assert_eq!(convos[0].peer_hash, "bob");
    assert_eq!(convos[0].message_count, 1);
    assert_eq!(convos[1].peer_hash, "alice");
    assert_eq!(convos[1].message_count, 2);
}

#[test]
fn list_conversations_last_content_is_most_recent() {
    let mut store = MessagesStore::in_memory().expect("store");
    let mut m1 = chat_message("m1", "alice", "me", 1);
    m1.content = "zzz first".to_string(); // Lexicographically greater
    store.insert_message(&m1).expect("insert");
    let mut m2 = chat_message("m2", "me", "alice", 2);
    m2.content = "aaa second".to_string(); // Lexicographically smaller but more recent
    store.insert_message(&m2).expect("insert");

    let convos = store.list_conversations(false).expect("list");
    assert_eq!(convos.len(), 1);
    assert_eq!(
        convos[0].last_message_content.as_deref(),
        Some("aaa second"),
        "should return most recent content, not lexicographic max"
    );
}

#[test]
fn list_conversations_unread_only() {
    let mut store = MessagesStore::in_memory().expect("store");
    store.insert_message(&chat_message("m1", "alice", "me", 1)).expect("insert");
    store.mark_read("alice").expect("mark");
    store.insert_message(&chat_message("m2", "bob", "me", 2)).expect("insert");

    let convos = store.list_conversations(true).expect("list");
    assert_eq!(convos.len(), 1);
    assert_eq!(convos[0].peer_hash, "bob");
}

#[test]
fn conversation_flags_are_independent_and_order_ties_are_stable() {
    let mut store = MessagesStore::in_memory().expect("store");
    let alice = "aa".repeat(16);
    let bob = "bb".repeat(16);
    let charlie = "cc".repeat(16);
    store.insert_message(&chat_message("z-last", &alice, "me", 10)).unwrap();
    store.insert_message(&chat_message("a-last", &alice, "me", 10)).unwrap();
    store.insert_message(&chat_message("bob", &bob, "me", 10)).unwrap();
    store.insert_message(&chat_message("charlie", &charlie, "me", 10)).unwrap();

    store.set_conversation_pinned(&charlie, true).unwrap();
    store.set_conversation_muted(&alice, true).unwrap();
    store.set_conversation_pinned(&alice, true).unwrap();
    store.set_conversation_pinned(&alice, false).unwrap();

    let conversations = store.list_conversations(false).unwrap();
    assert_eq!(
        conversations.iter().map(|item| item.peer_hash.as_str()).collect::<Vec<_>>(),
        vec![charlie.as_str(), alice.as_str(), bob.as_str()]
    );
    assert!(conversations[0].pinned);
    assert!(!conversations[0].muted);
    assert!(!conversations[1].pinned);
    assert!(conversations[1].muted);
    assert_eq!(conversations[1].last_message_content.as_deref(), Some("message z-last"));
    assert_eq!(conversations[1].unread_count, 2);
}

#[test]
fn uppercase_historical_messages_join_canonical_state_and_queries() {
    let mut store = MessagesStore::in_memory().unwrap();
    let peer = "ab".repeat(16);
    let uppercase = peer.to_ascii_uppercase();
    store.insert_message(&chat_message("upper", &uppercase, "me", 10)).unwrap();
    store.set_conversation_pinned(&peer, true).unwrap();
    store.set_conversation_muted(&peer, true).unwrap();

    let summary = store.list_conversations(false).unwrap().remove(0);
    assert_eq!(summary.peer_hash, peer);
    assert!(summary.pinned);
    assert!(summary.muted);
    assert_eq!(store.list_messages_for_peer(&summary.peer_hash, 10, None).unwrap().len(), 1);
    assert_eq!(
        store.search_messages("message", Some(&summary.peer_hash), 10).unwrap().len(),
        1
    );
    assert_eq!(store.mark_read(&summary.peer_hash).unwrap(), 1);
}

#[test]
fn drafts_are_bounded_replaceable_deletable_and_do_not_leak_into_messages() {
    let mut store = MessagesStore::in_memory().expect("store");
    let peer = "01".repeat(16);
    let draft = store.set_draft(&peer, "private draft").unwrap();
    assert_eq!(draft.content, "private draft");
    let replaced = store.set_draft(&peer, "replacement").unwrap();
    assert_eq!(store.draft(&peer).unwrap(), Some(replaced));
    assert!(store.search_messages("replacement", None, 10).unwrap().is_empty());
    assert!(store.list_conversations(false).unwrap().is_empty());
    assert_eq!(store.count_message_buckets().unwrap(), (0, 0));
    assert!(store.clear_draft(&peer).unwrap());
    assert!(store.draft(&peer).unwrap().is_none());

    assert!(store.set_draft(&peer, &"é".repeat(MAX_DRAFT_BYTES / 2 + 1)).is_err());
    for index in 0..MAX_RETAINED_DRAFTS {
        store.set_draft(&format!("{index:032x}"), "x").unwrap();
    }
    store.set_draft(&format!("{:032x}", 0), "still allowed").unwrap();
    assert!(store.set_draft(&"ff".repeat(16), "capacity failure").is_err());
    assert_eq!(store.draft(&format!("{:032x}", 0)).unwrap().unwrap().content, "still allowed");
}

#[test]
fn draft_aggregate_failure_preserves_existing_value() {
    let mut store = MessagesStore::in_memory().expect("store");
    let full = "x".repeat(MAX_DRAFT_BYTES);
    for index in 0..(MAX_DRAFT_AGGREGATE_BYTES / MAX_DRAFT_BYTES) {
        store.set_draft(&format!("{index:032x}"), &full).unwrap();
    }
    let peer = format!("{:032x}", 0);
    store.set_draft(&peer, "replacement").unwrap();
    assert!(store.set_draft(&"fe".repeat(16), &full).is_err());
    assert_eq!(store.draft(&peer).unwrap().unwrap().content, "replacement");
}

#[test]
fn draft_schema_rejects_blob_and_legacy_blob_read_is_explicit_error() {
    let mut store = MessagesStore::in_memory().unwrap();
    let peer = "91".repeat(16);
    assert!(store
        .connection()
        .execute(
            "INSERT INTO conversation_drafts (peer_hash, content, updated_at)
             VALUES (?1, ?2, 1)",
            (&peer, vec![0xff_u8, 0xfe],),
        )
        .is_err());

    store.connection().pragma_update(None, "ignore_check_constraints", "ON").unwrap();
    store
        .connection()
        .execute(
            "INSERT INTO conversation_drafts (peer_hash, content, updated_at)
             VALUES (?1, ?2, 1)",
            (&peer, vec![0xff_u8, 0xfe],),
        )
        .unwrap();
    let error = store.draft(&peer).unwrap_err();
    assert!(error.message().contains("must be SQLite TEXT"), "{}", error.message());
}

#[test]
fn deleting_conversation_removes_state_and_draft() {
    let mut store = MessagesStore::in_memory().expect("store");
    let peer = "12".repeat(16);
    store.insert_message(&chat_message("old", &peer, "me", 1)).unwrap();
    store.set_conversation_pinned(&peer, true).unwrap();
    store.set_conversation_muted(&peer, true).unwrap();
    store.set_draft(&peer, "draft").unwrap();
    assert_eq!(store.delete_conversation(&peer).unwrap(), 1);
    assert!(store.draft(&peer).unwrap().is_none());

    store.insert_message(&chat_message("new", &peer, "me", 2)).unwrap();
    let summary = store.list_conversations(false).unwrap().remove(0);
    assert!(!summary.pinned);
    assert!(!summary.muted);
}

#[test]
fn contacts_crud() {
    let mut store = MessagesStore::in_memory().expect("store");

    // Create
    let contact = store.set_contact("alice", Some("Alice"), Some("friend")).expect("set");
    assert_eq!(contact.peer_hash, "alice");
    assert_eq!(contact.alias.as_deref(), Some("Alice"));

    // List
    let contacts = store.list_contacts().expect("list");
    assert_eq!(contacts.len(), 1);

    // Update
    let updated = store.set_contact("alice", Some("Alice B"), None).expect("update");
    let contacts = store.list_contacts().expect("list");
    assert_eq!(contacts[0].alias.as_deref(), Some("Alice B"));
    assert_eq!(updated.created_at, contact.created_at);
    assert!(updated.updated_at > contact.updated_at);

    // Remove
    assert!(store.remove_contact("alice").expect("remove"));
    assert!(!store.remove_contact("alice").expect("remove again"));
    assert!(store.list_contacts().expect("list").is_empty());
}

#[test]
fn contact_outcomes_preserve_identical_timestamps_and_enforce_utf8_byte_limits() {
    let mut store = MessagesStore::in_memory().unwrap();
    let peer = "a1".repeat(16);
    let created = store.set_contact_outcome(&peer, Some("Alice"), Some("notes")).unwrap();
    assert_eq!(created.disposition, MutationDisposition::Created);
    let original = created.contact.unwrap();
    let unchanged = store.set_contact_outcome(&peer, Some("Alice"), Some("notes")).unwrap();
    assert_eq!(unchanged.disposition, MutationDisposition::Unchanged);
    assert_eq!(unchanged.contact.unwrap(), original);
    let updated = store.set_contact_outcome(&peer, Some("Alice 2"), Some("notes")).unwrap();
    assert_eq!(updated.disposition, MutationDisposition::Updated);
    assert!(updated.contact.unwrap().updated_at > original.updated_at);
    assert!(store.set_contact_outcome(&peer, Some(&"é".repeat(129)), None).is_err());
    assert!(store.set_contact_outcome(&peer, None, Some(&"é".repeat(2049))).is_err());
}

#[test]
fn mark_read_and_flags_are_authoritative_and_do_not_create_ghosts() {
    let mut store = MessagesStore::in_memory().unwrap();
    let peer = "b1".repeat(16);
    assert_eq!(
        store.mark_read_outcome(&peer).unwrap().disposition,
        MutationDisposition::NotFound
    );
    assert_eq!(
        store.set_conversation_flag_outcome(&peer, "pinned", true).unwrap().disposition,
        MutationDisposition::NotFound
    );
    let state_rows: i64 = store
        .connection()
        .query_row("SELECT COUNT(*) FROM conversation_state", [], |row| row.get(0))
        .unwrap();
    assert_eq!(state_rows, 0);

    store.insert_message(&chat_message("unread", &peer, "me", 1)).unwrap();
    let applied = store.mark_read_outcome(&peer).unwrap();
    assert_eq!(applied.disposition, MutationDisposition::Applied);
    assert_eq!(applied.affected_count, 1);
    assert_eq!(applied.summary.unwrap().unread_count, 0);
    assert_eq!(
        store.mark_read_outcome(&peer).unwrap().disposition,
        MutationDisposition::Unchanged
    );
    let pinned = store.set_conversation_flag_outcome(&peer, "pinned", true).unwrap();
    assert!(pinned.summary.unwrap().pinned);
    let muted = store.set_conversation_flag_outcome(&peer, "muted", true).unwrap();
    let summary = muted.summary.unwrap();
    assert!(summary.pinned && summary.muted);
}

#[test]
fn search_is_literal_bounded_ordered_and_reports_truncation() {
    let mut store = MessagesStore::in_memory().unwrap();
    let peer = "c1".repeat(16);
    for (id, content, timestamp) in [
        ("a", "literal 100%_\\ match", 2),
        ("b", "literal 100%_\\ match", 2),
        ("c", "literal 100xx match", 3),
    ] {
        let mut message = chat_message(&id, &peer, "me", timestamp);
        message.content = content.into();
        store.insert_message(&message).unwrap();
    }
    let result = store.search_message_projection_outcome("100%_\\", None, 1).unwrap();
    assert_eq!(result.matched_count, 2);
    assert!(result.truncated);
    assert_eq!(result.items[0].message.id, "b");
    assert!(store.search_message_projection_outcome("", None, 1).is_err());
    assert!(store
        .search_message_projection_outcome(&"x".repeat(MAX_SEARCH_QUERY_BYTES + 1), None, 1)
        .is_err());
    assert!(store.search_message_projection_outcome("x", None, 0).is_err());
}

#[test]
fn active_outbound_delete_conflicts_then_terminal_delete_is_idempotent() {
    let mut store = MessagesStore::in_memory().unwrap();
    store
        .insert_outbound_message(
            &outbound_message("active-delete", 1, Some("queued")),
            &outbound_route("active-delete", None),
        )
        .unwrap();
    let conflict = store.delete_message_outcome("active-delete").unwrap();
    assert_eq!(conflict.disposition, MutationDisposition::TerminalConflict);
    assert!(store.get_message("active-delete").unwrap().is_some());
    assert!(store.finish_outbound("active-delete", "failed", "failed").unwrap());
    assert_eq!(
        store.delete_message_outcome("active-delete").unwrap().disposition,
        MutationDisposition::Applied
    );
    assert_eq!(
        store.delete_message_outcome("active-delete").unwrap().disposition,
        MutationDisposition::NotFound
    );
}

#[test]
fn v6_merges_valid_case_duplicate_contacts_and_preserves_invalid_rows() {
    let temp = tempfile::tempdir().unwrap();
    let path = temp.path().join("contact-migration.db");
    let peer = "ab".repeat(16);
    {
        let mut store = open_store(&path).unwrap();
        store
            .connection()
            .execute_batch(
                "DROP INDEX idx_contacts_canonical_peer;
                 DROP TABLE conversation_drafts;
                 DROP TABLE conversation_state;
                 DELETE FROM schema_migrations
                 WHERE id = '2026-08-23-conversation-state-drafts-v6';",
            )
            .unwrap();
        store
            .connection()
            .execute(
                "INSERT INTO contacts VALUES (?1, 'old', 'old notes', 5, 10)",
                (&peer,),
            )
            .unwrap();
        store
            .connection()
            .execute(
                "INSERT INTO contacts VALUES (?1, 'new', NULL, 7, 20)",
                (peer.to_ascii_uppercase(),),
            )
            .unwrap();
        store
            .connection()
            .execute("INSERT INTO contacts VALUES ('bad!', 'invalid', NULL, 1, 30)", [])
            .unwrap();
        store
            .connection()
            .execute("INSERT INTO contacts VALUES ('BAD!', 'also invalid', NULL, 2, 31)", [])
            .unwrap();
    }

    let mut store = open_store(&path).unwrap();
    let contacts = store.list_contacts().unwrap();
    let canonical = contacts.iter().find(|contact| contact.peer_hash == peer).unwrap();
    assert_eq!(canonical.alias.as_deref(), Some("new"));
    assert_eq!(canonical.notes, None);
    assert_eq!(canonical.created_at, 5);
    assert_eq!(canonical.updated_at, 20);
    assert!(contacts.iter().any(|contact| contact.peer_hash == "bad!"));
    assert!(contacts.iter().any(|contact| contact.peer_hash == "BAD!"));
    assert!(store
        .connection()
        .execute(
            "INSERT INTO contacts VALUES (?1, NULL, NULL, 1, 1)",
            (peer.to_ascii_uppercase(),),
        )
        .is_err());
}

#[test]
fn v6_skips_malformed_contact_types_without_blocking_startup() {
    let temp = tempfile::tempdir().unwrap();
    let path = temp.path().join("malformed-contacts.db");
    let blob_alias_peer = "c1".repeat(16);
    let negative_time_peer = "c2".repeat(16);
    let normal_peer = "c3".repeat(16);
    {
        let mut store = open_store(&path).unwrap();
        store
            .connection()
            .execute_batch(
                "DROP INDEX idx_contacts_canonical_peer;
                 DROP TABLE conversation_drafts;
                 DROP TABLE conversation_state;
                 DELETE FROM schema_migrations
                 WHERE id IN (
                     '2026-08-23-conversation-state-drafts-v6',
                     '2026-08-23-conversation-schema-hardening-v7'
                 );",
            )
            .unwrap();
        store
            .connection()
            .execute(
                "INSERT INTO contacts VALUES (?1, ?2, NULL, 1, 2)",
                (&blob_alias_peer, vec![0xff_u8],),
            )
            .unwrap();
        store
            .connection()
            .execute(
                "INSERT INTO contacts VALUES (?1, 'Normal', 'safe', 3, 4)",
                (&normal_peer,),
            )
            .unwrap();
        store
            .connection()
            .execute(
                "INSERT INTO contacts VALUES (?1, 'negative', NULL, -1, 2)",
                (&negative_time_peer,),
            )
            .unwrap();
    }

    let mut store = open_store(&path).unwrap();
    let blob_type: String = store
        .connection()
        .query_row(
            "SELECT typeof(alias) FROM contacts WHERE peer_hash = ?1",
            (&blob_alias_peer,),
            |row| row.get(0),
        )
        .unwrap();
    let created_at: i64 = store
        .connection()
        .query_row(
            "SELECT created_at FROM contacts WHERE peer_hash = ?1",
            (&negative_time_peer,),
            |row| row.get(0),
        )
        .unwrap();
    assert_eq!(blob_type, "blob");
    assert_eq!(created_at, -1);
    let contacts = store.list_contacts().unwrap();
    let blob_alias =
        contacts.iter().find(|contact| contact.peer_hash == blob_alias_peer).unwrap();
    assert_eq!(blob_alias.alias, None);
    assert_eq!(blob_alias.created_at, 1);
    let negative =
        contacts.iter().find(|contact| contact.peer_hash == negative_time_peer).unwrap();
    assert_eq!(negative.alias.as_deref(), Some("negative"));
    assert_eq!(negative.created_at, 0);
    let normal = contacts.iter().find(|contact| contact.peer_hash == normal_peer).unwrap();
    assert_eq!(normal.alias.as_deref(), Some("Normal"));
    assert_eq!(normal.notes.as_deref(), Some("safe"));
}

#[test]
fn absent_v6_marker_rebuilds_partial_tables_with_exact_constraints() {
    let temp = tempfile::tempdir().unwrap();
    let path = temp.path().join("partial-v6.db");
    let peer = "d0".repeat(16);
    {
        let mut store = open_store(&path).unwrap();
        store
            .connection()
            .execute_batch(
                "DROP TABLE conversation_drafts;
                 DROP TABLE conversation_state;
                 CREATE TABLE conversation_state (
                     peer_hash TEXT PRIMARY KEY, pinned, muted, updated_at
                 );
                 CREATE TABLE conversation_drafts (
                     peer_hash TEXT PRIMARY KEY, content, updated_at
                 );
                 DELETE FROM schema_migrations
                 WHERE id IN (
                     '2026-08-23-conversation-state-drafts-v6',
                     '2026-08-23-conversation-schema-hardening-v7'
                 );",
            )
            .unwrap();
        store
            .connection()
            .execute(
                "INSERT INTO conversation_state VALUES (?1, 1, 0, 10)",
                (peer.to_ascii_uppercase(),),
            )
            .unwrap();
        store
            .connection()
            .execute("INSERT INTO conversation_state VALUES (?1, 0, 1, 20)", (&peer,))
            .unwrap();
        store
            .connection()
            .execute("INSERT INTO conversation_state VALUES ('invalid', 2, 0, 30)", [])
            .unwrap();
        store
            .connection()
            .execute(
                "INSERT INTO conversation_drafts VALUES (?1, 'old', 10)",
                (peer.to_ascii_uppercase(),),
            )
            .unwrap();
        store
            .connection()
            .execute("INSERT INTO conversation_drafts VALUES (?1, 'latest', 20)", (&peer,))
            .unwrap();
        store
            .connection()
            .execute("INSERT INTO conversation_drafts VALUES ('weak', NULL, NULL)", [])
            .unwrap();
    }
    let mut store = open_store(&path).unwrap();
    assert!(store.conversation_schema_is_valid().unwrap());
    let state: (i64, i64, i64) = store
        .connection()
        .query_row(
            "SELECT pinned, muted, updated_at FROM conversation_state WHERE peer_hash = ?1",
            (&peer,),
            |row| Ok((row.get(0)?, row.get(1)?, row.get(2)?)),
        )
        .unwrap();
    assert_eq!(state, (0, 1, 20));
    assert_eq!(store.draft(&peer).unwrap().unwrap().content, "latest");
    assert!(store
        .connection()
        .execute("INSERT INTO conversation_drafts VALUES (NULL, 'draft', 1)", [],)
        .is_err());
    assert!(store
        .connection()
        .execute(
            "INSERT INTO conversation_drafts VALUES (?1, NULL, 1)",
            ("d1".repeat(16),),
        )
        .is_err());
    assert!(store
        .connection()
        .execute(
            "INSERT INTO conversation_drafts VALUES (?1, ?2, 1)",
            ("d2".repeat(16), "x".repeat(MAX_DRAFT_BYTES + 1),),
        )
        .is_err());
    let count: i64 = store
        .connection()
        .query_row("SELECT COUNT(*) FROM conversation_drafts", [], |row| row.get(0))
        .unwrap();
    assert_eq!(count, 1);
}

#[test]
fn v7_repairs_marker_present_weak_schema() {
    let temp = tempfile::tempdir().unwrap();
    let path = temp.path().join("weak-v7.db");
    let peer = "d4".repeat(16);
    {
        let mut store = open_store(&path).unwrap();
        store
            .connection()
            .execute_batch(
                "DROP TABLE conversation_drafts;
                 DROP TABLE conversation_state;
                 CREATE TABLE conversation_state (
                     peer_hash TEXT PRIMARY KEY, pinned, muted, updated_at
                 );
                 CREATE TABLE conversation_drafts (
                     peer_hash TEXT PRIMARY KEY, content, updated_at
                 );
                 DELETE FROM schema_migrations
                 WHERE id = '2026-08-23-conversation-schema-hardening-v7';",
            )
            .unwrap();
        store
            .connection()
            .execute(
                "INSERT INTO conversation_state VALUES (?1, 1, 1, 40)",
                (peer.to_ascii_uppercase(),),
            )
            .unwrap();
        store
            .connection()
            .execute("INSERT INTO conversation_state VALUES ('invalid', 3, 0, 50)", [])
            .unwrap();
        store
            .connection()
            .execute(
                "INSERT INTO conversation_drafts VALUES (?1, 'preserved', 40)",
                (peer.to_ascii_uppercase(),),
            )
            .unwrap();
        store
            .connection()
            .execute(
                "INSERT INTO conversation_drafts VALUES ('invalid', ?1, 50)",
                (vec![0xff_u8],),
            )
            .unwrap();
    }
    let mut store = open_store(&path).unwrap();
    assert!(store.conversation_schema_is_valid().unwrap());
    let state: (i64, i64) = store
        .connection()
        .query_row(
            "SELECT pinned, muted FROM conversation_state WHERE peer_hash = ?1",
            (&peer,),
            |row| Ok((row.get(0)?, row.get(1)?)),
        )
        .unwrap();
    assert_eq!(state, (1, 1));
    assert_eq!(store.draft(&peer).unwrap().unwrap().content, "preserved");
    let marker: bool = store
        .connection()
        .query_row(
            "SELECT EXISTS(SELECT 1 FROM schema_migrations
             WHERE id = '2026-08-23-conversation-schema-hardening-v7')",
            [],
            |row| row.get(0),
        )
        .unwrap();
    assert!(marker);
}

#[test]
fn v7_repairs_each_missing_peer_constraint() {
    let variants = [
        (
            "not-null",
            "peer_hash TEXT PRIMARY KEY
             CHECK(length(peer_hash) = 32)
             CHECK(peer_hash = lower(peer_hash))
             CHECK(peer_hash NOT GLOB '*[^0-9a-f]*')",
        ),
        (
            "length",
            "peer_hash TEXT NOT NULL PRIMARY KEY
             CHECK(peer_hash = lower(peer_hash))
             CHECK(peer_hash NOT GLOB '*[^0-9a-f]*')",
        ),
        (
            "lowercase",
            "peer_hash TEXT NOT NULL PRIMARY KEY
             CHECK(length(peer_hash) = 32)
             CHECK(peer_hash NOT GLOB '*[^0-9a-f]*')",
        ),
        (
            "hex",
            "peer_hash TEXT NOT NULL PRIMARY KEY
             CHECK(length(peer_hash) = 32)
             CHECK(peer_hash = lower(peer_hash))",
        ),
    ];
    for (name, peer_column) in variants {
        let temp = tempfile::tempdir().unwrap();
        let path = temp.path().join(format!("weak-{name}.db"));
        {
            let mut store = open_store(&path).unwrap();
            store
                .connection()
                .execute_batch(&format!(
                    "DROP TABLE conversation_drafts;
                     DROP TABLE conversation_state;
                     CREATE TABLE conversation_state (
                         {peer_column},
                         pinned INTEGER NOT NULL DEFAULT 0 CHECK(pinned IN (0, 1)),
                         muted INTEGER NOT NULL DEFAULT 0 CHECK(muted IN (0, 1)),
                         updated_at INTEGER NOT NULL
                     );
                     CREATE TABLE conversation_drafts (
                         {peer_column},
                         content TEXT NOT NULL
                             CHECK(typeof(content) = 'text')
                             CHECK(length(CAST(content AS BLOB)) <= 65536),
                         updated_at INTEGER NOT NULL
                     );
                     DELETE FROM schema_migrations
                     WHERE id = '2026-08-23-conversation-schema-hardening-v7';"
                ))
                .unwrap();
        }
        let mut store = open_store(&path).unwrap();
        assert!(store.conversation_schema_is_valid().unwrap(), "variant {name}");
    }
}

#[test]
fn conversation_migration_preserves_authoritative_records_and_is_idempotent() {
    let temp = tempfile::tempdir().unwrap();
    let path = temp.path().join("pre-conversation-v6.db");
    let peer = "34".repeat(16);
    let route = OutboundRouteRecord {
        message_id: "outbound".into(),
        requested_method: "direct".into(),
        actual_method: "direct".into(),
        representation: "packet".into(),
        fallback_reason: None,
        correlation_id: "migration-attempt".into(),
        retry_of: None,
        deadline_unix_ms: 100,
        state: "sending".into(),
        attempt_count: 0,
    };
    {
        let mut store = open_store(&path).unwrap();
        let mut inbound = chat_message("inbound", &peer, "me", 1);
        inbound.read = true;
        store.insert_message(&inbound).unwrap();
        store
            .insert_outbound_message(&outbound_message("outbound", 2, Some("sending")), &route)
            .unwrap();
        store
            .begin_outbound_attempt(&OutboundAttemptRecord {
                message_id: "outbound".into(),
                attempt_number: 1,
                started_unix_ms: 10,
                deadline_unix_ms: 100,
                state: "sending".into(),
            })
            .unwrap();
        store.set_contact(&peer, Some("Peer"), Some("preserve")).unwrap();
        store
            .insert_canonical_inbound_if_absent(
                &chat_message("canonical", &peer, "me", 3),
                &CanonicalInboundRecord {
                    message_id: "canonical".into(),
                    source: [3; 16],
                    destination: [4; 16],
                    title: b"title".to_vec(),
                    content: b"content".to_vec(),
                    timestamp: rusqlite::types::Value::Real(3.5),
                    fields_msgpack: None,
                    signature: None,
                    stamp: None,
                    wire: vec![5; 64],
                    authentication_state: "unknown_identity".into(),
                    stamp_state: "unknown".into(),
                    stamp_value: None,
                    stamp_target: None,
                },
            )
            .unwrap();
        store.propagation_ingest(&peer, b"route-like-payload", Some(&peer), 60).unwrap();
        store
            .upsert_lxmf_ticket(&LxmfTicketRecord {
                peer: peer.clone(),
                ticket: vec![7; TICKET_LENGTH],
                expires_at: i64::MAX,
                direction: "received".into(),
            })
            .unwrap();
    }
    {
        let conn = rusqlite::Connection::open(&path).unwrap();
        conn.execute_batch(
            "DROP TABLE conversation_drafts;
             DROP TABLE conversation_state;
             DELETE FROM schema_migrations
             WHERE id = '2026-08-23-conversation-state-drafts-v6';",
        )
        .unwrap();
    }

    {
        let mut store = open_store(&path).unwrap();
        assert!(store.get_message("inbound").unwrap().unwrap().read);
        assert_eq!(store.list_contacts().unwrap()[0].alias.as_deref(), Some("Peer"));
        assert_eq!(store.outbound_attempts("outbound").unwrap().len(), 1);
        assert_eq!(store.canonical_inbound("canonical").unwrap().unwrap().timestamp, rusqlite::types::Value::Real(3.5));
        assert_eq!(store.propagation_stats().unwrap().0, 1);
        assert!(store.active_lxmf_ticket(&peer, "received", 1).unwrap().is_some());
        let marker_count: i64 = store
            .connection()
            .query_row(
                "SELECT COUNT(*) FROM schema_migrations
             WHERE id = '2026-08-23-conversation-state-drafts-v6'",
                [],
                |row| row.get(0),
            )
            .unwrap();
        assert_eq!(marker_count, 1);
    }
    let mut reopened = open_store(&path).unwrap();
    let marker_count: i64 = reopened
        .connection()
        .query_row(
            "SELECT COUNT(*) FROM schema_migrations
         WHERE id = '2026-08-23-conversation-state-drafts-v6'",
            [],
            |row| row.get(0),
        )
        .unwrap();
    assert_eq!(marker_count, 1);
    assert_eq!(reopened.outbound_attempts("outbound").unwrap().len(), 1);
}

#[test]
fn file_backed_conversation_projection_survives_restart() {
    let temp = tempfile::tempdir().unwrap();
    let path = temp.path().join("aggregate.db");
    let peer = "56".repeat(16);
    {
        let mut store = open_store(&path).unwrap();
        store.insert_message(&chat_message("in", &peer, "me", 1)).unwrap();
        store.mark_read(&peer).unwrap();
        store.set_contact(&peer, Some("Restart"), None).unwrap();
        store.set_conversation_pinned(&peer, true).unwrap();
        store.set_conversation_muted(&peer, true).unwrap();
        store.set_draft(&peer, "resume here").unwrap();
    }
    let mut store = open_store(&path).unwrap();
    let summary = store.list_conversations(false).unwrap().remove(0);
    assert_eq!(summary.unread_count, 0);
    assert!(summary.pinned);
    assert!(summary.muted);
    assert_eq!(store.list_contacts().unwrap()[0].alias.as_deref(), Some("Restart"));
    assert_eq!(store.draft(&peer).unwrap().unwrap().content, "resume here");
}

#[test]
fn list_messages_for_peer_filters_correctly() {
    let mut store = MessagesStore::in_memory().expect("store");
    store.insert_message(&chat_message("m1", "alice", "me", 1)).expect("insert");
    store.insert_message(&chat_message("m2", "me", "alice", 2)).expect("insert");
    store.insert_message(&chat_message("m3", "bob", "me", 3)).expect("insert");

    let msgs = store.list_messages_for_peer("alice", 10, None).expect("list");
    assert_eq!(msgs.len(), 2);
    // Most recent first
    assert_eq!(msgs[0].id, "m2");
    assert_eq!(msgs[1].id, "m1");
}

#[test]
fn list_messages_for_peer_orders_equal_timestamps_deterministically() {
    let mut store = MessagesStore::in_memory().expect("store");
    for index in 1..=100 {
        store
            .insert_message(&chat_message(&format!("m{index:03}"), "alice", "me", 42))
            .expect("insert");
    }

    let msgs = store.list_messages_for_peer("alice", 100, None).expect("list");
    let ids: Vec<_> = msgs.iter().map(|message| message.id.as_str()).collect();
    assert_eq!(ids.first(), Some(&"m100"));
    assert_eq!(ids.last(), Some(&"m001"));
    assert_eq!(ids.len(), 100);

    let snapshots =
        store.message_projection_snapshot_for_peer("alice", 100, None).expect("snapshot");
    let snapshot_ids: Vec<_> =
        snapshots.iter().map(|snapshot| snapshot.message.id.as_str()).collect();
    assert_eq!(snapshot_ids, ids);
}

#[test]
fn block_and_unblock_peer() {
    let mut store = MessagesStore::in_memory().expect("store");
    assert!(!store.is_blocked("abc123").unwrap());
    assert!(store.block_peer("abc123").unwrap()); // newly blocked
    assert!(store.is_blocked("abc123").unwrap());
    assert!(!store.block_peer("abc123").unwrap()); // already blocked
    assert!(store.unblock_peer("abc123").unwrap()); // was blocked
    assert!(!store.is_blocked("abc123").unwrap());
    assert!(!store.unblock_peer("abc123").unwrap()); // wasn't blocked
}

#[test]
fn blocked_peers_list() {
    let mut store = MessagesStore::in_memory().expect("store");
    store.block_peer("peer_a").unwrap();
    store.block_peer("peer_b").unwrap();
    store.block_peer("peer_c").unwrap();
    let blocked = store.blocked_peers().unwrap();
    assert_eq!(blocked.len(), 3);
    assert!(blocked.contains(&"peer_a".to_string()));
    assert!(blocked.contains(&"peer_b".to_string()));
    assert!(blocked.contains(&"peer_c".to_string()));
    store.unblock_peer("peer_b").unwrap();
    let blocked = store.blocked_peers().unwrap();
    assert_eq!(blocked.len(), 2);
    assert!(!blocked.contains(&"peer_b".to_string()));
}

#[test]
fn propagation_ingest_and_fetch_roundtrip() {
    let mut store = MessagesStore::in_memory().expect("store");
    let payload = b"lxmf-packet-1";
    assert!(store.propagation_ingest("dest-a", payload, Some("src-a"), 60).expect("ingest"));
    let fetched = store.propagation_fetch("dest-a").expect("fetch");
    assert_eq!(fetched, vec![payload.to_vec()]);
}

#[test]
fn propagation_deduplicates_identical_packets() {
    let mut store = MessagesStore::in_memory().expect("store");
    let payload = b"same-packet";
    assert!(store.propagation_ingest("dest-a", payload, None, 60).expect("first ingest"));
    assert!(!store.propagation_ingest("dest-a", payload, None, 60).expect("second ingest"));
    let stats = store.propagation_stats().expect("stats");
    assert_eq!(stats.0, 1);
}

#[test]
fn propagation_expire_removes_stale_packets() {
    let mut store = MessagesStore::in_memory().expect("store");
    store.propagation_ingest("dest-a", b"stale-packet", None, 0).expect("ingest");
    let deleted = store.propagation_expire().expect("expire");
    assert_eq!(deleted, 1);
    assert!(store.propagation_fetch("dest-a").expect("fetch").is_empty());
}

#[test]
fn propagation_delete_removes_delivered_packets() {
    let mut store = MessagesStore::in_memory().expect("store");
    store.propagation_ingest("dest-a", b"packet-1", None, 60).expect("ingest one");
    store.propagation_ingest("dest-a", b"packet-2", None, 60).expect("ingest two");
    let fetched = store.propagation_fetch_with_ids("dest-a").expect("fetch with ids");
    let ids: Vec<String> = fetched.into_iter().map(|(id, _)| id).collect();
    store.propagation_delete(&ids).expect("delete");
    let stats = store.propagation_stats().expect("stats");
    assert_eq!(stats, (0, 0));
}

#[test]
fn canonical_lxmf_migration_policy_tickets_and_cost_survive_restart() {
    let temp = tempfile::tempdir().unwrap();
    let path = temp.path().join("canonical-lxmf.sqlite");
    let projection = chat_message("canonical", "peer", "local", 10);
    let canonical = CanonicalInboundRecord {
        message_id: projection.id.clone(),
        source: [1; 16],
        destination: [2; 16],
        title: vec![0xfe],
        content: vec![0xff, 0x00],
        timestamp: rusqlite::types::Value::Real(10.75),
        fields_msgpack: Some(vec![0xc4, 0x01, 0x80]),
        signature: Some(vec![3; 64]),
        stamp: Some(vec![4; 8]),
        wire: vec![5; 128],
        authentication_state: "unknown_identity".into(),
        stamp_state: "verified".into(),
        stamp_value: Some(8),
        stamp_target: Some(8),
    };
    {
        let mut store = open_store(&path).unwrap();
        assert!(store.insert_canonical_inbound_if_absent(&projection, &canonical).unwrap());
        store
            .set_lxmf_stamp_policy(LxmfStampPolicy { target_cost: 8, flexibility: 2 })
            .unwrap();
        store.learn_peer_stamp_cost("peer", 7, 100).unwrap();
        store
            .upsert_lxmf_ticket(&LxmfTicketRecord {
                peer: "peer".into(),
                ticket: vec![6; TICKET_LENGTH],
                expires_at: 200,
                direction: "received".into(),
            })
            .unwrap();
    }
    let mut store = open_store(&path).unwrap();
    assert!(store.canonical_inbound("canonical").unwrap() == Some(canonical));
    assert_eq!(
        store.lxmf_stamp_policy().unwrap(),
        LxmfStampPolicy { target_cost: 8, flexibility: 2 }
    );
    assert_eq!(store.peer_stamp_cost("peer").unwrap(), Some(7));
    assert!(store.active_lxmf_ticket("peer", "received", 199).unwrap().is_some());
    assert_eq!(store.expire_lxmf_tickets(200).unwrap(), 1);
    assert!(store.active_lxmf_ticket("peer", "received", 200).unwrap().is_none());
}

#[test]
fn v9_attachment_blobs_deduplicate_verify_and_gc_shared_content() {
    let mut store = MessagesStore::in_memory().expect("store");
    let attachment = AttachmentBlobInput {
        wire_name: "empty.bin".into(),
        data: Vec::new(),
        content_type: Some("application/octet-stream".into()),
        source: "canonical_binary".into(),
    };
    for id in ["attachment-a", "attachment-b"] {
        let projection = chat_message(&id, "alice", "me", 10);
        let canonical = CanonicalInboundRecord {
            message_id: id.into(),
            source: [1; 16],
            destination: [2; 16],
            title: Vec::new(),
            content: Vec::new(),
            timestamp: rusqlite::types::Value::Real(10.0),
            fields_msgpack: None,
            signature: Some(vec![3; 64]),
            stamp: None,
            wire: vec![4; 128],
            authentication_state: "verified".into(),
            stamp_state: "not_applicable".into(),
            stamp_value: None,
            stamp_target: None,
        };
        assert!(store
            .insert_canonical_inbound_with_attachments(
                &projection,
                &canonical,
                std::slice::from_ref(&attachment),
                None,
            )
            .expect("insert attachment"));
    }
    let blob_count: i64 = store
        .connection()
        .query_row("SELECT COUNT(*) FROM attachment_blobs", [], |row| row.get(0))
        .unwrap();
    assert_eq!(blob_count, 1);
    let info = store.list_message_attachments("attachment-a").unwrap();
    assert_eq!(
        hex::encode(info[0].digest),
        <sha2::Sha256 as sha2::Digest>::digest([]).iter().map(|byte| format!("{byte:02x}")).collect::<String>()
    );
    let chunk = store
        .query_attachment_chunk("attachment-a", 0, 0, 1)
        .unwrap()
        .expect("empty attachment");
    assert!(chunk.data.is_empty());
    assert_eq!(chunk.next_offset, 0);
    assert!(chunk.done);

    assert!(store.delete_message("attachment-a").unwrap());
    let blob_count: i64 = store
        .connection()
        .query_row("SELECT COUNT(*) FROM attachment_blobs", [], |row| row.get(0))
        .unwrap();
    assert_eq!(blob_count, 1);
    assert!(store.delete_message("attachment-b").unwrap());
    let blob_count: i64 = store
        .connection()
        .query_row("SELECT COUNT(*) FROM attachment_blobs", [], |row| row.get(0))
        .unwrap();
    assert_eq!(blob_count, 0);
}

#[test]
fn attachment_integrity_failure_exposes_no_bytes() {
    let mut store = MessagesStore::in_memory().expect("store");
    let projection = chat_message("corrupt-attachment", "alice", "me", 10);
    let canonical = CanonicalInboundRecord {
        message_id: projection.id.clone(),
        source: [1; 16],
        destination: [2; 16],
        title: Vec::new(),
        content: Vec::new(),
        timestamp: rusqlite::types::Value::Real(10.0),
        fields_msgpack: None,
        signature: Some(vec![3; 64]),
        stamp: None,
        wire: vec![4; 128],
        authentication_state: "verified".into(),
        stamp_state: "not_applicable".into(),
        stamp_value: None,
        stamp_target: None,
    };
    store
        .insert_canonical_inbound_with_attachments(
            &projection,
            &canonical,
            &[AttachmentBlobInput {
                wire_name: "value.bin".into(),
                data: vec![1, 2, 3],
                content_type: None,
                source: "canonical_binary".into(),
            }],
            None,
        )
        .unwrap();
    store.connection().execute("UPDATE attachment_blobs SET data = x'000000'", []).unwrap();
    assert!(store.query_attachment_chunk("corrupt-attachment", 0, 0, 3).unwrap().is_none());
    let state: String = store
        .connection()
        .query_row("SELECT state FROM attachment_blobs", [], |row| row.get(0))
        .unwrap();
    assert_eq!(state, "integrity_failed");
}

#[test]
fn transfer_checksum_projection_uses_persisted_terminal_verification_only() {
    let mut store = MessagesStore::in_memory().unwrap();
    let message = outbound_message("checksum-transfer", 1, Some("queued"));
    let route = OutboundRouteRecord {
        message_id: message.id.clone(),
        requested_method: "direct".into(),
        actual_method: "direct".into(),
        representation: "resource".into(),
        fallback_reason: None,
        correlation_id: "checksum-transfer".into(),
        retry_of: None,
        deadline_unix_ms: 10,
        state: "queued".into(),
        attempt_count: 0,
    };
    store
        .insert_outbound_message_with_attachments(
            &message,
            &route,
            None,
            &[AttachmentBlobInput {
                wire_name: "checksum.bin".into(),
                data: vec![1, 2, 3],
                content_type: None,
                source: "local".into(),
            }],
            128,
        )
        .unwrap();
    assert!(!store.list_message_attachments(&message.id).unwrap()[0].checksum_verified);
    assert!(store.finish_outbound(&message.id, "failed", "failed: integrity").unwrap());
    let failed = store.list_message_attachments(&message.id).unwrap();
    assert_eq!(failed[0].transfer_state.as_deref(), Some("failed"));
    assert!(!failed[0].checksum_verified);
}

#[test]
fn integrity_failed_referenced_blobs_still_consume_distinct_blob_quota() {
    let mut store = MessagesStore::in_memory().expect("store");
    let transaction = store.connection().unchecked_transaction().unwrap();
    for index in 0..MAX_ATTACHMENT_BLOB_COUNT {
        let message_id = format!("quota-{index}");
        let mut digest = [0u8; 32];
        digest[..8].copy_from_slice(&(index as u64).to_be_bytes());
        transaction
            .execute(
                "INSERT INTO messages
                 (id, source, destination, title, content, timestamp, direction, fields,
                  receipt_status, read)
                 VALUES (?1, 'source', 'destination', '', '', 1, 'in', NULL, NULL, 0)",
                (&message_id,),
            )
            .unwrap();
        transaction
            .execute(
                "INSERT INTO attachment_blobs
                 (digest, byte_len, data, state, created_at, verified_at)
                 VALUES (?1, 0, x'', 'integrity_failed', 1, NULL)",
                (digest.as_slice(),),
            )
            .unwrap();
        transaction
            .execute(
                "INSERT INTO message_attachments
                 (message_id, ordinal, digest, wire_name, content_type, source)
                 VALUES (?1, 0, ?2, 'failed.bin', NULL, 'local')",
                (&message_id, digest.as_slice(),),
            )
            .unwrap();
    }
    transaction.commit().unwrap();

    let projection = chat_message("quota-new", "alice", "me", 10);
    let canonical = CanonicalInboundRecord {
        message_id: projection.id.clone(),
        source: [1; 16],
        destination: [2; 16],
        title: Vec::new(),
        content: Vec::new(),
        timestamp: rusqlite::types::Value::Real(10.0),
        fields_msgpack: None,
        signature: Some(vec![3; 64]),
        stamp: None,
        wire: vec![4; 128],
        authentication_state: "verified".into(),
        stamp_state: "not_applicable".into(),
        stamp_value: None,
        stamp_target: None,
    };
    let error = store
        .insert_canonical_inbound_with_attachments(
            &projection,
            &canonical,
            &[AttachmentBlobInput {
                wire_name: "new.bin".into(),
                data: vec![1],
                content_type: None,
                source: "local".into(),
            }],
            None,
        )
        .unwrap_err();
    assert!(error.message().contains("quota"));
    assert!(store.get_message("quota-new").unwrap().is_none());
}

#[test]
fn v9_restart_fails_nonterminal_transfer_and_repairs_corrupt_and_orphan_blobs() {
    let temp = tempfile::tempdir().unwrap();
    let path = temp.path().join("attachments-v9.sqlite");
    {
        let mut store = open_store(&path).unwrap();
        let projection = chat_message("restart-attachment", "alice", "me", 10);
        let canonical = CanonicalInboundRecord {
            message_id: projection.id.clone(),
            source: [1; 16],
            destination: [2; 16],
            title: Vec::new(),
            content: Vec::new(),
            timestamp: rusqlite::types::Value::Real(10.0),
            fields_msgpack: None,
            signature: Some(vec![3; 64]),
            stamp: None,
            wire: vec![4; 128],
            authentication_state: "verified".into(),
            stamp_state: "not_applicable".into(),
            stamp_value: None,
            stamp_target: None,
        };
        store
            .insert_canonical_with_attachments_and_ticket(
                &projection,
                &canonical,
                None,
                &[AttachmentBlobInput {
                    wire_name: "restart.bin".into(),
                    data: vec![1, 2, 3],
                    content_type: None,
                    source: "canonical_binary".into(),
                }],
                None,
            )
            .unwrap();
        store
            .connection()
            .execute(
                "UPDATE attachment_transfers SET state = 'transferring', transferred = 1,
                 checksum_verified = 0",
                [],
            )
            .unwrap();
        store.connection().execute("UPDATE attachment_blobs SET data = x'000000'", []).unwrap();
        let orphan = [0x55_u8; 32];
        store
            .connection()
            .execute(
                "INSERT INTO attachment_blobs
                 (digest, byte_len, data, state, created_at, verified_at)
                 VALUES (?1, 0, x'', 'verified', 10, 10)",
                (orphan.as_slice(),),
            )
            .unwrap();
    }
    let mut store = open_store(&path).unwrap();
    let (state, error): (String, Option<String>) = store
        .connection()
        .query_row("SELECT state, error FROM attachment_transfers", [], |row| {
            Ok((row.get(0)?, row.get(1)?))
        })
        .unwrap();
    assert_eq!(state, "failed");
    assert_eq!(error.as_deref(), Some("daemon_restarted"));
    let states: Vec<String> = store
        .connection()
        .prepare("SELECT state FROM attachment_blobs")
        .unwrap()
        .query_map([], |row| row.get(0))
        .unwrap()
        .collect::<rusqlite::Result<_>>()
        .unwrap();
    assert_eq!(states, ["integrity_failed"]);
}

#[test]
fn v9_marker_with_malformed_schema_fails_closed() {
    let temp = tempfile::tempdir().unwrap();
    let path = temp.path().join("malformed-v9.sqlite");
    drop(open_store(&path).unwrap());
    let connection = rusqlite::Connection::open(&path).unwrap();
    connection
        .execute_batch(
            "PRAGMA foreign_keys = OFF;
             DROP TABLE message_attachments;
             CREATE TABLE message_attachments (message_id TEXT PRIMARY KEY);",
        )
        .unwrap();
    drop(connection);
    let mut error = open_store(&path).err().expect("malformed v9 must fail");
    assert!(error.message().contains("malformed schema"));
}

#[test]
fn v9_strict_types_reject_text_hash_blob_ids_and_real_counters() {
    let mut store = MessagesStore::in_memory().unwrap();
    let message = chat_message("strict-types", "alice", "me", 1);
    store.insert_message(&message).unwrap();
    assert!(store
        .connection()
        .execute(
            "INSERT INTO attachment_transfers
             (message_id, transfer_id, resource_hash, representation, direction, state,
              transferred, total, checksum_verified, error, updated_at)
             VALUES (?1, 'transfer', ?2, 'resource', 'outbound', 'transferring',
                     0, 1, 0, NULL, 1)",
            (&message.id, "0".repeat(32),),
        )
        .is_err());
    assert!(store
        .connection()
        .execute(
            "INSERT INTO attachment_issues (message_id, reason, created_at)
             VALUES (?1, 'invalid', 1)",
            (vec![0x61_u8; 8],),
        )
        .is_err());
    assert!(store
        .connection()
        .execute(
            "INSERT INTO attachment_transfers
             (message_id, transfer_id, representation, direction, state, transferred,
              total, checksum_verified, error, updated_at)
             VALUES (?1, 'transfer', 'resource', 'outbound', 'transferring',
                     0.5, 1.0, 0, NULL, 1.0)",
            (&message.id,),
        )
        .is_err());
}

#[test]
fn v13_migrates_v12_additively_and_is_idempotent() {
    let temp = tempfile::tempdir().unwrap();
    let path = temp.path().join("message-inspection-v13.sqlite");
    drop(open_store(&path).unwrap());
    let connection = rusqlite::Connection::open(&path).unwrap();
    connection
        .execute_batch(
            "DROP INDEX idx_message_delivery_evidence_terminal;
             DROP INDEX idx_message_delivery_evidence_message;
             DROP TABLE message_delivery_evidence;
             DROP TABLE canonical_inbound_inspection;
             DROP TABLE outbound_message_inspection;
             DELETE FROM schema_migrations
              WHERE id = '2026-08-25-authoritative-message-inspection-v13';
             INSERT INTO messages
              (id, source, destination, title, content, timestamp, direction, fields,
               receipt_status, read)
              VALUES ('v12-message', 'source', 'destination', '', 'preserved', 7,
                      'in', NULL, NULL, 0);",
        )
        .unwrap();
    drop(connection);

    for _ in 0..2 {
        let mut store = open_store(&path).unwrap();
        assert_eq!(store.get_message("v12-message").unwrap().unwrap().content, "preserved");
        assert!(store.message_inspection_schema_is_valid().unwrap());
        let markers: i64 = store
            .connection()
            .query_row(
                "SELECT COUNT(*) FROM schema_migrations WHERE id = ?1",
                (MESSAGE_INSPECTION_MIGRATION,),
                |row| row.get(0),
            )
            .unwrap();
        assert_eq!(markers, 1);
    }
}

#[test]
fn v13_stamp_target_and_terminal_evidence_survive_restart_and_are_bounded() {
    let temp = tempfile::tempdir().unwrap();
    let path = temp.path().join("message-evidence-v13.sqlite");
    let message_id = "ab".repeat(32);
    {
        let mut store = open_store(&path).unwrap();
        let projection = MessageRecord {
            id: message_id.clone(),
            source: "11".repeat(16),
            destination: "22".repeat(16),
            title: String::new(),
            content: "stamp target".into(),
            timestamp: 1,
            direction: "in".into(),
            fields: None,
            receipt_status: None,
            read: false,
        };
        let canonical = CanonicalInboundRecord {
            message_id: message_id.clone(),
            source: [0x11; 16],
            destination: [0x22; 16],
            title: Vec::new(),
            content: b"stamp target".to_vec(),
            timestamp: rusqlite::types::Value::Real(1.0),
            fields_msgpack: None,
            signature: None,
            stamp: None,
            wire: vec![0; 128],
            authentication_state: "unknown_identity".into(),
            stamp_state: "not_applicable".into(),
            stamp_value: None,
            stamp_target: Some(17),
        };
        store.insert_canonical_inbound_if_absent(&projection, &canonical).unwrap();
        assert!(store.update_authentication_state(&message_id, "verified").unwrap());
    }
    let mut store = open_store(&path).unwrap();
    let canonical = store.canonical_inbound(&message_id).unwrap().unwrap();
    assert_eq!(canonical.stamp_target, Some(17));
    assert_eq!(canonical.authentication_state, "verified");

    let outbound_id = "cd".repeat(32);
    let message = outbound_message(&outbound_id, 2, Some("queued"));
    store.insert_outbound_message(&message, &outbound_route(&outbound_id, None)).unwrap();
    assert!(store
        .begin_outbound_attempt(&OutboundAttemptRecord {
            message_id: outbound_id.clone(),
            attempt_number: 1,
            started_unix_ms: 1,
            deadline_unix_ms: i64::MAX,
            state: "sending".into(),
        })
        .unwrap());
    assert!(!store
        .track_outbound_evidence(&"ef".repeat(32), &outbound_id, "resource")
        .unwrap());
    for index in 0..20_u64 {
        assert!(store
            .track_outbound_evidence(&format!("{index:064x}"), &outbound_id, "packet")
            .unwrap());
    }
    assert!(store
        .begin_outbound_attempt(&OutboundAttemptRecord {
            message_id: outbound_id.clone(),
            attempt_number: 2,
            started_unix_ms: 2,
            deadline_unix_ms: i64::MAX,
            state: "sending".into(),
        })
        .unwrap());
    for index in 20..40_u64 {
        assert!(store
            .track_outbound_evidence(&format!("{index:064x}"), &outbound_id, "packet")
            .unwrap());
    }
    assert_eq!(store.message_delivery_evidence(&outbound_id).unwrap().len(), 32);
    let correlations: i64 = store
        .connection()
        .query_row(
            "SELECT COUNT(*) FROM outbound_evidence WHERE message_id = ?1",
            (&outbound_id,),
            |row| row.get(0),
        )
        .unwrap();
    assert_eq!(correlations, 32);
    assert!(store
        .finish_outbound_with_exact_evidence(
            &outbound_id,
            "delivered",
            "delivered: packet-receipt",
            Some("authenticated packet receipt"),
            &format!("{:064x}", 39),
            "packet",
        )
        .unwrap());
    drop(store);

    let mut store = open_store(&path).unwrap();
    let evidence = store.message_delivery_evidence(&outbound_id).unwrap();
    assert_eq!(evidence.len(), 32);
    assert!(evidence.iter().all(|item| item.kind == "packet_receipt"));
    assert_eq!(evidence.iter().filter(|item| item.state == "completed").count(), 1);
    assert_eq!(evidence.iter().filter(|item| item.state == "failed").count(), 31);
    let completed = evidence.iter().find(|item| item.state == "completed").unwrap();
    assert_eq!(completed.evidence_hash, format!("{:064x}", 39));
    assert_eq!(completed.attempt_number, Some(2));
    assert!(evidence
        .iter()
        .any(|item| item.attempt_number == Some(1) && item.state == "failed"));
    assert_eq!(completed.outcome.as_deref(), Some("authenticated packet receipt"));
    assert_eq!(
        store.outbound_terminal_detail(&outbound_id).unwrap().as_deref(),
        Some("authenticated packet receipt")
    );
}

#[test]
fn v13_marker_rejects_schema_type_or_check_collision() {
    let temp = tempfile::tempdir().unwrap();
    let path = temp.path().join("message-inspection-collision.sqlite");
    let mut store = open_store(&path).unwrap();
    store
        .connection()
        .execute(
            "DELETE FROM schema_migrations WHERE id = ?1",
            (MESSAGE_INSPECTION_MIGRATION,),
        )
        .unwrap();
    drop(store);
    let error = match open_store(&path) {
        Ok(_) => panic!("v13 collision unexpectedly opened"),
        Err(error) => error,
    };
    assert!(error.message().contains("collision"));
}

#[test]
fn v13_plain_resource_progress_survives_restart_and_packet_progress_is_rejected() {
    let temp = tempfile::tempdir().unwrap();
    let path = temp.path().join("resource-progress-v13.sqlite");
    let message_id = "12".repeat(32);
    let packet_message_id = "23".repeat(32);
    let resource_hash = "34".repeat(32);
    let packet_hash = "56".repeat(32);
    {
        let mut store = open_store(&path).unwrap();
        let mut resource_route = outbound_route(&message_id, None);
        resource_route.representation = "resource".into();
        store
            .insert_outbound_message(
                &outbound_message(&message_id, 1, Some("queued")),
                &resource_route,
            )
            .unwrap();
        store
            .begin_outbound_attempt(&OutboundAttemptRecord {
                message_id: message_id.clone(),
                attempt_number: 1,
                started_unix_ms: 1,
                deadline_unix_ms: i64::MAX,
                state: "sending".into(),
            })
            .unwrap();
        assert!(store
            .track_outbound_evidence(&resource_hash, &message_id, "resource")
            .unwrap());
        assert!(store.update_delivery_evidence_progress(&resource_hash, 25, 100).unwrap());
        store
            .insert_outbound_message(
                &outbound_message(&packet_message_id, 2, Some("queued")),
                &outbound_route(&packet_message_id, None),
            )
            .unwrap();
        store
            .begin_outbound_attempt(&OutboundAttemptRecord {
                message_id: packet_message_id.clone(),
                attempt_number: 1,
                started_unix_ms: 1,
                deadline_unix_ms: i64::MAX,
                state: "sending".into(),
            })
            .unwrap();
        assert!(store
            .track_outbound_evidence(&packet_hash, &packet_message_id, "packet")
            .unwrap());
        assert!(!store.update_delivery_evidence_progress(&packet_hash, 1, 2).unwrap());
    }

    let mut store = open_store(&path).unwrap();
    let evidence = store.message_delivery_evidence(&message_id).unwrap();
    let resource = evidence.iter().find(|item| item.evidence_hash == resource_hash).unwrap();
    assert_eq!(resource.transferred_bytes, Some(25));
    assert_eq!(resource.total_bytes, Some(100));
    assert_eq!(resource.progress, Some(25));
    let packet = store
        .message_delivery_evidence(&packet_message_id)
        .unwrap()
        .into_iter()
        .find(|item| item.evidence_hash == packet_hash)
        .unwrap();
    assert_eq!(packet.transferred_bytes, None);
    assert_eq!(packet.total_bytes, None);
    assert_eq!(packet.progress, None);
}

#[test]
fn v13_terminal_evidence_retention_is_inclusive_and_durable() {
    let temp = tempfile::tempdir().unwrap();
    let path = temp.path().join("evidence-retention-v13.sqlite");
    let message_id = "78".repeat(32);
    let now = styrene_storage::store::unix_time_secs();
    let cutoff = now - DELIVERY_EVIDENCE_RETENTION_SECS;
    let hashes = ["90".repeat(32), "91".repeat(32), "92".repeat(32), "93".repeat(32)];
    {
        let mut store = open_store(&path).unwrap();
        store
            .insert_outbound_message(
                &outbound_message(&message_id, 1, Some("queued")),
                &outbound_route(&message_id, None),
            )
            .unwrap();
        store
            .begin_outbound_attempt(&OutboundAttemptRecord {
                message_id: message_id.clone(),
                attempt_number: 1,
                started_unix_ms: 1,
                deadline_unix_ms: i64::MAX,
                state: "sending".into(),
            })
            .unwrap();
        for hash in &hashes {
            assert!(store.track_outbound_evidence(&hash, &message_id, "packet").unwrap());
        }
        for (hash, terminal_at) in [
            (&hashes[0], Some(cutoff - 1)),
            (&hashes[1], Some(cutoff)),
            (&hashes[2], Some(cutoff + 1)),
            (&hashes[3], None),
        ] {
            store
                .connection()
                .execute(
                    "UPDATE message_delivery_evidence
                     SET state = CASE WHEN ?2 IS NULL THEN 'tracked' ELSE 'failed' END,
                         observed_at = COALESCE(?2, observed_at), terminal_at = ?2
                     WHERE evidence_hash = ?1",
                    (&hash, terminal_at,),
                )
                .unwrap();
        }
        assert_eq!(store.prune_delivery_evidence(now).unwrap(), 2);
    }

    let connection = rusqlite::Connection::open(&path).unwrap();
    let remaining: Vec<String> = connection
        .prepare(
            "SELECT evidence_hash FROM message_delivery_evidence
             WHERE message_id = ?1 ORDER BY evidence_hash",
        )
        .unwrap()
        .query_map((&message_id,), |row| row.get(0))
        .unwrap()
        .collect::<rusqlite::Result<_>>()
        .unwrap();
    assert_eq!(remaining, vec![hashes[2].clone(), hashes[3].clone()]);
    let correlations: Vec<String> = connection
        .prepare(
            "SELECT evidence_id FROM outbound_evidence
             WHERE message_id = ?1 ORDER BY evidence_id",
        )
        .unwrap()
        .query_map((&message_id,), |row| row.get(0))
        .unwrap()
        .collect::<rusqlite::Result<_>>()
        .unwrap();
    assert_eq!(correlations, vec![hashes[2].clone(), hashes[3].clone()]);
}


#[test]
fn v13_schema_attestation_rejects_a_weakened_evidence_check() {
    let mut store = MessagesStore::in_memory().unwrap();
    store
        .connection()
        .execute_batch(
            "DROP INDEX idx_message_delivery_evidence_terminal;
             DROP INDEX idx_message_delivery_evidence_message;
             DROP TABLE message_delivery_evidence;",
        )
        .unwrap();
    let weakened = DELIVERY_EVIDENCE_TABLE_SQL.replace(
        "CHECK((representation = 'packet' AND transferred_bytes IS NULL AND total_bytes IS NULL AND progress IS NULL) OR (representation = 'resource' AND ((transferred_bytes IS NULL AND total_bytes IS NULL AND progress IS NULL) OR (transferred_bytes IS NOT NULL AND total_bytes IS NOT NULL AND progress IS NOT NULL AND transferred_bytes <= total_bytes))))",
        "CHECK(1)",
    );
    assert_ne!(weakened, DELIVERY_EVIDENCE_TABLE_SQL);
    store.connection().execute_batch(&weakened).unwrap();
    store.connection().execute_batch(DELIVERY_EVIDENCE_INDEX_SQL).unwrap();
    store.connection().execute_batch(DELIVERY_EVIDENCE_RETENTION_INDEX_SQL).unwrap();
    assert!(!store.message_inspection_schema_is_valid().unwrap());
}

#[test]
fn conversation_pages_use_complete_order_and_mutations_stale_cursor() {
    let mut store = MessagesStore::in_memory().unwrap();
    let peers = [
        "11111111111111111111111111111111",
        "22222222222222222222222222222222",
        "33333333333333333333333333333333",
    ];
    for (index, peer) in peers.iter().enumerate() {
        store.insert_message(&peer_message(&format!("m{index}"), peer, 10, true)).unwrap();
    }
    store.set_conversation_pinned(peers[1], true).unwrap();
    let first = store.conversation_page(false, 1, None).unwrap();
    assert_eq!(first.items[0].peer_hash, peers[1]);
    let cursor = first.next_cursor.unwrap();
    let remaining = store.conversation_page(false, 10, Some(cursor)).unwrap();
    assert_eq!(
        remaining.items.into_iter().map(|item| item.peer_hash).collect::<Vec<_>>(),
        vec![peers[2].to_string(), peers[0].to_string()]
    );

    let cursor = store.conversation_page(true, 1, None).unwrap().next_cursor.unwrap();
    assert!(matches!(store.conversation_page(false, 1, Some(cursor)), Err(PageError::InvalidCursor(_))));
    store.mark_read(peers[0]).unwrap();
    assert!(matches!(store.conversation_page(true, 1, Some(cursor)), Err(PageError::CursorStale)));
    let cursor = store.conversation_page(false, 1, None).unwrap().next_cursor.unwrap();
    store.set_conversation_pinned(peers[0], true).unwrap();
    assert!(matches!(store.conversation_page(false, 1, Some(cursor)), Err(PageError::CursorStale)));
    let cursor = store.conversation_page(false, 1, None).unwrap().next_cursor.unwrap();
    store.delete_message("m2").unwrap();
    assert!(matches!(store.conversation_page(false, 1, Some(cursor)), Err(PageError::CursorStale)));
}

fn collect_message_pages(store: &mut MessagesStore, peer: &str, limit: usize) -> Vec<String> {
    let mut cursor = None;
    let mut ids = Vec::new();
    loop {
        let page = store.message_projection_page_for_peer(peer, limit, cursor).unwrap();
        ids.extend(page.items.into_iter().map(|item| item.message.id));
        cursor = page.next_cursor;
        if cursor.is_none() {
            return ids;
        }
    }
}

#[test]
fn message_pages_complete_equal_timestamps_and_exclude_later_inserts() {
    let mut store = MessagesStore::in_memory().unwrap();
    let peer = "aaaaaaaaaaaaaaaaaaaaaaaaaaaaaaaa";
    for id in ["a", "b", "c", "d", "e", "f"] {
        store.insert_message(&peer_message(id, peer, 10, true)).unwrap();
    }
    let first = store.message_projection_page_for_peer(peer, 2, None).unwrap();
    assert_eq!(first.items.iter().map(|item| item.message.id.as_str()).collect::<Vec<_>>(), vec!["f", "e"]);
    store.insert_message(&peer_message("newer", peer, 20, true)).unwrap();
    store.insert_message(&peer_message("backdated", peer, 1, true)).unwrap();
    let second = store.message_projection_page_for_peer(peer, 256, first.next_cursor).unwrap();
    assert_eq!(second.items.into_iter().map(|item| item.message.id).collect::<Vec<_>>(), vec!["d", "c", "b", "a"]);
    assert_eq!(collect_message_pages(&mut store, peer, 2).len(), 8);
}

#[test]
fn message_cursor_survives_restart_and_deleted_boundary() {
    let directory = tempfile::tempdir().unwrap();
    let path = directory.path().join("messages.db");
    let peer = "bbbbbbbbbbbbbbbbbbbbbbbbbbbbbbbb";
    let cursor = {
        let mut store = open_store(&path).unwrap();
        for id in ["a", "b", "c", "d"] {
            store.insert_message(&peer_message(id, peer, 5, false)).unwrap();
        }
        let page = store.message_projection_page_for_peer(peer, 2, None).unwrap();
        assert_eq!(page.items[1].message.id, "c");
        store.delete_message("c").unwrap();
        page.next_cursor.unwrap()
    };
    let mut store = open_store(&path).unwrap();
    let page = store.message_projection_page_for_peer(peer, 10, Some(cursor)).unwrap();
    assert_eq!(page.items.into_iter().map(|item| item.message.id).collect::<Vec<_>>(), vec!["b", "a"]);
    assert!(matches!(
        store.message_projection_page_for_peer("cccccccccccccccccccccccccccccccc", 10, Some(cursor)),
        Err(PageError::InvalidCursor(_))
    ));
    let mut other = MessagesStore::in_memory().unwrap();
    assert!(matches!(other.message_projection_page_for_peer(peer, 10, Some(cursor)), Err(PageError::InvalidCursor(_))));
}

#[test]
fn marker_present_v8_repairs_post_v6_v7_triggers_and_pin_stales_cursor() {
    let directory = tempfile::tempdir().unwrap();
    let path = directory.path().join("messages.db");
    let peers = ["11111111111111111111111111111111", "22222222222222222222222222222222"];
    let cursor = {
        let mut store = open_store(&path).unwrap();
        for (index, peer) in peers.iter().enumerate() {
            store.insert_message(&peer_message(&format!("repair-{index}"), peer, 10, true)).unwrap();
        }
        let cursor = store.conversation_page(false, 1, None).unwrap().next_cursor.unwrap();
        store
            .connection()
            .execute(
                "DELETE FROM schema_migrations WHERE id IN (
                     '2026-08-23-conversation-state-drafts-v6',
                     '2026-08-23-conversation-schema-hardening-v7')",
                [],
            )
            .unwrap();
        store
            .connection()
            .execute_batch(
                "DROP TRIGGER messages_page_key_after_insert;
                 DROP INDEX idx_message_page_peer_order;",
            )
            .unwrap();
        assert!(store
            .connection()
            .query_row(
                "SELECT EXISTS(SELECT 1 FROM schema_migrations
                 WHERE id = '2026-08-23-stable-message-pagination-v8')",
                [],
                |row| row.get::<_, bool>(0),
            )
            .unwrap());
        cursor
    };
    let mut store = open_store(&path).unwrap();
    store.insert_message(&peer_message("repair-new", peers[0], 11, true)).unwrap();
    assert_eq!(
        store
            .connection()
            .query_row(
                "SELECT COUNT(*) FROM message_page_keys WHERE message_id = 'repair-new'",
                [],
                |row| row.get::<_, i64>(0),
            )
            .unwrap(),
        1
    );
    let invariant_count: i64 = store
        .connection()
        .query_row(
            "SELECT COUNT(*) FROM sqlite_schema WHERE type = 'trigger' AND name IN (
                 'messages_page_key_after_insert',
                 'messages_page_membership_immutable',
                 'message_page_keys_immutable',
                 'message_page_keys_delete_guard',
                 'message_page_metadata_secret_immutable',
                 'messages_conversation_epoch_after_delete',
                 'messages_conversation_epoch_after_read',
                 'conversation_state_epoch_after_insert',
                 'conversation_state_epoch_after_pin',
                 'conversation_state_epoch_after_delete')",
            [],
            |row| row.get(0),
        )
        .unwrap();
    assert_eq!(invariant_count, 10);
    let index_count: i64 = store
        .connection()
        .query_row(
            "SELECT COUNT(*) FROM sqlite_schema WHERE type = 'index' AND name IN (
                 'idx_message_page_peer_order',
                 'idx_message_page_snapshot_conversation')",
            [],
            |row| row.get(0),
        )
        .unwrap();
    assert_eq!(index_count, 2);
    store.set_conversation_pinned(peers[0], true).unwrap();
    assert!(matches!(store.conversation_page(false, 1, Some(cursor)), Err(PageError::CursorStale)));
}

#[test]
fn old_v8_metadata_upgrades_secret_transactionally_and_survives_restart() {
    let directory = tempfile::tempdir().unwrap();
    let path = directory.path().join("messages.db");
    let peer = "aaaaaaaaaaaaaaaaaaaaaaaaaaaaaaaa";
    let store_id_of = |store: &MessagesStore| -> Vec<u8> {
        store
            .connection()
            .query_row("SELECT store_id FROM message_page_metadata WHERE singleton = 1", [], |row| row.get(0))
            .unwrap()
    };
    let old_store_id = {
        let mut store = open_store(&path).unwrap();
        store.insert_message(&peer_message("a", peer, 1, true)).unwrap();
        store.insert_message(&peer_message("b", peer, 2, true)).unwrap();
        let store_id = store_id_of(&store);
        store
            .connection()
            .execute_batch(
                "DROP TRIGGER message_page_metadata_secret_immutable;
                 ALTER TABLE message_page_metadata RENAME TO message_page_metadata_v8_auth;
                 CREATE TABLE message_page_metadata (
                     singleton INTEGER PRIMARY KEY CHECK(singleton = 1),
                     store_id BLOB NOT NULL UNIQUE CHECK(length(store_id) = 16),
                     conversation_epoch INTEGER NOT NULL DEFAULT 0 CHECK(conversation_epoch >= 0)
                 );
                 INSERT INTO message_page_metadata
                     SELECT singleton, store_id, conversation_epoch
                     FROM message_page_metadata_v8_auth;
                 DROP TABLE message_page_metadata_v8_auth;",
            )
            .unwrap();
        store_id
    };
    let cursor = {
        let mut store = open_store(&path).unwrap();
        assert_eq!(store_id_of(&store), old_store_id);
        store.message_projection_page_for_peer(peer, 1, None).unwrap().next_cursor.unwrap()
    };
    let mut store = open_store(&path).unwrap();
    assert_eq!(store.message_projection_page_for_peer(peer, 1, Some(cursor)).unwrap().items.len(), 1);
}
