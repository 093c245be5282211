use sha2::Digest;
use styrene_storage::attachment_store::{read_chunk, validate_attachments, ChunkRead};
use styrene_storage::conversations::search_pattern;
use styrene_storage::directory_store::{grants_of, packet_expires_at, propagation_packet_id};
use styrene_storage::error::StoreError;
use styrene_storage::lifecycle::{delete_is_blocked, delivery_progress, is_terminal_state};
use styrene_storage::limits::{
    canonical_peer_bytes, escape_like, validate_evidence, validate_search, validate_ticket, validated_message_limit,
    validated_page_limit, MAX_ATTACHMENT_BLOB_BYTES, MAX_CONTACT_ALIAS_BYTES, MAX_DRAFT_BYTES,
    MAX_MESSAGE_PROJECTION_BYTES,
};
use styrene_storage::message_store::{charge_projection_budget, message_projection_cost};
use styrene_storage::migration::merge_contacts;
use styrene_storage::records::{
    AnnounceRecord, AttachmentBlobInput, ContactRecord, LxmfStampPolicy, LxmfTicketRecord, MessageRecord,
    MutationDisposition, OutboundAttemptRecord, OutboundRouteRecord, RbacRosterRow,
};
use styrene_storage::schema_sql::{normalize_local_schema_sql, normalize_schema_sql};
use styrene_storage::store::{unix_now, unix_time_secs, MessagesStore};
use styrene_storage::text_order::{sorted_unique, text_less};

fn message(id: &str, peer: &str, timestamp: i64, direction: &str) -> MessageRecord {
    MessageRecord {
        id: id.into(),
        source: if direction == "in" { peer.into() } else { "local".into() },
        destination: if direction == "in" { "local".into() } else { peer.into() },
        title: String::new(),
        content: format!("content of {id}"),
        timestamp,
        direction: direction.into(),
        fields: None,
        receipt_status: None,
        read: false,
    }
}

fn route(id: &str, state: &str, method: &str) -> OutboundRouteRecord {
    OutboundRouteRecord {
        message_id: id.into(),
        requested_method: method.into(),
        actual_method: method.into(),
        representation: "packet".into(),
        fallback_reason: None,
        correlation_id: format!("corr-{id}"),
        retry_of: None,
        deadline_unix_ms: i64::MAX,
        state: state.into(),
        attempt_count: 0,
    }
}

fn attachment(name: &str, data: Vec<u8>) -> AttachmentBlobInput {
    AttachmentBlobInput { wire_name: name.into(), data, content_type: None, source: "local".into() }
}

#[test]
fn search_pattern_escapes_wildcards_and_escape_character() {
    assert_eq!(search_pattern("100%_\\x"), "%100\\%\\_\\\\x%");
    assert_eq!(search_pattern("plain"), "%plain%");
    assert_eq!(escape_like("a_b").into_iter().collect::<String>(), "a\\_b");
}

#[test]
fn search_finds_wildcards_literally() {
    let mut store = MessagesStore::in_memory().unwrap();
    let mut literal = message("literal", "peer", 2, "in");
    literal.content = "100%_ done".into();
    let mut other = message("other", "peer", 1, "in");
    other.content = "100 and done".into();
    store.insert_message(&literal).unwrap();
    store.insert_message(&other).unwrap();
    let found = store.search_messages("%_", None, 10).unwrap();
    assert_eq!(found.len(), 1);
    assert_eq!(found[0].id, "literal");
    let outcome = store.search_message_projection_outcome("done", None, 1).unwrap();
    assert!(outcome.truncated);
    assert_eq!(outcome.items.len(), 1);
    assert_eq!(outcome.matched_count, 2);
}

#[test]
fn search_rejects_empty_query_and_bad_limits() {
    let mut store = MessagesStore::in_memory().unwrap();
    assert!(matches!(store.search_messages("", None, 10), Err(StoreError::InvalidParameter(_))));
    assert!(matches!(store.search_messages("x", None, 0), Err(StoreError::InvalidParameter(_))));
    assert!(matches!(store.search_messages("x", None, 257), Err(StoreError::InvalidParameter(_))));
    assert!(validate_search(&"q".repeat(1024), 256).is_ok());
    assert!(validate_search(&"q".repeat(1025), 256).is_err());
}

#[test]
fn delivery_progress_is_a_capped_percentage() {
    assert_eq!(delivery_progress(0, 0), 0);
    assert_eq!(delivery_progress(5, 0), 0);
    assert_eq!(delivery_progress(1, 3), 33);
    assert_eq!(delivery_progress(3, 3), 100);
    assert_eq!(delivery_progress(9, 3), 100);
    assert_eq!(delivery_progress(i64::MAX, i64::MAX), 100);
}

#[test]
fn ended_deliveries_never_block_deletion() {
    for state in ["delivered", "failed", "cancelled", "expired", "rejected"] {
        assert!(is_terminal_state(state));
        assert!(!delete_is_blocked(&Some(state.into()), &Some("direct".into())));
    }
    assert!(delete_is_blocked(&Some("sending".into()), &Some("direct".into())));
    assert!(delete_is_blocked(&Some("sent".into()), &Some("direct".into())));
    assert!(!delete_is_blocked(&Some("sent".into()), &Some("propagated".into())));
    assert!(!delete_is_blocked(&None, &None));
}

#[test]
fn delete_message_outcome_reports_conflict_then_applies() {
    let mut store = MessagesStore::in_memory().unwrap();
    let outbound = message("out-1", "peer", 1, "out");
    store.insert_outbound_message(&outbound, &route("out-1", "queued", "direct")).unwrap();
    let blocked = store.delete_message_outcome("out-1").unwrap();
    assert_eq!(blocked.disposition, MutationDisposition::TerminalConflict);
    assert_eq!(blocked.terminal_state.as_deref(), Some("queued"));
    assert!(store.finish_outbound("out-1", "failed", "failed").unwrap());
    let deleted = store.delete_message_outcome("out-1").unwrap();
    assert_eq!(deleted.disposition, MutationDisposition::Applied);
    assert_eq!(deleted.affected_count, 1);
    let again = store.delete_message_outcome("out-1").unwrap();
    assert_eq!(again.disposition, MutationDisposition::NotFound);
}

#[test]
fn propagated_sent_message_can_be_deleted() {
    let mut store = MessagesStore::in_memory().unwrap();
    let outbound = message("out-p", "peer", 1, "out");
    store.insert_outbound_message(&outbound, &route("out-p", "sent", "propagated")).unwrap();
    assert!(store.delete_message("out-p").unwrap());
}

#[test]
fn packet_ids_are_the_hex_of_half_the_digest() {
    let id = propagation_packet_id(b"packet");
    let digest = sha2::Sha256::digest(b"packet");
    assert_eq!(id, hex::encode(&digest[..16]));
    assert_eq!(id.len(), 32);
    assert_eq!(propagation_packet_id(b"packet"), id);
    assert_ne!(propagation_packet_id(b"other"), id);
}

#[test]
fn packet_expiry_saturates() {
    assert_eq!(packet_expires_at(10, 5), 15);
    assert_eq!(packet_expires_at(10, u64::MAX), i64::MAX);
    assert_eq!(packet_expires_at(i64::MAX - 1, 5), i64::MAX);
}

#[test]
fn legacy_roster_grants_are_trimmed_and_json_grants_parse() {
    assert_eq!(grants_of(""), Vec::<String>::new());
    assert_eq!(grants_of(" read , write,admin "), vec!["read", "write", "admin"]);
    assert_eq!(grants_of("a,,b"), vec!["a", "", "b"]);
    assert_eq!(grants_of(r#"["x", "y z"]"#), vec!["x", "y z"]);
    assert_eq!(grants_of("[not json"), Vec::<String>::new());
}

#[test]
fn roster_entries_round_trip_with_lowercase_identity() {
    let mut store = MessagesStore::in_memory().unwrap();
    let entry = RbacRosterRow {
        identity_hash: "ABCDEF".into(),
        role: "operator".into(),
        label: "ops".into(),
        grants: vec!["read".into(), "a,b".into()],
    };
    store.upsert_rbac_entry(&entry).unwrap();
    let roster = store.load_rbac_roster().unwrap();
    assert_eq!(roster.len(), 1);
    assert_eq!(roster[0].identity_hash, "abcdef");
    assert_eq!(roster[0].grants, vec!["read".to_string(), "a,b".to_string()]);
    assert!(store.remove_rbac_entry("AbCdEf").unwrap());
    assert!(store.load_rbac_roster().unwrap().is_empty());
}

#[test]
fn announce_capabilities_round_trip_and_learn_stamp_cost() {
    let mut store = MessagesStore::in_memory().unwrap();
    let announce = AnnounceRecord {
        id: "a1".into(),
        peer: "peer".into(),
        timestamp: 50,
        name: Some("node".into()),
        name_source: None,
        first_seen: 40,
        seen_count: 3,
        app_data_hex: None,
        capabilities: vec!["chat".into(), "files".into()],
        rssi: Some(rusqlite::types::Value::Real(-70.5)),
        snr: None,
        q: Some(rusqlite::types::Value::Real(0.25)),
        stamp_cost: Some(9),
        stamp_cost_flexibility: None,
        peering_cost: None,
    };
    store.insert_announce(&announce).unwrap();
    let listed = store.list_announces(10, None, None).unwrap();
    assert_eq!(listed, vec![announce]);
    assert_eq!(store.peer_stamp_cost("peer").unwrap(), Some(9));
    let mut too_costly = listed[0].clone();
    too_costly.id = "a2".into();
    too_costly.stamp_cost = Some(255);
    assert!(store.insert_announce(&too_costly).is_err());
}

#[test]
fn message_fields_are_stored_as_compact_json() {
    let mut store = MessagesStore::in_memory().unwrap();
    let mut record = message("fields", "peer", 1, "in");
    record.fields = Some("{ \"a\" : [1, 2] }".into());
    store.insert_message(&record).unwrap();
    let loaded = store.get_message("fields").unwrap().unwrap();
    assert_eq!(loaded.fields.as_deref(), Some("{\"a\":[1,2]}"));
}

#[test]
fn first_delivery_only_is_accepted() {
    let mut store = MessagesStore::in_memory().unwrap();
    let record = message("once", "peer", 1, "in");
    assert!(store.insert_message_if_absent(&record).unwrap());
    assert!(!store.insert_message_if_absent(&record).unwrap());
}

#[test]
fn duplicate_outbound_message_is_a_database_error() {
    let mut store = MessagesStore::in_memory().unwrap();
    let outbound = message("dup", "peer", 1, "out");
    store.insert_outbound_message(&outbound, &route("dup", "queued", "direct")).unwrap();
    let error = store.insert_outbound_message(&outbound, &route("dup", "queued", "direct")).unwrap_err();
    assert!(matches!(error, StoreError::Database(_)));
    assert!(!error.message().is_empty());
}

#[test]
fn draft_and_contact_limits_are_invalid_parameters() {
    let mut store = MessagesStore::in_memory().unwrap();
    let peer = "aa".repeat(16);
    let error = store.set_draft(&peer, &"d".repeat(MAX_DRAFT_BYTES + 1)).unwrap_err();
    assert!(matches!(error, StoreError::InvalidParameter(_)));
    let draft = store.set_draft(&peer, &"d".repeat(MAX_DRAFT_BYTES)).unwrap();
    assert_eq!(draft.content.len(), MAX_DRAFT_BYTES);
    assert_eq!(draft.peer_hash, peer);
    let alias = "a".repeat(MAX_CONTACT_ALIAS_BYTES + 1);
    assert!(matches!(store.set_contact("peer", Some(&alias), None), Err(StoreError::InvalidParameter(_))));
    let created = store.set_contact_outcome("peer", Some("alias"), None).unwrap();
    assert_eq!(created.disposition, MutationDisposition::Created);
    let unchanged = store.set_contact_outcome("peer", Some("alias"), None).unwrap();
    assert_eq!(unchanged.disposition, MutationDisposition::Unchanged);
    assert_eq!(unchanged.contact, created.contact);
}

#[test]
fn malformed_draft_column_is_an_error_with_a_message() {
    let mut store = MessagesStore::in_memory().unwrap();
    store.connection().pragma_update(None, "ignore_check_constraints", "ON").unwrap();
    store
        .connection()
        .execute("INSERT INTO conversation_drafts (peer_hash, content, updated_at) VALUES ('p', X'6869', 1)", [])
        .unwrap();
    let error = store.draft("p").unwrap_err();
    assert!(error.message().contains("must be SQLite TEXT"));
}

#[test]
fn missing_stamp_policy_row_is_no_rows() {
    let mut store = MessagesStore::in_memory().unwrap();
    store.connection().execute("DELETE FROM lxmf_stamp_policy", []).unwrap();
    assert!(matches!(store.lxmf_stamp_policy(), Err(StoreError::QueryReturnedNoRows)));
}

#[test]
fn stamp_policy_and_tickets_validate_their_bounds() {
    let mut store = MessagesStore::in_memory().unwrap();
    assert!(matches!(
        store.set_lxmf_stamp_policy(LxmfStampPolicy { target_cost: 255, flexibility: 0 }),
        Err(StoreError::InvalidParameter(_))
    ));
    let ticket = LxmfTicketRecord { peer: "p".into(), ticket: vec![1; 15], expires_at: 10, direction: "issued".into() };
    assert!(validate_ticket(&ticket).is_err());
    let ticket = LxmfTicketRecord { ticket: vec![1; 16], ..ticket };
    assert!(validate_ticket(&ticket).is_ok());
    let wrong_direction = LxmfTicketRecord { direction: "sideways".into(), ..ticket.clone() };
    assert!(store.upsert_lxmf_ticket(&wrong_direction).is_err());
    store.upsert_lxmf_ticket(&ticket).unwrap();
    assert_eq!(store.issued_lxmf_tickets("p", 0).unwrap(), vec![vec![1u8; 16]]);
}

#[test]
fn evidence_ids_must_be_lowercase_hex_hashes() {
    assert!(validate_evidence(&"ab".repeat(32), "packet").is_ok());
    assert!(validate_evidence(&"AB".repeat(32), "packet").is_err());
    assert!(validate_evidence(&"ab".repeat(31), "resource").is_err());
    assert!(validate_evidence(&"ab".repeat(32), "link").is_err());
}

#[test]
fn evidence_progress_and_exact_finish() {
    let mut store = MessagesStore::in_memory().unwrap();
    let outbound = message("res", "peer", 1, "out");
    let mut resource_route = route("res", "queued", "direct");
    resource_route.representation = "resource".into();
    store.insert_outbound_message(&outbound, &resource_route).unwrap();
    store
        .begin_outbound_attempt(&OutboundAttemptRecord {
            message_id: "res".into(),
            attempt_number: 1,
            started_unix_ms: 1_000,
            deadline_unix_ms: i64::MAX,
            state: "sending".into(),
        })
        .unwrap();
    let hash = "cd".repeat(32);
    assert!(store.track_outbound_evidence(&hash, "res", "resource").unwrap());
    assert!(store.update_delivery_evidence_progress(&hash, 1, 4).unwrap());
    assert!(matches!(store.update_delivery_evidence_progress(&hash, 5, 4), Err(StoreError::InvalidParameter(_))));
    let evidence = store.message_delivery_evidence("res").unwrap();
    assert_eq!(evidence[0].progress, Some(25));
    assert!(!store.finish_outbound_with_exact_evidence("res", "delivered", "delivered", None, &hash, "link").unwrap());
    assert!(store.finish_outbound_with_exact_evidence("res", "delivered", "delivered", None, &hash, "resource").unwrap());
    let evidence = store.message_delivery_evidence("res").unwrap();
    assert_eq!(evidence[0].state, "completed");
    assert_eq!(evidence[0].progress, Some(100));
    assert_eq!(store.outbound_route("res").unwrap().unwrap().state, "delivered");
}

#[test]
fn chunks_stop_at_the_blob_and_corrupt_blobs_yield_nothing() {
    let bytes = b"0123456789".to_vec();
    let digest: [u8; 32] = sha2::Sha256::digest(&bytes).into();
    match read_chunk(&digest, 10, &bytes, 8, 5) {
        ChunkRead::Bytes { data, end, done } => {
            assert_eq!(data, b"89".to_vec());
            assert_eq!(end, 10);
            assert!(done);
        },
        _ => panic!("expected bytes"),
    }
    match read_chunk(&digest, 10, &bytes, 2, 3) {
        ChunkRead::Bytes { data, end, done } => {
            assert_eq!(data, b"234".to_vec());
            assert_eq!(end, 5);
            assert!(!done);
        },
        _ => panic!("expected bytes"),
    }
    assert!(matches!(read_chunk(&digest, 10, &bytes, 11, 3), ChunkRead::OutOfRange));
    assert!(matches!(read_chunk(&digest, 9, &bytes, 0, 3), ChunkRead::Corrupt));
    assert!(matches!(read_chunk(&[0u8; 32], 10, &bytes, 0, 3), ChunkRead::Corrupt));
}

#[test]
fn attachment_sets_are_bounded() {
    let nine: Vec<AttachmentBlobInput> = (0..9).map(|i| attachment(&format!("f{i}"), vec![i as u8])).collect();
    assert!(validate_attachments(&nine).is_err());
    let big = vec![attachment("a", vec![0; MAX_ATTACHMENT_BLOB_BYTES]), attachment("b", vec![1])];
    assert!(validate_attachments(&big).is_err());
    assert!(validate_attachments(&[attachment("", vec![1])]).is_err());
    let bad_source = AttachmentBlobInput { source: "web".into(), ..attachment("x", vec![1]) };
    assert!(validate_attachments(&[bad_source]).is_err());
    assert!(validate_attachments(&[attachment("ok", vec![1, 2, 3])]).is_ok());
}

#[test]
fn attachment_chunks_read_back_what_was_stored() {
    let mut store = MessagesStore::in_memory().unwrap();
    let outbound = message("with-file", "peer", 1, "out");
    store
        .insert_outbound_message_with_attachments(
            &outbound,
            &route("with-file", "queued", "direct"),
            None,
            &[attachment("f", b"hello world".to_vec())],
            11,
        )
        .unwrap();
    let chunk = store.query_attachment_chunk("with-file", 0, 6, 100).unwrap().unwrap();
    assert_eq!(chunk.data, b"world".to_vec());
    assert_eq!(chunk.next_offset, 11);
    assert!(chunk.done);
    assert!(matches!(store.query_attachment_chunk("with-file", 8, 0, 1), Err(StoreError::InvalidParameter(_))));
    assert_eq!(store.attachment_blob_usage().unwrap(), (1, 11));
}

#[test]
fn projection_budget_is_charged_exactly() {
    let mut used = 10usize;
    charge_projection_budget(&mut used, 5).unwrap();
    assert_eq!(used, 15);
    let mut full = MAX_MESSAGE_PROJECTION_BYTES;
    assert!(charge_projection_budget(&mut full, 1).is_err());
    let mut near = usize::MAX;
    assert!(charge_projection_budget(&mut near, 1).is_err());
    let record = message("ab", "peer", 1, "in");
    assert_eq!(message_projection_cost(&record), 4096 + 2 + 4 + 5 + 0 + 13 + 2);
}

#[test]
fn pruned_ids_come_back_sorted_and_unique() {
    let sorted = sorted_unique(vec!["b".into(), "a".into(), "b".into(), "ab".into()]);
    assert_eq!(sorted, vec!["a", "ab", "b"]);
    assert!(text_less("a", "ab"));
    assert!(!text_less("b", "ab"));
    assert!(!text_less("x", "x"));
    let mut store = MessagesStore::in_memory().unwrap();
    for (id, ts) in [("m3", 1), ("m1", 2), ("m2", 3)] {
        store.insert_message(&message(id, "peer", ts, "out")).unwrap();
    }
    let pruned = store.prune_outbound_messages(2, " TERMINAL_FIRST ").unwrap();
    assert_eq!(pruned, vec!["m1", "m3"]);
    assert!(store.prune_outbound_messages(0, "oldest").unwrap().is_empty());
}

#[test]
fn merged_contacts_keep_the_earliest_creation_and_latest_update() {
    let contacts = vec![
        ContactRecord { peer_hash: "aa".into(), alias: Some("old".into()), notes: None, created_at: 5, updated_at: 10 },
        ContactRecord { peer_hash: "aa".into(), alias: Some("new".into()), notes: None, created_at: 3, updated_at: 20 },
        ContactRecord { peer_hash: "bb".into(), alias: None, notes: None, created_at: 1, updated_at: 1 },
    ];
    let merged = merge_contacts(&contacts);
    assert_eq!(merged.len(), 2);
    let aa = merged.iter().find(|c| c.peer_hash == "aa").unwrap();
    assert_eq!(aa.created_at, 3);
    assert_eq!(aa.updated_at, 20);
}

#[test]
fn schema_sql_normal_forms() {
    assert_eq!(normalize_local_schema_sql("CREATE  TABLE t (\n a INT )"), "CREATE TABLE t( a INT )");
    assert_eq!(normalize_schema_sql("CREATE TABLE \"T\" (A TEXT);"), normalize_schema_sql("create table t (a text)"));
}

#[test]
fn limits_and_peer_hashes() {
    assert_eq!(validated_message_limit(256).unwrap(), 256);
    assert!(validated_message_limit(257).is_err());
    assert_eq!(validated_page_limit(1).unwrap(), 1);
    assert!(validated_page_limit(0).is_err());
    assert_eq!(canonical_peer_bytes(&"0f".repeat(16)).unwrap(), [0x0f; 16]);
    assert!(canonical_peer_bytes(&"0F".repeat(16)).is_err());
    assert!(unix_time_secs() > 0);
    assert!(unix_now() > 0);
}

#[test]
fn mark_read_and_flags_on_missing_conversations_are_not_found() {
    let mut store = MessagesStore::in_memory().unwrap();
    assert_eq!(store.mark_read_outcome("ghost").unwrap().disposition, MutationDisposition::NotFound);
    assert_eq!(
        store.set_conversation_flag_outcome("ghost", "pinned", true).unwrap().disposition,
        MutationDisposition::NotFound
    );
    store.insert_message(&message("m", "peer", 1, "in")).unwrap();
    let outcome = store.mark_read_outcome("peer").unwrap();
    assert_eq!(outcome.disposition, MutationDisposition::Applied);
    assert_eq!(outcome.affected_count, 1);
    assert_eq!(store.mark_read_outcome("peer").unwrap().disposition, MutationDisposition::Unchanged);
    assert!(store.set_conversation_flag_outcome("peer", "starred", true).is_err());
}
