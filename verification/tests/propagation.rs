use sha2::Digest;
use styrene_storage::error::StoreError;
use styrene_storage::propagation::{
    StandardPropagationAttemptStatus, StandardPropagationClientJob, StandardPropagationGetRequest,
    StandardPropagationGetResult, StandardPropagationIngestOutcome, StandardPropagationIngestRequest,
    StandardPropagationItem, StandardPropagationOfferRequest, StandardPropagationPeer, StandardPropagationPolicy,
    StandardPropagationProtocolStatus, StandardPropagationSelection, StandardPropagationStats,
};
use styrene_storage::propagation::{
    MAX_FAILURES, STANDARD_PROPAGATION_OBSERVATION_ATTEMPT_LIMIT, STANDARD_PROPAGATION_OBSERVATION_CHECKPOINT_LIMIT,
    STANDARD_PROPAGATION_OBSERVATION_FAILURE_LIMIT, STANDARD_PROPAGATION_OBSERVATION_PEER_LIMIT,
    TOMBSTONE_RETENTION_SECS,
};
use styrene_storage::propagation_plan::MIN_PROPAGATED_LXMF_BYTES;
use styrene_storage::propagation_schema::{
    ATTEMPTS_TABLE_SQL, ATTEMPT_ITEMS_TABLE_SQL, ATTEMPT_OPERATIONS_TABLE_SQL, CHECKPOINTS_TABLE_SQL, FAILURES_TABLE_SQL,
    INDEX_SQL, ITEMS_TABLE_SQL, PEERS_TABLE_SQL, PEER_ITEMS_TABLE_SQL, SELECTION_TABLE_SQL,
    STANDARD_PROPAGATION_CORRELATION_MIGRATION, STANDARD_PROPAGATION_MIGRATION,
    STANDARD_PROPAGATION_OBSERVATION_MIGRATION,
};
use styrene_storage::schema_sql::normalize_schema_sql;
use styrene_storage::records::{MessageRecord, OutboundRouteRecord};
use styrene_storage::store::MessagesStore;

fn open_store(path: &std::path::Path) -> Result<MessagesStore, StoreError> {
    let connection = rusqlite::Connection::open(path).map_err(StoreError::Database)?;
    MessagesStore::from_connection(connection, &[])
}

fn policy() -> StandardPropagationPolicy {
    StandardPropagationPolicy {
        queue_max_count: 4,
        queue_max_bytes: 16 * 1024 * 1024,
        expiry_secs: 30 * 24 * 60 * 60,
    }
}

fn item(destination: [u8; 16], fill: u8, now: i64) -> StandardPropagationItem {
    let mut data = vec![fill; MIN_PROPAGATED_LXMF_BYTES + 1];
    data[..16].copy_from_slice(&destination);
    let transient_id = sha2::Sha256::digest(&data).into();
    StandardPropagationItem {
        transient_id,
        destination,
        stored_size: data.len() + 32,
        lxmf_data: data,
        stamp: [fill; 32],
        stamp_value: 0,
        received_at: now,
        expires_at: now + policy().expiry_secs,
    }
}

const PROPAGATION_TABLES: [(&str, &str); 8] = [
    ("standard_lxmf_propagation_items", ITEMS_TABLE_SQL),
    ("standard_lxmf_propagation_peers", PEERS_TABLE_SQL),
    ("standard_lxmf_propagation_peer_items", PEER_ITEMS_TABLE_SQL),
    ("standard_lxmf_propagation_selection", SELECTION_TABLE_SQL),
    ("standard_lxmf_propagation_attempts", ATTEMPTS_TABLE_SQL),
    ("standard_lxmf_propagation_attempt_items", ATTEMPT_ITEMS_TABLE_SQL),
    ("standard_lxmf_propagation_checkpoints", CHECKPOINTS_TABLE_SQL),
    ("standard_lxmf_propagation_failures", FAILURES_TABLE_SQL),
];

fn marked_schema_with_replacement(table_name: &str, replacement_sql: &str) -> rusqlite::Connection {
    let connection = rusqlite::Connection::open_in_memory().unwrap();
    connection
        .execute_batch(
            "PRAGMA foreign_keys = ON;
             CREATE TABLE schema_migrations(id TEXT PRIMARY KEY, applied_at INTEGER NOT NULL);",
        )
        .unwrap();
    for (name, create_sql) in PROPAGATION_TABLES {
        connection
            .execute_batch(if name == table_name { replacement_sql } else { create_sql })
            .unwrap();
    }
    connection.execute_batch(INDEX_SQL).unwrap();
    connection
        .execute(
            "INSERT INTO schema_migrations(id, applied_at) VALUES (?1, 0)",
            (STANDARD_PROPAGATION_MIGRATION,),
        )
        .unwrap();
    connection
}

fn ingest(
    store: &mut MessagesStore,
    items: &[StandardPropagationItem],
    source_peer: Option<[u8; 16]>,
    attempt_id: Option<[u8; 16]>,
    now: i64,
    policy: StandardPropagationPolicy,
) -> Result<StandardPropagationIngestOutcome, StoreError> {
    store.standard_propagation_ingest_batch(StandardPropagationIngestRequest {
        items,
        source_peer,
        attempt: match attempt_id {
            Some(id) => StandardPropagationAttemptStatus::Complete(id),
            None => StandardPropagationAttemptStatus::Untracked,
        },
        protocol: StandardPropagationProtocolStatus::Valid,
        now,
        policy,
    })
}



#[test]
fn message_transient_relationships_are_global_idempotent_and_tombstoned() {

    let mut store = MessagesStore::in_memory().unwrap();
    let outbound_id = "31".repeat(32);
    let outbound = MessageRecord {
        id: outbound_id.clone(),
        source: "11".repeat(16),
        destination: "22".repeat(16),
        title: String::new(),
        content: "outbound".into(),
        timestamp: 1,
        direction: "out".into(),
        fields: None,
        receipt_status: Some("queued".into()),
        read: true,
    };
    let route = OutboundRouteRecord {
        message_id: outbound_id.clone(),
        requested_method: "propagated".into(),
        actual_method: "propagated".into(),
        representation: "packet".into(),
        fallback_reason: None,
        correlation_id: outbound_id.clone(),
        retry_of: None,
        deadline_unix_ms: 10_000,
        state: "queued".into(),
        attempt_count: 0,
    };
    let mut data = vec![0x44; MIN_PROPAGATED_LXMF_BYTES + 1];
    data[..16].copy_from_slice(&[0x22; 16]);
    let transient_id: [u8; 32] = sha2::Sha256::digest(&data).into();
    let job = StandardPropagationClientJob {
        message_id: outbound_id.clone(),
        transient_id: Some(transient_id),
        destination: [0x22; 16],
        canonical_wire: None,
        lxmf_data: Some(data.clone()),
        stamp: Some([0x55; 32]),
        peer: [0x66; 16],
        propagation_destination: [0x77; 16],
        stamp_cost: 0,
        peering_cost: 18,
        correlation_id: [0x88; 16],
        attempt_id: [0x88; 16],
        state: "spooled".into(),
        created_at: 1,
        updated_at: 1,
    };
    store
        .standard_propagation_upsert_peer(&StandardPropagationPeer {
            identity_hash: job.peer,
            propagation_destination: Some(job.propagation_destination),
            configured: true,
            enabled: true,
            transfer_limit_kb: None,
            sync_limit_kb: None,
            stamp_cost: Some(0),
            stamp_flexibility: Some(0),
            peering_cost: Some(0),
            observed_at: 1,
        })
        .unwrap();
    store
        .insert_outbound_message_with_attachments_and_propagation(
            &outbound,
            &route,
            None,
            &[],
            data.len(),
            Some(&job),
            None,
        )
        .unwrap();
    assert!(store.standard_propagation_client_job(&outbound_id).unwrap() == Some(job));
    assert!(store.standard_propagation_mark_upload_accepted(&outbound_id, 2).unwrap());
    assert_eq!(store.outbound_route(&outbound_id).unwrap().unwrap().state, "queued");
    store
        .connection()
        .execute(
            "UPDATE outbound_routes SET state = 'sent' WHERE message_id = ?1",
            (&outbound_id,),
        )
        .unwrap();
    assert!(store.delete_message(&outbound_id).unwrap());
    assert!(store.standard_propagation_client_job(&outbound_id).unwrap().is_none());
    assert_eq!(
        store.standard_propagation_links_for_message(&outbound_id, 64).unwrap()[0].state,
        "deleted"
    );

    let inbound_id = "41".repeat(32);
    let second_id = "42".repeat(32);
    for id in [&inbound_id, &second_id] {
        store
            .insert_message_if_absent(&MessageRecord {
                id: id.clone(),
                source: "aa".repeat(16),
                destination: "bb".repeat(16),
                title: String::new(),
                content: "inbound".into(),
                timestamp: 2,
                direction: "in".into(),
                fields: None,
                receipt_status: None,
                read: false,
            })
            .unwrap();
    }
    store.standard_propagation_link_inbound(&inbound_id, [1; 32], [3; 16], [4; 16], 2).unwrap();
    store.standard_propagation_link_inbound(&inbound_id, [2; 32], [3; 16], [4; 16], 3).unwrap();
    store.standard_propagation_link_inbound(&inbound_id, [2; 32], [3; 16], [4; 16], 4).unwrap();
    store.standard_propagation_link_inbound(&inbound_id, [1; 32], [6; 16], [7; 16], 4).unwrap();
    assert_eq!(store.standard_propagation_links_for_message(&inbound_id, 64).unwrap().len(), 3);
    assert!(
        store
            .standard_propagation_link_inbound(&second_id, [1; 32], [5; 16], [4; 16], 5)
            .is_err()
    );
    assert!(store.delete_message(&inbound_id).unwrap());
    assert!(
        store
            .standard_propagation_links_for_message(&inbound_id, 64)
            .unwrap()
            .iter()
            .all(|link| link.state == "deleted")
    );

    let opaque = item([0x90; 16], 0x91, 10);
    let opaque_id = opaque.transient_id;
    assert_eq!(
        ingest(&mut store, &[opaque], None, None, 10, policy()).unwrap(),
        StandardPropagationIngestOutcome::Accepted
    );
    assert_eq!(store.standard_propagation_message_for_transient(opaque_id).unwrap(), None);
}

#[test]
fn pending_haves_survive_restart_and_are_peer_scoped() {

    let root = tempfile::tempdir().unwrap();
    let path = root.path().join("pending-haves.db");
    let message_id = "51".repeat(32);
    let transient_id = [0x52; 32];
    let peer = [0x53; 16];
    let other_peer = [0x59; 16];
    {
        let mut store = open_store(&path).unwrap();
        store
            .insert_message_if_absent(&MessageRecord {
                id: message_id.clone(),
                source: "54".repeat(16),
                destination: "55".repeat(16),
                title: String::new(),
                content: "pending".into(),
                timestamp: 1,
                direction: "in".into(),
                fields: None,
                receipt_status: None,
                read: false,
            })
            .unwrap();
        store
            .standard_propagation_link_inbound(&message_id, transient_id, [0x56; 16], peer, 1)
            .unwrap();
        store
            .standard_propagation_link_inbound(
                &message_id,
                transient_id,
                [0x5a; 16],
                other_peer,
                1,
            )
            .unwrap();
    }
    let mut reopened = open_store(&path).unwrap();
    assert_eq!(
        reopened.standard_propagation_pending_haves(peer, 64).unwrap(),
        vec![transient_id]
    );
    assert!(reopened.standard_propagation_pending_haves([0x57; 16], 64).unwrap().is_empty());
    assert_eq!(
        reopened
            .standard_propagation_mark_haves_acknowledged(peer, &[transient_id], [0x58; 16], 2,)
            .unwrap(),
        1
    );
    assert!(reopened.standard_propagation_pending_haves(peer, 64).unwrap().is_empty());
    assert_eq!(
        reopened.standard_propagation_pending_haves(other_peer, 64).unwrap(),
        vec![transient_id]
    );
}

#[test]
fn queue_tombstone_and_acknowledgement_survive_reopens_without_legacy_writes() {
    let dir = tempfile::tempdir().unwrap();
    let path = dir.path().join("messages.db");
    let queued = item([3; 16], 3, 10);
    let id = queued.transient_id;
    {
        let mut store = open_store(&path).unwrap();
        assert_eq!(
            store
                .standard_propagation_ingest_batch(StandardPropagationIngestRequest {
                    items: std::slice::from_ref(&queued),
                    source_peer: None,
                    attempt: StandardPropagationAttemptStatus::Untracked,
                    protocol: StandardPropagationProtocolStatus::Valid,
                    now: 10,
                    policy: policy(),
                })
                .unwrap(),
            StandardPropagationIngestOutcome::Accepted
        );
    }
    {
        let mut store = open_store(&path).unwrap();
        assert!(store.standard_propagation_snapshot(11, policy()).unwrap() == vec![queued.clone()]);
        assert_eq!(
            store
                .standard_propagation_ingest_batch(StandardPropagationIngestRequest {
                    items: std::slice::from_ref(&queued),
                    source_peer: None,
                    attempt: StandardPropagationAttemptStatus::Untracked,
                    protocol: StandardPropagationProtocolStatus::Valid,
                    now: 11,
                    policy: policy(),
                })
                .unwrap(),
            StandardPropagationIngestOutcome::Accepted
        );
        let fetched = store
            .standard_propagation_get(StandardPropagationGetRequest {
                peer: [0x31; 16],
                request_id: [0x32; 16],
                recipient: [3; 16],
                wants: Some(&[id]),
                haves: None,
                inventory: false,
                response_limit: usize::MAX,
                now: 11,
                policy: policy(),
            })
            .unwrap();
        assert_eq!(fetched.payloads, vec![queued.lxmf_data.clone()]);
        store
            .standard_propagation_get(StandardPropagationGetRequest {
                peer: [0x31; 16],
                request_id: [0x33; 16],
                recipient: [3; 16],
                wants: None,
                haves: Some(&[id]),
                inventory: false,
                response_limit: usize::MAX,
                now: 12,
                policy: policy(),
            })
            .unwrap();
    }
    {
        let mut store = open_store(&path).unwrap();
        assert!(store.standard_propagation_snapshot(13, policy()).unwrap().is_empty());
        assert_eq!(
            ingest(&mut store, &[queued], None, None, 13, policy()).unwrap(),
            StandardPropagationIngestOutcome::Accepted
        );
        assert!(store.standard_propagation_snapshot(13, policy()).unwrap().is_empty());
        let legacy_count: i64 = store
            .connection()
            .query_row("SELECT COUNT(*) FROM propagation_store", [], |row| row.get(0))
            .unwrap();
        assert_eq!(legacy_count, 0);
        store.standard_propagation_stats(12 + TOMBSTONE_RETENTION_SECS, policy()).unwrap();
        let retained: i64 = store
            .connection()
            .query_row(
                "SELECT COUNT(*) FROM standard_lxmf_propagation_items
                 WHERE transient_id = ?1",
                (id.as_slice(),),
                |row| row.get(0),
            )
            .unwrap();
        assert_eq!(retained, 1);
        store
            .standard_propagation_reconcile_startup(13 + TOMBSTONE_RETENTION_SECS, policy())
            .unwrap();
        let pruned: i64 = store
            .connection()
            .query_row(
                "SELECT COUNT(*) FROM standard_lxmf_propagation_items
                 WHERE transient_id = ?1",
                (id.as_slice(),),
                |row| row.get(0),
            )
            .unwrap();
        assert_eq!(pruned, 0);
    }
}

#[test]
fn attempts_checkpoint_selection_failures_and_reconcile_are_durable_and_bounded() {
    let dir = tempfile::tempdir().unwrap();
    let path = dir.path().join("messages.db");
    let peer = [4; 16];
    let other_peer = [5; 16];
    let queued = item([6; 16], 6, 20);
    let attempt;
    let interrupted;
    {
        let mut store = open_store(&path).unwrap();
        store
            .standard_propagation_upsert_peer(&StandardPropagationPeer {
                identity_hash: other_peer,
                propagation_destination: Some([7; 16]),
                configured: true,
                enabled: true,
                transfer_limit_kb: Some(256),
                sync_limit_kb: Some(4000),
                stamp_cost: Some(16),
                stamp_flexibility: Some(3),
                peering_cost: Some(18),
                observed_at: 20,
            })
            .unwrap();
        let comparison = store
            .standard_propagation_compare_offer(StandardPropagationOfferRequest {
                peer,
                offered: &[queued.transient_id],
                same_link_pending: &[],
                pending_elsewhere: &[],
                pending_count: 0,
                existing_attempt: None,
                request_id: [8; 16],
                link_id: [9; 16],
                now: 20,
                deadline: 200,
                policy: policy(),
            })
            .unwrap();
        attempt = comparison.attempt_id;
        assert_eq!(comparison.wanted, vec![queued.transient_id]);
        assert_eq!(
            ingest(
                &mut store,
                std::slice::from_ref(&queued),
                Some(peer),
                Some(attempt),
                21,
                policy(),
            )
            .unwrap(),
            StandardPropagationIngestOutcome::Accepted
        );
        store.standard_propagation_set_selection(Some(peer), "manual", 21).unwrap();
        interrupted = store
            .standard_propagation_compare_offer(StandardPropagationOfferRequest {
                peer,
                offered: &[[10; 32]],
                same_link_pending: &[],
                pending_elsewhere: &[],
                pending_count: 0,
                existing_attempt: None,
                request_id: [11; 16],
                link_id: [12; 16],
                now: 22,
                deadline: 202,
                policy: policy(),
            })
            .unwrap()
            .attempt_id;
        for index in 0..(MAX_FAILURES + 4) {
            store
                .connection()
                .execute(
                    "INSERT INTO standard_lxmf_propagation_failures
                     (code, occurred_at, peer) VALUES ('bounded', ?1, ?2)",
                    (index as i64, peer.as_slice(),),
                )
                .unwrap();
        }
    }
    {
        let mut store = open_store(&path).unwrap();
        store.standard_propagation_reconcile_startup(30, policy()).unwrap();
        let state: String = store
            .connection()
            .query_row(
                "SELECT state FROM standard_lxmf_propagation_attempts WHERE attempt_id = ?1",
                (interrupted.as_slice(),),
                |row| row.get(0),
            )
            .unwrap();
        assert_eq!(state, "interrupted");
        assert_eq!(
            store.standard_propagation_selection().unwrap(),
            Some(StandardPropagationSelection {
                peer: Some(peer),
                mode: "manual".into(),
                selected_at: 21,
            })
        );
        let checkpoint =
            store.standard_propagation_checkpoint(peer, "ingress").unwrap().unwrap();
        assert_eq!(checkpoint.last_attempt, Some(attempt));
        assert_eq!(checkpoint.completed_stage, "complete");
        let disposition: String = store
            .connection()
            .query_row(
                "SELECT disposition FROM standard_lxmf_propagation_peer_items
                 WHERE peer = ?1 AND transient_id = ?2",
                (other_peer.as_slice(), queued.transient_id.as_slice(),),
                |row| row.get(0),
            )
            .unwrap();
        assert_eq!(disposition, "unhandled");
        assert!(
            store.standard_propagation_failures(MAX_FAILURES + 100).unwrap().len()
                <= MAX_FAILURES
        );
    }
}

#[test]
fn peer_backfill_and_terminal_duplicate_semantics_survive_restart() {
    let dir = tempfile::tempdir().unwrap();
    let path = dir.path().join("messages.db");
    let first = item([0x31; 16], 0x31, 10);
    let offered = item([0x32; 16], 0x32, 11);
    let queued_race = item([0x34; 16], 0x34, 12);
    let terminal = item([0x33; 16], 0x33, 12);
    let first_peer = [0x41; 16];
    let second_peer = [0x42; 16];
    let source_peer = [0x43; 16];
    let terminal_attempt;
    {
        let mut store = open_store(&path).unwrap();
        ingest(&mut store, std::slice::from_ref(&first), None, None, 10, policy()).unwrap();
        store
            .standard_propagation_upsert_peer(&StandardPropagationPeer {
                identity_hash: first_peer,
                propagation_destination: None,
                configured: true,
                enabled: true,
                transfer_limit_kb: None,
                sync_limit_kb: None,
                stamp_cost: None,
                stamp_flexibility: None,
                peering_cost: None,
                observed_at: 10,
            })
            .unwrap();
        store
            .standard_propagation_upsert_peer(&StandardPropagationPeer {
                identity_hash: second_peer,
                propagation_destination: None,
                configured: true,
                enabled: false,
                transfer_limit_kb: None,
                sync_limit_kb: None,
                stamp_cost: None,
                stamp_flexibility: None,
                peering_cost: None,
                observed_at: 10,
            })
            .unwrap();
        let disabled_count: i64 = store
            .connection()
            .query_row(
                "SELECT COUNT(*) FROM standard_lxmf_propagation_peer_items
                 WHERE peer = ?1",
                (second_peer.as_slice(),),
                |row| row.get(0),
            )
            .unwrap();
        assert_eq!(disabled_count, 0);
        store
            .standard_propagation_upsert_peer(&StandardPropagationPeer {
                identity_hash: second_peer,
                propagation_destination: None,
                configured: true,
                enabled: true,
                transfer_limit_kb: None,
                sync_limit_kb: None,
                stamp_cost: None,
                stamp_flexibility: None,
                peering_cost: None,
                observed_at: 11,
            })
            .unwrap();
        ingest(
            &mut store,
            std::slice::from_ref(&offered),
            Some(first_peer),
            None,
            11,
            policy(),
        )
        .unwrap();
        let dispositions = |store: &MessagesStore, id: [u8; 32]| {
            let mut statement = store
                .connection()
                .prepare(
                    "SELECT peer, disposition FROM standard_lxmf_propagation_peer_items
                     WHERE transient_id = ?1 ORDER BY peer",
                )
                .unwrap();
            statement
                .query_map((id.as_slice(),), |row| {
                    Ok((row.get::<_, Vec<u8>>(0)?, row.get::<_, String>(1)?))
                })
                .unwrap()
                .collect::<rusqlite::Result<Vec<_>>>()
                .unwrap()
        };
        assert_eq!(
            dispositions(&store, first.transient_id),
            vec![
                (first_peer.to_vec(), "unhandled".into()),
                (second_peer.to_vec(), "unhandled".into()),
            ]
        );
        assert_eq!(
            dispositions(&store, offered.transient_id),
            vec![
                (first_peer.to_vec(), "handled".into()),
                (second_peer.to_vec(), "unhandled".into()),
            ]
        );

        let queued_attempt = store
            .standard_propagation_compare_offer(StandardPropagationOfferRequest {
                peer: source_peer,
                offered: &[queued_race.transient_id],
                same_link_pending: &[],
                pending_elsewhere: &[],
                pending_count: 0,
                existing_attempt: None,
                request_id: [0x53; 16],
                link_id: [0x54; 16],
                now: 12,
                deadline: 100,
                policy: policy(),
            })
            .unwrap()
            .attempt_id;
        ingest(&mut store, std::slice::from_ref(&queued_race), None, None, 12, policy())
            .unwrap();
        let other_dispositions_before: Vec<_> = dispositions(&store, queued_race.transient_id)
            .into_iter()
            .filter(|(peer, _)| peer.as_slice() != source_peer)
            .collect();
        let source_counters_before: (i64, i64) = store
            .connection()
            .query_row(
                "SELECT accepted_count, accepted_bytes
                 FROM standard_lxmf_propagation_peers WHERE identity_hash = ?1",
                (source_peer.as_slice(),),
                |row| Ok((row.get(0)?, row.get(1)?)),
            )
            .unwrap();
        store
            .standard_propagation_ingest_batch(StandardPropagationIngestRequest {
                items: std::slice::from_ref(&queued_race),
                source_peer: Some(source_peer),
                attempt: StandardPropagationAttemptStatus::Complete(queued_attempt),
                protocol: StandardPropagationProtocolStatus::Valid,
                now: 13,
                policy: policy(),
            })
            .unwrap();
        let queued_dispositions = dispositions(&store, queued_race.transient_id);
        assert!(
            queued_dispositions
                .iter()
                .any(|(peer, disposition)| peer.as_slice() == source_peer
                    && disposition == "handled")
        );
        assert_eq!(
            queued_dispositions
                .into_iter()
                .filter(|(peer, _)| peer.as_slice() != source_peer)
                .collect::<Vec<_>>(),
            other_dispositions_before
        );
        let source_counters_after: (i64, i64) = store
            .connection()
            .query_row(
                "SELECT accepted_count, accepted_bytes
                 FROM standard_lxmf_propagation_peers WHERE identity_hash = ?1",
                (source_peer.as_slice(),),
                |row| Ok((row.get(0)?, row.get(1)?)),
            )
            .unwrap();
        assert_eq!(source_counters_after, source_counters_before);
        let queued_checkpoint =
            store.standard_propagation_checkpoint(source_peer, "ingress").unwrap().unwrap();
        assert_eq!(queued_checkpoint.last_attempt, Some(queued_attempt));
        assert_eq!(queued_checkpoint.item_count, 1);
        assert_eq!(queued_checkpoint.byte_count, 0);

        store
            .standard_propagation_upsert_peer(&StandardPropagationPeer {
                identity_hash: source_peer,
                propagation_destination: Some([0x44; 16]),
                configured: false,
                enabled: true,
                transfer_limit_kb: None,
                sync_limit_kb: None,
                stamp_cost: None,
                stamp_flexibility: None,
                peering_cost: None,
                observed_at: 13,
            })
            .unwrap();

        terminal_attempt = store
            .standard_propagation_compare_offer(StandardPropagationOfferRequest {
                peer: source_peer,
                offered: &[terminal.transient_id],
                same_link_pending: &[],
                pending_elsewhere: &[],
                pending_count: 0,
                existing_attempt: None,
                request_id: [0x51; 16],
                link_id: [0x52; 16],
                now: 14,
                deadline: 100,
                policy: policy(),
            })
            .unwrap()
            .attempt_id;
        ingest(&mut store, std::slice::from_ref(&terminal), None, None, 14, policy()).unwrap();
        store
            .standard_propagation_get(StandardPropagationGetRequest {
                peer: [0x53; 16],
                request_id: [0x54; 16],
                recipient: terminal.destination,
                wants: None,
                haves: Some(&[terminal.transient_id]),
                inventory: false,
                response_limit: usize::MAX,
                now: 15,
                policy: policy(),
            })
            .unwrap();
        let before: (i64, i64, String) = store
            .connection()
            .query_row(
                "SELECT p.accepted_count, p.accepted_bytes, pi.disposition
                 FROM standard_lxmf_propagation_peers p
                 JOIN standard_lxmf_propagation_peer_items pi ON pi.peer = p.identity_hash
                 WHERE p.identity_hash = ?1 AND pi.transient_id = ?2",
                (source_peer.as_slice(), terminal.transient_id.as_slice(),),
                |row| Ok((row.get(0)?, row.get(1)?, row.get(2)?)),
            )
            .unwrap();
        assert_eq!(before.2, "unhandled");
        store
            .standard_propagation_ingest_batch(StandardPropagationIngestRequest {
                items: std::slice::from_ref(&terminal),
                source_peer: Some(source_peer),
                attempt: StandardPropagationAttemptStatus::Complete(terminal_attempt),
                protocol: StandardPropagationProtocolStatus::Valid,
                now: 16,
                policy: policy(),
            })
            .unwrap();
        let after: (i64, i64, String) = store
            .connection()
            .query_row(
                "SELECT p.accepted_count, p.accepted_bytes, pi.disposition
                 FROM standard_lxmf_propagation_peers p
                 JOIN standard_lxmf_propagation_peer_items pi ON pi.peer = p.identity_hash
                 WHERE p.identity_hash = ?1 AND pi.transient_id = ?2",
                (source_peer.as_slice(), terminal.transient_id.as_slice(),),
                |row| Ok((row.get(0)?, row.get(1)?, row.get(2)?)),
            )
            .unwrap();
        assert_eq!(after, before);
    }
    {
        let mut store = open_store(&path).unwrap();
        assert!(
            store
                .standard_propagation_snapshot(17, policy())
                .unwrap()
                .iter()
                .all(|item| { item.transient_id != terminal.transient_id })
        );
        let checkpoint =
            store.standard_propagation_checkpoint(source_peer, "ingress").unwrap().unwrap();
        assert_eq!(checkpoint.last_attempt, Some(terminal_attempt));
        assert_eq!(checkpoint.item_count, 1);
        assert_eq!(checkpoint.byte_count, 0);
        let observation = store.standard_propagation_observation(17, policy()).unwrap();
        assert_eq!(observation.queue.acknowledged_count, 1);
        assert_eq!(observation.queue.expired_count, 0);
        let disposition: String = store
            .connection()
            .query_row(
                "SELECT disposition FROM standard_lxmf_propagation_peer_items
                 WHERE peer = ?1 AND transient_id = ?2",
                (source_peer.as_slice(), terminal.transient_id.as_slice(),),
                |row| row.get(0),
            )
            .unwrap();
        assert_eq!(disposition, "unhandled");
    }
}

#[test]
fn observation_projects_durable_attempts_checkpoints_and_failures_after_restart() {
    let dir = tempfile::tempdir().unwrap();
    let path = dir.path().join("messages.db");
    let peer = [0x61; 16];
    let completed_item = item([0x62; 16], 0x62, 20);
    let completed_attempt;
    let running_attempt;
    {
        let mut store = open_store(&path).unwrap();
        store
            .standard_propagation_upsert_peer(&StandardPropagationPeer {
                identity_hash: peer,
                propagation_destination: Some([0x63; 16]),
                configured: true,
                enabled: true,
                transfer_limit_kb: Some(256),
                sync_limit_kb: Some(4000),
                stamp_cost: Some(16),
                stamp_flexibility: Some(3),
                peering_cost: Some(18),
                observed_at: 20,
            })
            .unwrap();
        completed_attempt = store
            .standard_propagation_compare_offer(StandardPropagationOfferRequest {
                peer,
                offered: &[completed_item.transient_id],
                same_link_pending: &[],
                pending_elsewhere: &[],
                pending_count: 0,
                existing_attempt: None,
                request_id: [0x64; 16],
                link_id: [0x65; 16],
                now: 20,
                deadline: 120,
                policy: policy(),
            })
            .unwrap()
            .attempt_id;
        ingest(
            &mut store,
            std::slice::from_ref(&completed_item),
            Some(peer),
            Some(completed_attempt),
            21,
            policy(),
        )
        .unwrap();
        running_attempt = store
            .standard_propagation_compare_offer(StandardPropagationOfferRequest {
                peer,
                offered: &[[0x66; 32]],
                same_link_pending: &[],
                pending_elsewhere: &[],
                pending_count: 0,
                existing_attempt: None,
                request_id: [0x67; 16],
                link_id: [0x68; 16],
                now: 22,
                deadline: 122,
                policy: policy(),
            })
            .unwrap()
            .attempt_id;
        store
            .standard_propagation_record_attempt_failure(
                running_attempt,
                peer,
                "temporary_link",
                Some("not projected"),
                23,
            )
            .unwrap();
        store.standard_propagation_set_selection(Some(peer), "manual", 24).unwrap();
    }
    {
        let mut store = open_store(&path).unwrap();
        let observation = store.standard_propagation_observation(25, policy()).unwrap();
        assert_eq!(observation.observed_at, 25);
        assert_eq!(observation.queue.queued_count, 1);
        assert_eq!(observation.peers.len(), 1);
        assert!(observation.peers[0].configured);
        assert_eq!(observation.peers[0].propagation_destination, Some([0x63; 16]));
        assert_eq!(observation.selection.unwrap().peer, Some(peer));
        assert_eq!(observation.attempts.len(), 2);
        assert_eq!(observation.attempts[0].attempt_id, running_attempt);
        assert_eq!(observation.attempts[0].stage, "transfer");
        assert_eq!(observation.attempts[0].state, "failed");
        assert_eq!(observation.attempts[0].failure_code.as_deref(), Some("temporary_link"));
        assert_eq!(observation.attempts[1].attempt_id, completed_attempt);
        assert_eq!(observation.attempts[1].state, "completed");
        assert_eq!(observation.checkpoints.len(), 1);
        assert_eq!(observation.checkpoints[0].last_attempt, Some(running_attempt));
        assert_eq!(observation.failures.len(), 1);
        assert_eq!(observation.failures[0].code, "temporary_link");
        assert_eq!(observation.failures[0].attempt_id, Some(running_attempt));
    }
}

#[test]
fn observation_bounds_and_orders_newest_records_deterministically() {
    let mut store = MessagesStore::in_memory().unwrap();
    for index in 0..(STANDARD_PROPAGATION_OBSERVATION_PEER_LIMIT + 2) {
        let mut peer = [0u8; 16];
        peer[..8].copy_from_slice(&(index as u64).to_be_bytes());
        store
            .connection()
            .execute(
                "INSERT INTO standard_lxmf_propagation_peers
                 (identity_hash, origin, enabled, first_seen_at, last_seen_at)
                 VALUES (?1, 'observed', 1, ?2, ?2)",
                (peer.as_slice(), index as i64,),
            )
            .unwrap();
        store
            .connection()
            .execute(
                "INSERT INTO standard_lxmf_propagation_checkpoints
                 (peer, direction, completed_stage, item_count, byte_count, updated_at)
                 VALUES (?1, 'ingress', 'complete', 0, 0, ?2)",
                (peer.as_slice(), index as i64,),
            )
            .unwrap();
    }
    for index in 0..(STANDARD_PROPAGATION_OBSERVATION_ATTEMPT_LIMIT + 1) {
        let attempt_id = (index as u128).to_be_bytes();
        store
            .connection()
            .execute(
                "INSERT INTO standard_lxmf_propagation_attempts
                 (attempt_id, correlation_id, direction, stage, state, started_at,
                  updated_at, offered_count, wanted_count)
                 VALUES (?1, ?1, 'ingress', 'offer', 'running', ?2, ?2, 0, 0)",
                (attempt_id.as_slice(), index as i64,),
            )
            .unwrap();
    }
    for index in 0..(STANDARD_PROPAGATION_OBSERVATION_FAILURE_LIMIT + 2) {
        store
            .connection()
            .execute(
                "INSERT INTO standard_lxmf_propagation_failures(code, occurred_at)
                 VALUES ('bounded', ?1)",
                (index as i64,),
            )
            .unwrap();
    }

    let first = store.standard_propagation_observation(200, policy()).unwrap();
    let second = store.standard_propagation_observation(200, policy()).unwrap();
    assert_eq!(first, second);
    assert_eq!(first.peers.len(), STANDARD_PROPAGATION_OBSERVATION_PEER_LIMIT);
    assert_eq!(first.attempts.len(), STANDARD_PROPAGATION_OBSERVATION_ATTEMPT_LIMIT);
    assert_eq!(first.checkpoints.len(), STANDARD_PROPAGATION_OBSERVATION_CHECKPOINT_LIMIT);
    assert_eq!(first.failures.len(), STANDARD_PROPAGATION_OBSERVATION_FAILURE_LIMIT);
    assert!(first.peers_truncated);
    assert!(first.attempts_truncated);
    assert!(first.checkpoints_truncated);
    assert!(first.failures_truncated);
    assert_eq!(first.peers[0].last_seen_at, 129);
    assert_eq!(first.attempts[0].updated_at, 256);
    assert_eq!(first.checkpoints[0].updated_at, 129);
    assert_eq!(first.failures[0].occurred_at, 129);
}

#[test]
fn get_operations_and_exact_deadlines_are_durable_observations() {
    let mut store = MessagesStore::in_memory().unwrap();
    let peer = [0xd1; 16];
    let queued = item([0xd2; 16], 0xd3, 10);
    let transient_id = queued.transient_id;
    ingest(&mut store, std::slice::from_ref(&queued), None, None, 10, policy()).unwrap();

    let fetched = store
        .standard_propagation_get(StandardPropagationGetRequest {
            peer,
            request_id: [0xd4; 16],
            recipient: queued.destination,
            wants: None,
            haves: None,
            inventory: true,
            response_limit: usize::MAX,
            now: 11,
            policy: policy(),
        })
        .unwrap();
    assert_eq!(fetched.inventory, Some(vec![transient_id]));
    let downloaded = store
        .standard_propagation_get(StandardPropagationGetRequest {
            peer,
            request_id: [0xd5; 16],
            recipient: queued.destination,
            wants: Some(&[transient_id]),
            haves: None,
            inventory: false,
            response_limit: usize::MAX,
            now: 12,
            policy: policy(),
        })
        .unwrap();
    assert_eq!(downloaded.payloads, vec![queued.lxmf_data.clone()]);
    store
        .standard_propagation_get(StandardPropagationGetRequest {
            peer,
            request_id: [0xd6; 16],
            recipient: queued.destination,
            wants: None,
            haves: Some(&[transient_id]),
            inventory: false,
            response_limit: usize::MAX,
            now: 13,
            policy: policy(),
        })
        .unwrap();

    let deadline_attempt = store
        .standard_propagation_compare_offer(StandardPropagationOfferRequest {
            peer,
            offered: &[[0xd7; 32]],
            same_link_pending: &[],
            pending_elsewhere: &[],
            pending_count: 0,
            existing_attempt: None,
            request_id: [0xd8; 16],
            link_id: [0xd9; 16],
            now: 20,
            deadline: 50,
            policy: policy(),
        })
        .unwrap()
        .attempt_id;
    assert_eq!(store.standard_propagation_reconcile_deadlines(49).unwrap(), 0);
    assert_eq!(store.standard_propagation_reconcile_deadlines(50).unwrap(), 1);
    assert_eq!(store.standard_propagation_reconcile_deadlines(50).unwrap(), 0);

    let observation = store.standard_propagation_observation(50, policy()).unwrap();
    for stage in ["fetch", "download", "sync"] {
        let attempt =
            observation.attempts.iter().find(|attempt| attempt.stage == stage).unwrap();
        assert_eq!(attempt.peer, Some(peer));
        assert_eq!(attempt.state, "completed");
        assert_eq!(attempt.accepted_count, 1);
        assert_eq!(
            attempt.accepted_bytes,
            if stage == "download" { queued.lxmf_data.len() } else { 0 }
        );
    }
    let deadline = observation
        .attempts
        .iter()
        .find(|attempt| attempt.attempt_id == deadline_attempt)
        .unwrap();
    assert_eq!(deadline.state, "failed");
    assert_eq!(deadline.failure_code.as_deref(), Some("deadline_elapsed"));
    assert_eq!(
        observation
            .failures
            .iter()
            .filter(|failure| failure.attempt_id == Some(deadline_attempt))
            .count(),
        1
    );
}

#[test]
fn startup_reconciliation_uses_exact_deadline_before_interrupting_running_attempts() {
    let mut store = MessagesStore::in_memory().unwrap();
    let peer = [0xe1; 16];
    let mut attempts = Vec::new();
    for (index, deadline) in [99, 100, 101].into_iter().enumerate() {
        attempts.push(
            store
                .standard_propagation_compare_offer(StandardPropagationOfferRequest {
                    peer,
                    offered: &[[index as u8 + 1; 32]],
                    same_link_pending: &[],
                    pending_elsewhere: &[],
                    pending_count: 0,
                    existing_attempt: None,
                    request_id: [index as u8 + 4; 16],
                    link_id: [index as u8 + 8; 16],
                    now: 10,
                    deadline,
                    policy: policy(),
                })
                .unwrap()
                .attempt_id,
        );
    }
    let no_deadline = [0xee; 16];
    store
        .connection()
        .execute(
            "INSERT INTO standard_lxmf_propagation_attempts
             (attempt_id, correlation_id, peer, direction, stage, state, started_at,
              updated_at, deadline_at, offered_count, wanted_count)
             VALUES (?1, ?1, ?2, 'ingress', 'offer', 'running', 10, 10, NULL, 1, 1)",
            (no_deadline.as_slice(), peer.as_slice(),),
        )
        .unwrap();

    store.standard_propagation_reconcile_startup(100, policy()).unwrap();
    let observation = store.standard_propagation_observation(100, policy()).unwrap();
    for attempt in &attempts[..2] {
        let attempt =
            observation.attempts.iter().find(|item| item.attempt_id == *attempt).unwrap();
        assert_eq!(attempt.state, "failed");
        assert_eq!(attempt.failure_code.as_deref(), Some("deadline_elapsed"));
    }
    for attempt in [attempts[2], no_deadline] {
        let attempt =
            observation.attempts.iter().find(|item| item.attempt_id == attempt).unwrap();
        assert_eq!(attempt.state, "interrupted");
        assert_eq!(attempt.failure_code.as_deref(), Some("startup_interrupted"));
    }
    assert_eq!(observation.failures.len(), 2);
}

#[test]
fn request_observation_is_inactive_until_announce_and_does_not_disable_existing_peer() {
    let mut store = MessagesStore::in_memory().unwrap();
    let peer = [0xf1; 16];
    store
        .standard_propagation_get(StandardPropagationGetRequest {
            peer,
            request_id: [0xf2; 16],
            recipient: [0xf3; 16],
            wants: None,
            haves: None,
            inventory: true,
            response_limit: usize::MAX,
            now: 10,
            policy: policy(),
        })
        .unwrap();
    let observed = store.standard_propagation_observation(10, policy()).unwrap();
    assert!(!observed.peers[0].enabled);

    store
        .standard_propagation_upsert_peer(&StandardPropagationPeer {
            identity_hash: peer,
            propagation_destination: Some([0xf4; 16]),
            configured: false,
            enabled: true,
            transfer_limit_kb: None,
            sync_limit_kb: None,
            stamp_cost: None,
            stamp_flexibility: None,
            peering_cost: None,
            observed_at: 11,
        })
        .unwrap();
    store
        .standard_propagation_get(StandardPropagationGetRequest {
            peer,
            request_id: [0xf5; 16],
            recipient: [0xf3; 16],
            wants: None,
            haves: None,
            inventory: true,
            response_limit: usize::MAX,
            now: 12,
            policy: policy(),
        })
        .unwrap();
    assert!(store.standard_propagation_observation(12, policy()).unwrap().peers[0].enabled);
}

#[test]
fn ingress_observation_bytes_exclude_persisted_stamp_bytes() {
    let mut store = MessagesStore::in_memory().unwrap();
    let peer = [0x91; 16];
    let received = item([0x92; 16], 0x93, 10);
    ingest(&mut store, std::slice::from_ref(&received), Some(peer), None, 10, policy())
        .unwrap();

    let observation = store.standard_propagation_observation(10, policy()).unwrap();
    assert_eq!(observation.queue.queued_bytes, received.stored_size);
    let observed_peer =
        observation.peers.iter().find(|item| item.identity_hash == peer).unwrap();
    assert_eq!(observed_peer.accepted_count, 1);
    assert_eq!(observed_peer.accepted_bytes, received.lxmf_data.len());
}

#[test]
fn mixed_haves_and_wants_count_items_but_only_wants_count_payload_bytes() {
    let mut store = MessagesStore::in_memory().unwrap();
    let acknowledged = item([0xa1; 16], 0xa2, 10);
    let returned = item(acknowledged.destination, 0xa3, 10);
    ingest(&mut store, &[acknowledged.clone(), returned.clone()], None, None, 10, policy())
        .unwrap();
    let result = store
        .standard_propagation_get(StandardPropagationGetRequest {
            peer: [0xa4; 16],
            request_id: [0xa5; 16],
            recipient: acknowledged.destination,
            wants: Some(&[returned.transient_id]),
            haves: Some(&[acknowledged.transient_id]),
            inventory: false,
            response_limit: usize::MAX,
            now: 11,
            policy: policy(),
        })
        .unwrap();
    assert_eq!(result.payloads, vec![returned.lxmf_data.clone()]);
    let observation = store.standard_propagation_observation(11, policy()).unwrap();
    let attempt =
        observation.attempts.iter().find(|item| item.attempt_id == result.attempt_id).unwrap();
    assert_eq!(attempt.accepted_count, 2);
    assert_eq!(attempt.accepted_bytes, returned.lxmf_data.len());
    let checkpoint =
        store.standard_propagation_checkpoint([0xa4; 16], "sync").unwrap().unwrap();
    assert_eq!(checkpoint.item_count, 2);
    assert_eq!(checkpoint.byte_count, returned.lxmf_data.len());
}

#[test]
fn v10_migration_is_idempotent_strict_and_marker_fails_closed() {
    let mut store = MessagesStore::in_memory().unwrap();
    store.ensure_standard_propagation_schema().unwrap();
    let sql: String = store
        .connection()
        .query_row(
            "SELECT sql FROM sqlite_master
             WHERE type = 'table' AND name = 'standard_lxmf_propagation_items'",
            [],
            |row| row.get(0),
        )
        .unwrap();
    assert!(sql.to_ascii_uppercase().contains(" STRICT"));
    assert!(store
        .connection()
        .execute(
            "INSERT INTO standard_lxmf_propagation_items
             (transient_id, destination, stamp_value, received_at, expires_at,
              stored_size, state, terminal_at)
             VALUES (?1, ?2, 0, 0, 1, 0, 'bad', NULL)",
            (vec![0u8; 32], vec![0u8; 16]),
        )
        .is_err());
    let mut corrupt_data = vec![0x22u8; MIN_PROPAGATED_LXMF_BYTES + 1];
    corrupt_data[..16].copy_from_slice(&[0x23; 16]);
    store
        .connection()
        .execute(
            "INSERT INTO standard_lxmf_propagation_items
             (transient_id, destination, lxmf_data, stamp, stamp_value, received_at,
              expires_at, stored_size, state, terminal_at)
             VALUES (?1, ?2, ?3, ?4, 0, 0, 100, ?5, 'queued', NULL)",
            (
                [0x24u8; 32].as_slice(),
                [0x23u8; 16].as_slice(),
                corrupt_data,
                [0x25u8; 32].as_slice(),
                (MIN_PROPAGATED_LXMF_BYTES + 1 + 32) as i64,
            ),
        )
        .unwrap();
    assert!(store.standard_propagation_reconcile_startup(0, policy()).is_err());

    let conn = rusqlite::Connection::open_in_memory().unwrap();
    conn.execute_batch(
        "PRAGMA foreign_keys = ON;
         CREATE TABLE schema_migrations(id TEXT PRIMARY KEY, applied_at INTEGER NOT NULL);
         CREATE TABLE standard_lxmf_propagation_items(transient_id BLOB PRIMARY KEY);
         INSERT INTO schema_migrations(id, applied_at)
         VALUES ('2026-08-24-standard-lxmf-propagation-v10', 0);",
    )
    .unwrap();
    assert!(MessagesStore::from_connection(conn, &[]).is_err());

    let directory = tempfile::tempdir().unwrap();
    let path = directory.path().join("collision.db");
    let collision = rusqlite::Connection::open(&path).unwrap();
    collision
        .execute_batch(
            "PRAGMA foreign_keys = ON;
             CREATE TABLE schema_migrations(id TEXT PRIMARY KEY, applied_at INTEGER NOT NULL);
             CREATE TABLE standard_lxmf_propagation_items(transient_id BLOB PRIMARY KEY);",
        )
        .unwrap();
    assert!(MessagesStore::from_connection(collision, &[]).is_err());
    let check = rusqlite::Connection::open(&path).unwrap();
    let marker_count: i64 = check
        .query_row(
            "SELECT COUNT(*) FROM schema_migrations WHERE id = ?1",
            (STANDARD_PROPAGATION_MIGRATION,),
            |row| row.get(0),
        )
        .unwrap();
    assert_eq!(marker_count, 0);

    let mut unexpected_trigger = MessagesStore::in_memory().unwrap();
    unexpected_trigger
        .connection()
        .execute_batch(
            "CREATE TRIGGER unexpected_propagation_trigger
             AFTER INSERT ON standard_lxmf_propagation_items BEGIN SELECT 1; END;",
        )
        .unwrap();
    assert!(unexpected_trigger.ensure_standard_propagation_schema().is_err());

    let mut malformed_index = MessagesStore::in_memory().unwrap();
    malformed_index
        .connection()
        .execute_batch(
            "DROP INDEX idx_standard_lxmf_propagation_items_expiry;
             CREATE INDEX idx_standard_lxmf_propagation_items_expiry
             ON standard_lxmf_propagation_items(expires_at, state);",
        )
        .unwrap();
    assert!(malformed_index.ensure_standard_propagation_schema().is_err());
}

#[test]
fn ingest_capacity_and_storage_failure_are_atomic() {
    let mut store = MessagesStore::in_memory().unwrap();
    let first = item([1; 16], 1, 10);
    let second = item([2; 16], 2, 10);
    let limited = StandardPropagationPolicy { queue_max_count: 1, ..policy() };
    assert_eq!(
        ingest(&mut store, &[first.clone(), second], None, None, 10, limited).unwrap(),
        StandardPropagationIngestOutcome::CapacityRejected
    );
    assert_eq!(
        store.standard_propagation_stats(10, limited).unwrap(),
        StandardPropagationStats { queued_count: 0, stored_bytes: 0 }
    );

    let mut overflow = MessagesStore::in_memory().unwrap();
    ingest(
        &mut overflow,
        &[item([3; 16], 3, 10), item([4; 16], 4, 10)],
        None,
        None,
        10,
        policy(),
    )
    .unwrap();
    assert!(overflow.standard_propagation_reconcile_startup(10, limited).is_err());

    let mut duplicates = MessagesStore::in_memory().unwrap();
    assert_eq!(
        ingest(&mut duplicates, &[first.clone(), first.clone()], None, None, 10, limited).unwrap(),
        StandardPropagationIngestOutcome::Accepted
    );
    assert_eq!(duplicates.standard_propagation_stats(10, limited).unwrap().queued_count, 1);

    let mut identified = MessagesStore::in_memory().unwrap();
    let identified_items = [item([5; 16], 5, 10), item([6; 16], 6, 10)];
    let comparison = identified
        .standard_propagation_compare_offer(StandardPropagationOfferRequest {
            peer: [7; 16],
            offered: &[identified_items[0].transient_id, identified_items[1].transient_id],
            same_link_pending: &[],
            pending_elsewhere: &[],
            pending_count: 0,
            existing_attempt: None,
            request_id: [8; 16],
            link_id: [9; 16],
            now: 10,
            deadline: 100,
            policy: policy(),
        })
        .unwrap();
    assert_eq!(
        ingest(
            &mut identified,
            &identified_items,
            Some([7; 16]),
            Some(comparison.attempt_id),
            11,
            limited,
        )
        .unwrap(),
        StandardPropagationIngestOutcome::CapacityRejected
    );
    let attempt_state: String = identified
        .connection()
        .query_row(
            "SELECT state FROM standard_lxmf_propagation_attempts WHERE attempt_id = ?1",
            (comparison.attempt_id.as_slice(),),
            |row| row.get(0),
        )
        .unwrap();
    assert_eq!(attempt_state, "failed");
    assert_eq!(identified.standard_propagation_failures(10).unwrap().len(), 1);

    store
        .connection()
        .execute_batch(
            "CREATE TEMP TRIGGER fail_standard_propagation_insert
             BEFORE INSERT ON standard_lxmf_propagation_items
             BEGIN SELECT RAISE(ABORT, 'injected standard propagation insert failure'); END;",
        )
        .unwrap();
    assert!(ingest(&mut store, &[first], None, None, 10, limited).is_err());
    assert_eq!(
        store.standard_propagation_stats(10, limited).unwrap(),
        StandardPropagationStats { queued_count: 0, stored_bytes: 0 }
    );
}

#[test]
fn v10_marked_schema_rejects_missing_defaults_and_weakened_checks() {
    assert_eq!(
        normalize_schema_sql(
            "CREATE TABLE \"Example\" (\"Value\" INTEGER CHECK(typeof(\"Value\") = 'integer')) STRICT;"
        ),
        normalize_schema_sql("create table example(value integer check(TYPEOF(value)='integer')) strict")
    );

    let missing_default =
        PEERS_TABLE_SQL.replacen("backoff_count INTEGER NOT NULL DEFAULT 0", "backoff_count INTEGER NOT NULL", 1);
    let missing_default = marked_schema_with_replacement("standard_lxmf_propagation_peers", &missing_default);
    assert!(MessagesStore::from_connection(missing_default, &[]).is_err());

    let weakened_state = ITEMS_TABLE_SQL.replacen(
        "state IN ('queued','acknowledged','expired')",
        "state IN ('queued','acknowledged','expired','invalid')",
        1,
    );
    let weakened_state = marked_schema_with_replacement("standard_lxmf_propagation_items", &weakened_state);
    assert!(MessagesStore::from_connection(weakened_state, &[]).is_err());

    let weakened_length = ITEMS_TABLE_SQL.replacen("length(transient_id) = 32", "length(transient_id) >= 1", 1);
    let weakened_length = marked_schema_with_replacement("standard_lxmf_propagation_items", &weakened_length);
    assert!(MessagesStore::from_connection(weakened_length, &[]).is_err());
}

#[test]
fn v12_correlation_migration_is_strict_idempotent_and_collision_safe() {
    let mut store = MessagesStore::in_memory().unwrap();
    store.ensure_standard_propagation_schema().unwrap();
    assert!(store.correlation_schema_is_valid().unwrap());
    assert_eq!(
        store
            .connection()
            .query_row(
                "SELECT COUNT(*) FROM schema_migrations WHERE id = ?1",
                (STANDARD_PROPAGATION_CORRELATION_MIGRATION,),
                |row| row.get::<_, i64>(0),
            )
            .unwrap(),
        1
    );
    assert!(store
        .connection()
        .execute(
            "INSERT INTO standard_lxmf_propagation_message_links
             (transient_id, message_id, relation, peer, state, created_at, updated_at)
             VALUES (?1, ?2, 'inbound', ?3, 'spooled', 0, 0)",
            ([1u8; 32].as_slice(), "11".repeat(32), [2u8; 16].as_slice()),
        )
        .is_err());

    let root = tempfile::tempdir().unwrap();
    let path = root.path().join("v12-restart.db");
    drop(open_store(&path).unwrap());
    let mut reopened = open_store(&path).unwrap();
    reopened.ensure_standard_propagation_schema().unwrap();
    assert!(reopened.correlation_schema_is_valid().unwrap());

    store
        .connection()
        .execute_batch(
            "DELETE FROM schema_migrations
               WHERE id = '2026-08-25-standard-lxmf-propagation-correlation-v12';
             DROP TABLE standard_lxmf_propagation_client_attempt_items;
             DROP TABLE standard_lxmf_propagation_client_jobs;
             DROP TABLE standard_lxmf_propagation_message_links;
             CREATE TABLE standard_lxmf_propagation_message_links(transient_id BLOB PRIMARY KEY);",
        )
        .unwrap();
    assert!(store.ensure_standard_propagation_schema().is_err());
    assert_eq!(
        store
            .connection()
            .query_row(
                "SELECT COUNT(*) FROM schema_migrations WHERE id = ?1",
                (STANDARD_PROPAGATION_CORRELATION_MIGRATION,),
                |row| row.get::<_, i64>(0),
            )
            .unwrap(),
        0
    );

    let historical = rusqlite::Connection::open_in_memory().unwrap();
    historical
        .execute_batch(
            "PRAGMA foreign_keys = ON;
             CREATE TABLE schema_migrations(id TEXT PRIMARY KEY, applied_at INTEGER NOT NULL);",
        )
        .unwrap();
    for (_, create_sql) in PROPAGATION_TABLES {
        historical.execute_batch(create_sql).unwrap();
    }
    historical.execute_batch(INDEX_SQL).unwrap();
    historical.execute_batch(ATTEMPT_OPERATIONS_TABLE_SQL).unwrap();
    historical
        .execute(
            "INSERT INTO schema_migrations(id, applied_at) VALUES (?1, 1), (?2, 2)",
            (STANDARD_PROPAGATION_MIGRATION, STANDARD_PROPAGATION_OBSERVATION_MIGRATION),
        )
        .unwrap();
    let active = item([0x91; 16], 0x92, 10);
    historical
        .execute(
            "INSERT INTO standard_lxmf_propagation_items
             (transient_id, destination, lxmf_data, stamp, stamp_value, received_at,
              expires_at, stored_size, state, terminal_at)
             VALUES (?1, ?2, ?3, ?4, 0, 10, ?5, ?6, 'queued', NULL)",
            (
                active.transient_id.as_slice(),
                active.destination.as_slice(),
                &active.lxmf_data,
                active.stamp.as_slice(),
                active.expires_at,
                i64::try_from(active.stored_size).unwrap(),
            ),
        )
        .unwrap();
    let mut historical = MessagesStore::from_connection(historical, &[]).unwrap();
    historical.ensure_standard_propagation_schema().unwrap();
    assert!(historical.correlation_schema_is_valid().unwrap());
    let preserved: (Vec<u8>, Vec<u8>, String) = historical
        .connection()
        .query_row(
            "SELECT lxmf_data, stamp, state FROM standard_lxmf_propagation_items
             WHERE transient_id = ?1",
            (active.transient_id.as_slice(),),
            |row| Ok((row.get(0)?, row.get(1)?, row.get(2)?)),
        )
        .unwrap();
    assert_eq!(preserved, (active.lxmf_data, active.stamp.to_vec(), "queued".into()));
}

#[test]
fn attempt_failure_terminalizes_once_and_redacted_debug_excludes_payload_secrets() {
    let mut store = MessagesStore::in_memory().unwrap();
    let peer = [0xb1; 16];
    let comparison = store
        .standard_propagation_compare_offer(StandardPropagationOfferRequest {
            peer,
            offered: &[[0xb2; 32]],
            same_link_pending: &[],
            pending_elsewhere: &[],
            pending_count: 0,
            existing_attempt: None,
            request_id: [0xb3; 16],
            link_id: [0xb4; 16],
            now: 10,
            deadline: 20,
            policy: policy(),
        })
        .unwrap();
    store
        .standard_propagation_record_attempt_failure(comparison.attempt_id, peer, "malformed_transfer", None, 11)
        .unwrap();
    store.standard_propagation_reconcile_deadlines(20).unwrap();
    store.standard_propagation_record_attempt_failure(comparison.attempt_id, peer, "storage", None, 21).unwrap();
    let observation = store.standard_propagation_observation(21, policy()).unwrap();
    let attempt = observation.attempts.iter().find(|item| item.attempt_id == comparison.attempt_id).unwrap();
    assert_eq!(attempt.state, "failed");
    assert_eq!(attempt.failure_code.as_deref(), Some("malformed_transfer"));
    assert_eq!(observation.failures.len(), 1);
    assert_eq!(observation.failures[0].code, "malformed_transfer");
    assert_eq!(observation.checkpoints[0].completed_stage, "offer");

    let secret = b"SENTINEL_LXMF_SECRET".to_vec();
    let mut redacted_item = item([0xb5; 16], 0xb6, 10);
    redacted_item.lxmf_data = secret.clone();
    redacted_item.stamp = *b"SENTINEL_STAMP_SECRET_1234567890";
    let item_debug = redacted_item.redacted_text();
    assert!(!item_debug.contains("SENTINEL"));
    assert!(item_debug.contains("lxmf_data_len"));
    let result = StandardPropagationGetResult { inventory: None, payloads: vec![secret], attempt_id: [0xb7; 16] };
    let result_debug = result.redacted_text();
    assert!(!result_debug.contains("SENTINEL"));
    assert!(result_debug.contains("payload_bytes"));
}
