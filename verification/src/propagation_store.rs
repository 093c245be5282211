//! Standard propagation over the message store: the queue of propagated
//! messages, the peers that offer and fetch them, attempts and checkpoints,
//! and the outbound jobs and inbound links of this node's own messages.
use vstd::prelude::*;
use crate::error::{invalid, StoreError};
use crate::outside::{sha256, sha256_digest};
use crate::propagation::{
    check_item, has_id, id_eq, ingest_exceeds_capacity, ingest_over_capacity, ingest_request_ok, item_valid,
    plan_get_payloads, union_ids, StandardPropagationAttemptStatus, StandardPropagationCheckpoint,
    StandardPropagationClientJob, StandardPropagationFailure, StandardPropagationGetOperation,
    StandardPropagationGetRequest, StandardPropagationGetResult, StandardPropagationIngestOutcome,
    StandardPropagationIngestRequest, StandardPropagationItem, StandardPropagationMessageLink,
    StandardPropagationObservation, StandardPropagationOfferComparison, StandardPropagationOfferRequest,
    StandardPropagationPeer, StandardPropagationPolicy, StandardPropagationProtocolStatus,
    StandardPropagationSelection, StandardPropagationStats, ATTEMPT_RETENTION_SECS, FAILURE_RETENTION_SECS,
    GET_ITEM_OVERHEAD, GET_RESPONSE_OVERHEAD, MAX_ATTEMPTS, MAX_BATCH_ITEMS, MAX_FAILURES, MAX_FAILURE_CODE,
    MAX_FAILURE_DETAIL, STANDARD_PROPAGATION_OBSERVATION_ATTEMPT_LIMIT,
    STANDARD_PROPAGATION_OBSERVATION_CHECKPOINT_LIMIT, STANDARD_PROPAGATION_OBSERVATION_FAILURE_LIMIT,
    STANDARD_PROPAGATION_OBSERVATION_PEER_LIMIT, TOMBSTONE_RETENTION_SECS,
};
use crate::propagation_plan::{
    extend_sorted, message_id_ok, offer_attempt, offer_refused, offer_wanted, plan_offer, resumed_attempt,
    strictly_sorted, MIN_PROPAGATED_LXMF_BYTES,
};
use crate::propagation_rows::{
    attempt_observation_row, checkpoint_observation_row, checkpoint_row, client_job_row, failure_observation_row,
    failure_row, item_row, message_link_row, peer_observation_row, queue_observation_row, selected_peer_row,
    selection_row,
};
use crate::sql::{col_array, col_int, col_opt_array, col_opt_blob, col_text, col_usize, i64_to_usize, int_of, usize_to_i64, ArgView, SqlArg, SqlCall, SqlValue};
use crate::store::{blob_arg, int_arg, opt_blob_arg, opt_int_arg, opt_text_arg, text_arg, MessagesStore};
use crate::text::{bytes_eq, str_eq, utf8_len};

verus! {

/// `a - b`, saturating at the bounds of `i64`.
pub open spec fn sat_sub(a: i64, b: i64) -> i64 {
    if a - b < i64::MIN {
        i64::MIN
    } else if a - b > i64::MAX {
        i64::MAX
    } else {
        (a - b) as i64
    }
}

/// `sat_sub` computed.
pub fn saturating_sub(a: i64, b: i64) -> (r: i64)
    ensures
        r == sat_sub(a, b),
{
    if b > 0 && a < i64::MIN + b {
        i64::MIN
    } else if b < 0 && a > i64::MAX + b {
        i64::MAX
    } else {
        a - b
    }
}

/// Whether a failure can be recorded: a code of 1 to 64 bytes and a detail
/// of at most 256 bytes.
pub open spec fn failure_ok(code: Seq<char>, detail: Option<&str>) -> bool {
    &&& 1 <= utf8_len(code) <= MAX_FAILURE_CODE
    &&& (detail matches Some(d) ==> utf8_len(d@) <= MAX_FAILURE_DETAIL)
}

/// What the LXMF codec reads from a prepared job's canonical wire: the
/// destination it is addressed to, and the message id it yields, if any.
pub struct WireFacts {
    pub destination: [u8; 16],
    pub message_id: Option<String>,
}

/// Whether propagated data can be spooled for `destination` under
/// `transient`: longer than the minimum, addressed to the destination, and
/// with the transient id as its SHA-256.
pub open spec fn materialized_ok(data: Seq<u8>, destination: [u8; 16], transient: [u8; 32]) -> bool {
    &&& data.len() >= MIN_PROPAGATED_LXMF_BYTES + 1
    &&& data.subrange(0, 16) == destination@
    &&& sha256(data) == transient@
}

/// `materialized_ok` computed.
pub fn check_materialized(data: &[u8], destination: &[u8; 16], transient: &[u8; 32]) -> (r: bool)
    ensures
        r == materialized_ok(data@, *destination, *transient),
{
    if data.len() < MIN_PROPAGATED_LXMF_BYTES + 1 {
        return false;
    }
    let mut i: usize = 0;
    while i < 16
        invariant
            i <= 16,
            data@.len() >= MIN_PROPAGATED_LXMF_BYTES + 1,
            destination@.len() == 16,
            forall|j: int| 0 <= j < i ==> data@[j] == destination@[j],
        decreases 16 - i,
    {
        if data[i] != destination[i] {
            return false;
        }
        i = i + 1;
    }
    assert(data@.subrange(0, 16) =~= destination@);
    let digest = sha256_digest(data);
    id_eq(&digest, transient)
}

/// Whether an outbound job may be spooled: a lowercase hex message id, sane
/// times and costs; a preparing job holds only a canonical wire whose
/// destination and message id are the job's; any other job is spooled with
/// its transient id, ciphertext and stamp, and no wire.
pub open spec fn outbound_job_ok(job: StandardPropagationClientJob, wire: Option<WireFacts>) -> bool {
    &&& message_id_ok(job.message_id@)
    &&& job.created_at >= 0
    &&& job.updated_at >= job.created_at
    &&& job.stamp_cost <= 254
    &&& job.peering_cost <= 254
    &&& if job.state@ == "preparing"@ {
        &&& job.canonical_wire is Some
        &&& wire matches Some(w)
        &&& job.transient_id is None
        &&& job.lxmf_data is None
        &&& job.stamp is None
        &&& w.destination == job.destination
        &&& (w.message_id matches Some(id) && id@ == job.message_id@)
    } else {
        &&& job.transient_id matches Some(t)
        &&& job.lxmf_data matches Some(d)
        &&& job.stamp is Some
        &&& job.canonical_wire is None
        &&& materialized_ok(d@, job.destination, t)
        &&& job.state@ == "spooled"@
    }
}

pub fn first_row_or_none(row: Option<Vec<SqlValue>>) -> (r: Result<Vec<SqlValue>, StoreError>)
    ensures
        r is Ok <==> row is Some,
        r matches Ok(v) ==> row == Some(v),
        r matches Err(e) ==> e is QueryReturnedNoRows,
{
    match row {
        Some(v) => Ok(v),
        None => Err(StoreError::QueryReturnedNoRows),
    }
}

impl MessagesStore {
    // ── Steps every exchange takes ──────────────────────────────────────

    /// Expires queued items whose lifetime ended before `now`.
    pub(crate) fn expire_propagation(&mut self, now: i64) -> (r: Result<(), StoreError>)
        ensures
            crate::propagation_ops::queues_no_item(old(self)@, final(self)@),
            crate::store::extends(old(self)@, final(self)@),
    {
        self.exec(
            "UPDATE standard_lxmf_propagation_items
             SET state = 'expired', lxmf_data = NULL, stamp = NULL, stored_size = 0, terminal_at = ?1
             WHERE state = 'queued' AND expires_at < ?1",
            &[int_arg(now)],
        )?;
        Ok(())
    }

    /// Drops tombstones, finished jobs and links, failures and attempts past
    /// their retention, and failures and finished attempts beyond their caps.
    pub(crate) fn prune_propagation(&mut self, now: i64) -> (r: Result<(), StoreError>)
        ensures
            crate::propagation_ops::queues_no_item(old(self)@, final(self)@),
            crate::store::extends(old(self)@, final(self)@),
    {
        let tombstone_cutoff = saturating_sub(now, TOMBSTONE_RETENTION_SECS);
        self.exec(
            "DELETE FROM standard_lxmf_propagation_items
             WHERE state IN ('acknowledged','expired') AND terminal_at < ?1",
            &[int_arg(tombstone_cutoff)],
        )?;
        self.exec(
            "DELETE FROM standard_lxmf_propagation_client_jobs
             WHERE state IN ('accepted','failed') AND updated_at < ?1",
            &[int_arg(tombstone_cutoff)],
        )?;
        self.exec(
            "DELETE FROM standard_lxmf_propagation_message_links
             WHERE state IN ('accepted','acknowledged','deleted') AND updated_at < ?1",
            &[int_arg(tombstone_cutoff)],
        )?;
        self.exec(
            "DELETE FROM standard_lxmf_propagation_failures WHERE occurred_at < ?1",
            &[int_arg(saturating_sub(now, FAILURE_RETENTION_SECS))],
        )?;
        self.exec(
            "DELETE FROM standard_lxmf_propagation_failures
             WHERE failure_id NOT IN (
                 SELECT failure_id FROM standard_lxmf_propagation_failures
                 ORDER BY occurred_at DESC, failure_id DESC LIMIT ?1
             )",
            &[int_arg(MAX_FAILURES as i64)],
        )?;
        self.exec(
            "DELETE FROM standard_lxmf_propagation_attempts
             WHERE state != 'running' AND updated_at < ?1",
            &[int_arg(saturating_sub(now, ATTEMPT_RETENTION_SECS))],
        )?;
        self.exec(
            "DELETE FROM standard_lxmf_propagation_attempts
             WHERE state != 'running' AND attempt_id NOT IN (
                 SELECT attempt_id FROM standard_lxmf_propagation_attempts
                 ORDER BY updated_at DESC, attempt_id DESC LIMIT ?1
             )",
            &[int_arg(MAX_ATTEMPTS as i64)],
        )?;
        Ok(())
    }

    /// Fails every running attempt whose deadline has passed, recording a
    /// `deadline_elapsed` failure for each; returns how many.
    pub(crate) fn reconcile_deadlines_in(&mut self, now: i64) -> (r: Result<usize, StoreError>)
        ensures
            crate::store::extends(old(self)@, final(self)@),
            r matches Ok(n) ==> final(self)@.len() > old(self)@.len() && due_read(final(self)@[old(self)@.len() as int], now, n),
    {
        let due_args = [int_arg(now)];
        assert(crate::sql::args_view(due_args@) =~= seq![ArgView::Int(now)]);
        let due = self.rows(DUE_ATTEMPTS_SQL, &due_args)?;
        let ghost read = self@;
        assert(due_read(read[old(self)@.len() as int], now, due.len()));
        let mut i: usize = 0;
        while i < due.len()
            invariant
                i <= due.len(),
                crate::store::extends(old(self)@, self@),
                crate::store::extends(read, self@),
                read.len() > old(self)@.len(),
            decreases due.len() - i,
        {
            let row = due[i].as_slice();
            let attempt = col_array::<16>(row, 0)?;
            let peer = col_opt_array::<16>(row, 1)?;
            self.exec(
                "UPDATE standard_lxmf_propagation_attempts
                 SET state = 'failed', updated_at = ?2, failure_code = 'deadline_elapsed',
                     failure_detail = NULL
                 WHERE attempt_id = ?1 AND state = 'running'",
                &[blob_arg(&attempt), int_arg(now)],
            )?;
            let peer_ref = match &peer {
                Some(p) => Some(p),
                None => None,
            };
            self.record_failure_in("deadline_elapsed", None, now, peer_ref, None, Some(&attempt))?;
            i = i + 1;
        }
        assert(self@[old(self)@.len() as int] == read[old(self)@.len() as int]);
        Ok(due.len())
    }

    /// The queue's count and bytes of queued items.
    pub(crate) fn propagation_stats_in(&mut self) -> (r: Result<StandardPropagationStats, StoreError>)
        ensures
            crate::propagation_ops::queues_no_item(old(self)@, final(self)@),
            crate::store::extends(old(self)@, final(self)@),
            final(self)@.len() == old(self)@.len() + 1,
            r matches Ok(st) ==> stats_read(final(self)@.last(), st),
    {
        let no_args: [SqlArg; 0] = [];
        assert(crate::sql::args_view(no_args@) =~= Seq::<ArgView>::empty());
        let row = first_row_or_none(self.first_row(QUEUE_STATS_SQL, &no_args)?)?;
        let queued_count = col_usize(row.as_slice(), 0)?;
        let stored_bytes = col_usize(row.as_slice(), 1)?;
        Ok(StandardPropagationStats { queued_count, stored_bytes })
    }

    /// Records a failure, keeps the newest failures within the cap, and
    /// counts it against the peer.
    pub(crate) fn record_failure_in(
        &mut self,
        code: &str,
        detail: Option<&str>,
        now: i64,
        peer: Option<&[u8; 16]>,
        transient_id: Option<&[u8; 32]>,
        attempt_id: Option<&[u8; 16]>,
    ) -> (r: Result<(), StoreError>)
        ensures
            !failure_ok(code@, detail) ==> (r matches Err(e) && e is InvalidParameter),
            !failure_ok(code@, detail) ==> final(self)@ == old(self)@,
            crate::store::extends(old(self)@, final(self)@),
            crate::propagation_ops::queues_no_item(old(self)@, final(self)@),
    {
        let detail_too_long = match detail {
            Some(d) => d.len() > MAX_FAILURE_DETAIL,
            None => false,
        };
        if code.len() == 0 || code.len() > MAX_FAILURE_CODE || detail_too_long {
            return Err(invalid("invalid standard propagation failure"));
        }
        let peer_arg = match peer {
            Some(p) => blob_arg(p),
            None => SqlArg::Null,
        };
        let transient_arg = match transient_id {
            Some(t) => blob_arg(t),
            None => SqlArg::Null,
        };
        let attempt_arg = match attempt_id {
            Some(a) => blob_arg(a),
            None => SqlArg::Null,
        };
        self.exec(
            "INSERT INTO standard_lxmf_propagation_failures
             (code, detail, occurred_at, peer, transient_id, attempt_id)
             VALUES (?1, ?2, ?3, ?4, ?5, ?6)",
            &[text_arg(code), opt_text_arg(detail), int_arg(now), peer_arg, transient_arg, attempt_arg],
        )?;
        self.exec(
            "DELETE FROM standard_lxmf_propagation_failures
             WHERE failure_id NOT IN (
                 SELECT failure_id FROM standard_lxmf_propagation_failures
                 ORDER BY occurred_at DESC, failure_id DESC LIMIT ?1
             )",
            &[int_arg(MAX_FAILURES as i64)],
        )?;
        match peer {
            Some(p) => {
                self.exec(
                    "UPDATE standard_lxmf_propagation_peers
                     SET failure_count = failure_count + 1, last_seen_at = MAX(last_seen_at, ?2)
                     WHERE identity_hash = ?1",
                    &[blob_arg(p), int_arg(now)],
                )?;
            },
            None => {},
        }
        Ok(())
    }

    /// Records a peer seen at `now`, keeping a configured origin as `both`;
    /// an enabled peer is owed every queued item.
    pub(crate) fn upsert_observed_peer(&mut self, peer: &[u8; 16], now: i64) -> (r: Result<(), StoreError>)
        ensures
            crate::propagation_ops::queues_no_item(old(self)@, final(self)@),
            crate::store::extends(old(self)@, final(self)@),
    {
        self.exec(
            "INSERT INTO standard_lxmf_propagation_peers
             (identity_hash, origin, enabled, first_seen_at, last_seen_at)
             VALUES (?1, 'observed', 0, ?2, ?2)
             ON CONFLICT(identity_hash) DO UPDATE SET
                 origin = CASE WHEN origin = 'configured' THEN 'both' ELSE origin END,
                 last_seen_at = MAX(last_seen_at, excluded.last_seen_at)",
            &[blob_arg(peer), int_arg(now)],
        )?;
        let enabled = self.bool_query(
            "SELECT enabled FROM standard_lxmf_propagation_peers WHERE identity_hash = ?1",
            &[blob_arg(peer)],
        )?;
        if enabled {
            self.backfill_peer_items(peer, now)?;
        }
        Ok(())
    }

    /// Marks every queued item unhandled for `peer` unless already tracked.
    pub(crate) fn backfill_peer_items(&mut self, peer: &[u8; 16], now: i64) -> (r: Result<(), StoreError>)
        ensures
            crate::propagation_ops::queues_no_item(old(self)@, final(self)@),
            crate::store::extends(old(self)@, final(self)@),
    {
        self.exec(
            "INSERT INTO standard_lxmf_propagation_peer_items
             (peer, transient_id, disposition, updated_at)
             SELECT ?1, transient_id, 'unhandled', ?2
             FROM standard_lxmf_propagation_items WHERE state = 'queued'
             ON CONFLICT(peer, transient_id) DO NOTHING",
            &[blob_arg(peer), int_arg(now)],
        )?;
        Ok(())
    }

    // ── Outbound jobs and inbound links ─────────────────────────────────

    /// Inserts an outbound job within the caller's transaction; a spooled
    /// job gets its link, offered item and running egress attempt.
    pub(crate) fn spool_outbound_in(
        &mut self,
        job: &StandardPropagationClientJob,
        wire: Option<&WireFacts>,
    ) -> (r: Result<(), StoreError>)
        ensures
            r is Ok ==> outbound_job_ok(*job, match wire {
                Some(w) => Some(*w),
                None => None,
            }),
            !outbound_job_ok(*job, match wire {
                Some(w) => Some(*w),
                None => None,
            }) ==> (r matches Err(e) && e is InvalidParameter),
    {
        let valid_message_id = crate::text::is_lower_hex_of_len(job.message_id.as_str(), 64);
        if !valid_message_id || job.created_at < 0 || job.updated_at < job.created_at || job.stamp_cost > 254
            || job.peering_cost > 254 {
            return Err(invalid("invalid outbound standard propagation job"));
        }
        if str_eq(job.state.as_str(), "preparing") {
            let canonical_wire = match &job.canonical_wire {
                Some(w) => w,
                None => return Err(invalid("preparing propagation job has no canonical wire")),
            };
            let facts = match wire {
                Some(f) => f,
                None => return Err(invalid("preparing propagation job has invalid canonical wire")),
            };
            let id_matches = match &facts.message_id {
                Some(id) => str_eq(id.as_str(), job.message_id.as_str()),
                None => false,
            };
            if job.transient_id.is_some() || job.lxmf_data.is_some() || job.stamp.is_some()
                || !crate::text::bytes_eq(&facts.destination, &job.destination) || !id_matches {
                proof {
                    if facts.destination@ == job.destination@ {
                        assert(facts.destination == job.destination);
                    }
                }
                return Err(invalid("invalid preparing standard propagation job"));
            }
            proof {
                assert(facts.destination =~= job.destination);
            }
            self.exec(
                "INSERT INTO standard_lxmf_propagation_client_jobs
                 (message_id, transient_id, destination, canonical_wire, lxmf_data, stamp, peer,
                  propagation_destination, stamp_cost, peering_cost, correlation_id, attempt_id, state,
                  created_at, updated_at)
                 VALUES (?1, NULL, ?2, ?3, NULL, NULL, ?4, ?5, ?6, ?7, ?8, ?9,
                         'preparing', ?10, ?11)",
                &[
                    text_arg(job.message_id.as_str()),
                    blob_arg(&job.destination),
                    blob_arg(canonical_wire.as_slice()),
                    blob_arg(&job.peer),
                    blob_arg(&job.propagation_destination),
                    int_arg(job.stamp_cost as i64),
                    int_arg(job.peering_cost as i64),
                    blob_arg(&job.correlation_id),
                    blob_arg(&job.attempt_id),
                    int_arg(job.created_at),
                    int_arg(job.updated_at),
                ],
            )?;
            return Ok(());
        }
        let transient_id = match job.transient_id {
            Some(t) => t,
            None => return Err(invalid("materialized propagation job has no transient ID")),
        };
        let lxmf_data = match &job.lxmf_data {
            Some(d) => d,
            None => return Err(invalid("materialized propagation job has no ciphertext")),
        };
        let stamp = match job.stamp {
            Some(s) => s,
            None => return Err(invalid("materialized propagation job has no stamp")),
        };
        if job.canonical_wire.is_some() || !check_materialized(lxmf_data.as_slice(), &job.destination, &transient_id)
            || !str_eq(job.state.as_str(), "spooled") {
            return Err(invalid("invalid outbound standard propagation spool"));
        }
        self.exec(
            "INSERT INTO standard_lxmf_propagation_client_jobs
              (message_id, transient_id, destination, canonical_wire, lxmf_data, stamp, peer,
               propagation_destination, stamp_cost, peering_cost, correlation_id, attempt_id, state,
               created_at, updated_at)
               VALUES (?1, ?2, ?3, NULL, ?4, ?5, ?6, ?7, ?8, ?9, ?10, ?11,
                       'spooled', ?12, ?13)",
            &[
                text_arg(job.message_id.as_str()),
                blob_arg(&transient_id),
                blob_arg(&job.destination),
                blob_arg(lxmf_data.as_slice()),
                blob_arg(&stamp),
                blob_arg(&job.peer),
                blob_arg(&job.propagation_destination),
                int_arg(job.stamp_cost as i64),
                int_arg(job.peering_cost as i64),
                blob_arg(&job.correlation_id),
                blob_arg(&job.attempt_id),
                int_arg(job.created_at),
                int_arg(job.updated_at),
            ],
        )?;
        self.insert_materialized_outbound_children(job, &transient_id)
    }

    pub(crate) fn insert_materialized_outbound_children(
        &mut self,
        job: &StandardPropagationClientJob,
        transient_id: &[u8; 32],
    ) -> (r: Result<(), StoreError>) {
        self.exec(
            "INSERT INTO standard_lxmf_propagation_message_links
             (transient_id, message_id, relation, attempt_id, peer, state, created_at, updated_at)
             VALUES (?1, ?2, 'outbound', ?3, ?4, 'spooled', ?5, ?5)",
            &[
                blob_arg(transient_id),
                text_arg(job.message_id.as_str()),
                blob_arg(&job.attempt_id),
                blob_arg(&job.peer),
                int_arg(job.created_at),
            ],
        )?;
        self.exec(
            "INSERT INTO standard_lxmf_propagation_client_attempt_items
             (attempt_id, transient_id, role, created_at) VALUES (?1, ?2, 'offered', ?3)",
            &[blob_arg(&job.attempt_id), blob_arg(transient_id), int_arg(job.created_at)],
        )?;
        self.exec(
            "INSERT INTO standard_lxmf_propagation_attempts
             (attempt_id, correlation_id, peer, direction, stage, state, started_at, updated_at,
              offered_count, wanted_count, accepted_count, accepted_bytes)
              VALUES (?1, ?2, ?3, 'egress', 'offer', 'running', ?4, ?4, 1, 0, 0, 0)",
            &[blob_arg(&job.attempt_id), blob_arg(&job.correlation_id), blob_arg(&job.peer), int_arg(job.created_at)],
        )?;
        Ok(())
    }

    /// Links a committed inbound message to the transient id it arrived
    /// under, pending acknowledgement to `peer`; a transient id already
    /// linked to another message is refused.
    pub(crate) fn link_inbound_in(
        &mut self,
        message_id: &str,
        transient_id: &[u8; 32],
        attempt_id: &[u8; 16],
        peer: &[u8; 16],
        now: i64,
    ) -> (r: Result<(), StoreError>)
        ensures
            crate::store::extends(old(self)@, final(self)@),
    {
        let message_exists = self.bool_query(
            "SELECT EXISTS(SELECT 1 FROM messages WHERE id = ?1 AND direction = 'in')",
            &[text_arg(message_id)],
        )?;
        if !message_exists {
            return Err(invalid("inbound propagation link has no committed canonical message"));
        }
        let existing = self.opt_text_query(
            "SELECT message_id FROM standard_lxmf_propagation_message_links
             WHERE transient_id = ?1 LIMIT 1",
            &[blob_arg(transient_id)],
        )?;
        match existing {
            Some(other) => if !str_eq(other.as_str(), message_id) {
                return Err(invalid("transient ID is already linked to another canonical message"));
            },
            None => {},
        }
        self.exec(
            "INSERT INTO standard_lxmf_propagation_message_links
             (transient_id, message_id, relation, attempt_id, peer, state, created_at, updated_at)
             VALUES (?1, ?2, 'inbound', ?3, ?4, 'pending_ack', ?5, ?5)
             ON CONFLICT(transient_id, peer, relation) DO UPDATE SET
                 attempt_id = COALESCE(attempt_id, excluded.attempt_id),
                 updated_at = MAX(updated_at, excluded.updated_at)
             WHERE message_id = excluded.message_id AND relation = 'inbound'
               AND state IN ('pending_ack','acknowledged')",
            &[blob_arg(transient_id), text_arg(message_id), blob_arg(attempt_id), blob_arg(peer), int_arg(now)],
        )?;
        self.exec(
            "INSERT OR IGNORE INTO standard_lxmf_propagation_client_attempt_items
             (attempt_id, transient_id, role, created_at) VALUES (?1, ?2, 'returned', ?3)",
            &[blob_arg(attempt_id), blob_arg(transient_id), int_arg(now)],
        )?;
        Ok(())
    }
}

/// The read of the queue's count and stored bytes.
pub const QUEUE_STATS_SQL: &'static str = "SELECT COUNT(*), COALESCE(SUM(stored_size), 0)
             FROM standard_lxmf_propagation_items WHERE state = 'queued'";

/// Whether `call` read the queue's figures and `st` holds what it returned.
pub open spec fn stats_read(call: SqlCall, st: StandardPropagationStats) -> bool {
    &&& call matches SqlCall::Query(q, a, Some(rows))
    &&& q == QUEUE_STATS_SQL@
    &&& a == Seq::<ArgView>::empty()
    &&& rows.len() > 0
    &&& rows[0].len() >= 2
    &&& st.queued_count == int_of(rows[0][0])
    &&& st.stored_bytes == int_of(rows[0][1])
}

/// The read of the running attempts whose deadline has passed at `now`.
pub const DUE_ATTEMPTS_SQL: &'static str = "SELECT attempt_id, peer FROM standard_lxmf_propagation_attempts
             WHERE state = 'running' AND deadline_at IS NOT NULL AND deadline_at <= ?1
             ORDER BY deadline_at, attempt_id";

/// Whether `call` read the attempts due at `now` and found `n` of them.
pub open spec fn due_read(call: SqlCall, now: i64, n: usize) -> bool {
    &&& call matches SqlCall::Query(q, a, Some(rows))
    &&& q == DUE_ATTEMPTS_SQL@
    &&& a == seq![ArgView::Int(now)]
    &&& rows.len() == n
}

} // verus!
