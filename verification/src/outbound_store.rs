//! Outbound messages: their routes and attempts, the evidence that proves
//! delivery, and how a delivery ends — with its receipt, its attachment
//! transfer and its evidence settled together.
use vstd::prelude::*;
use crate::attachment_store::{attachments_ok, len_i64, u64_i64, u64_sat};
use crate::error::{invalid, StoreError};
use crate::lifecycle::{
    lemma_terminal_absorbing, route_admits, route_admits_move, route_move_admitted,
    evidence_kind_for, exact_evidence_state_for, is_terminal_state, progress_percent, stored_evidence_kind,
    terminal_state, transfer_after_finish_for, delivery_progress,
};
use crate::limits::{evidence_ok, validate_evidence, DELIVERY_EVIDENCE_RETENTION_SECS, MAX_DELIVERY_EVIDENCE_PER_MESSAGE, MAX_PEER_KEY_BYTES, TICKET_LENGTH};
use crate::message_rows::{attempt_row, evidence_row, route_row};
use crate::message_store::{fields_arg, route_sql};
use crate::outside::{hex_decode, spec_hex_decode};
use crate::propagation::StandardPropagationClientJob;
use crate::propagation_store::{outbound_job_ok, WireFacts};
use crate::records::{
    AttachmentBlobInput, LxmfTicketOfferReservation, MessageDeliveryEvidenceRecord, MessageRecord,
    OutboundAttemptRecord, OutboundRouteRecord,
};
use crate::sql::{col_text, text_value, ArgView, SqlArg, SqlCall, SqlValue};
use crate::store::{blob_arg, int_arg, opt_text_arg, opt_str, text_arg, unix_time_secs, MessagesStore};
use crate::text::{str_eq, utf8_len};

verus! {

/// Whether a ticket offer reserved for an outbound message can go with it:
/// an issued ticket of the right length for a bounded peer key.
pub open spec fn offer_ticket_ok(reservation: LxmfTicketOfferReservation) -> bool {
    &&& utf8_len(reservation.ticket.peer@) <= MAX_PEER_KEY_BYTES
    &&& reservation.ticket.ticket@.len() == TICKET_LENGTH
    &&& reservation.ticket.direction@ == "issued"@
}

/// The wire facts an optional reference gives.
pub open spec fn facts_of(wire: Option<&WireFacts>) -> Option<WireFacts> {
    match wire {
        Some(w) => Some(*w),
        None => None,
    }
}

/// Whether a propagation job may be spooled with an outbound message: the
/// route goes by propagation, the job is the message's, and it is well formed.
pub open spec fn outbound_propagation_ok(
    message: MessageRecord,
    route: OutboundRouteRecord,
    job: StandardPropagationClientJob,
    wire: Option<WireFacts>,
) -> bool {
    &&& route.actual_method@ == "propagated"@
    &&& job.message_id@ == message.id@
    &&& outbound_job_ok(job, wire)
}

/// Whether the counts of a resource's progress are in range: no more
/// transferred than the total, and both within `i64`.
pub open spec fn progress_ok(transferred: u64, total: u64) -> bool {
    transferred <= total && total <= i64::MAX
}

/// The statement that lists routes.
fn routes_sql() -> (r: &'static str) {
    "SELECT message_id, requested_method, actual_method, representation, fallback_reason, correlation_id, retry_of, deadline_unix_ms, state, attempt_count FROM outbound_routes ORDER BY rowid"
}

/// Reads every route of `rows`.
fn routes_of(rows: &Vec<Vec<SqlValue>>) -> (r: Result<Vec<OutboundRouteRecord>, StoreError>)
    ensures
        r is Ok <==> forall|k: int| 0 <= k < rows@.len() ==> crate::message_rows::route_row_ok(#[trigger] rows@[k]@),
        r matches Ok(v) ==> v@.len() == rows@.len(),
        r matches Ok(v) ==> forall|k: int| 0 <= k < v@.len() ==> crate::message_rows::route_from(rows@[k]@, #[trigger] v@[k]),
{
    let mut out: Vec<OutboundRouteRecord> = Vec::new();
    let mut i: usize = 0;
    while i < rows.len()
        invariant
            i <= rows.len(),
            out@.len() == i,
            forall|k: int| 0 <= k < i ==> crate::message_rows::route_row_ok(#[trigger] rows@[k]@),
            forall|k: int| 0 <= k < i ==> crate::message_rows::route_from(rows@[k]@, #[trigger] out@[k]),
        decreases rows.len() - i,
    {
        out.push(route_row(rows[i].as_slice())?);
        i = i + 1;
    }
    Ok(out)
}

/// Reads every attempt of `rows`.
fn attempts_of(rows: &Vec<Vec<SqlValue>>) -> (r: Result<Vec<OutboundAttemptRecord>, StoreError>)
    ensures
        r is Ok <==> forall|k: int| 0 <= k < rows@.len() ==> crate::message_rows::attempt_row_ok(#[trigger] rows@[k]@),
        r matches Ok(v) ==> v@.len() == rows@.len(),
        r matches Ok(v) ==> forall|k: int| 0 <= k < v@.len() ==> crate::message_rows::attempt_from(rows@[k]@, #[trigger] v@[k]),
{
    let mut out: Vec<OutboundAttemptRecord> = Vec::new();
    let mut i: usize = 0;
    while i < rows.len()
        invariant
            i <= rows.len(),
            out@.len() == i,
            forall|k: int| 0 <= k < i ==> crate::message_rows::attempt_row_ok(#[trigger] rows@[k]@),
            forall|k: int| 0 <= k < i ==> crate::message_rows::attempt_from(rows@[k]@, #[trigger] out@[k]),
        decreases rows.len() - i,
    {
        out.push(attempt_row(rows[i].as_slice())?);
        i = i + 1;
    }
    Ok(out)
}

/// Reads the text pairs of `rows`.
fn pairs_of(rows: &Vec<Vec<SqlValue>>) -> (r: Result<Vec<(String, String)>, StoreError>)
    ensures
        r is Ok <==> forall|k: int| 0 <= k < rows@.len() ==> crate::sql::is_text_col(#[trigger] rows@[k]@, 0)
            && crate::sql::is_text_col(rows@[k]@, 1),
        r matches Err(e) ==> e is InvalidColumn,
        r matches Ok(v) ==> v@.len() == rows@.len(),
        r matches Ok(v) ==> forall|k: int| 0 <= k < v@.len() ==> Some((#[trigger] v@[k]).0@)
            == crate::sql::text_value(rows@[k]@[0]) && Some(v@[k].1@) == crate::sql::text_value(rows@[k]@[1]),
{
    let mut out: Vec<(String, String)> = Vec::new();
    let mut i: usize = 0;
    while i < rows.len()
        invariant
            i <= rows.len(),
            out@.len() == i,
            forall|k: int| 0 <= k < i ==> crate::sql::is_text_col(#[trigger] rows@[k]@, 0)
                && crate::sql::is_text_col(rows@[k]@, 1),
            forall|k: int| 0 <= k < i ==> Some((#[trigger] out@[k]).0@)
                == crate::sql::text_value(rows@[k]@[0]) && Some(out@[k].1@) == crate::sql::text_value(rows@[k]@[1]),
        decreases rows.len() - i,
    {
        let a = col_text(rows[i].as_slice(), 0)?;
        let b = col_text(rows[i].as_slice(), 1)?;
        out.push((a, b));
        i = i + 1;
    }
    Ok(out)
}

impl MessagesStore {
    /// Stores an outbound message with its route.
    pub fn insert_outbound_message(&mut self, message: &MessageRecord, route: &OutboundRouteRecord) -> (r: Result<
        (),
        StoreError,
    >) {
        self.insert_outbound_message_with_ticket_offer(message, route, None)
    }

    /// Stores an outbound message with its route, spending a reserved ticket offer.
    pub fn insert_outbound_message_with_ticket_offer(
        &mut self,
        message: &MessageRecord,
        route: &OutboundRouteRecord,
        reservation: Option<&LxmfTicketOfferReservation>,
    ) -> (r: Result<(), StoreError>)
        ensures
            r is Ok ==> (reservation matches Some(res) ==> offer_ticket_ok(*res)),
    {
        self.insert_outbound_message_with_attachments(message, route, reservation, &[], 0)
    }

    /// Stores an outbound message with its route and attachments.
    pub fn insert_outbound_message_with_attachments(
        &mut self,
        message: &MessageRecord,
        route: &OutboundRouteRecord,
        reservation: Option<&LxmfTicketOfferReservation>,
        attachments: &[AttachmentBlobInput],
        transfer_total: usize,
    ) -> (r: Result<(), StoreError>)
        ensures
            r is Ok ==> attachments_ok(attachments@),
            r is Ok ==> (reservation matches Some(res) ==> offer_ticket_ok(*res)),
    {
        self.insert_outbound_message_with_attachments_and_propagation(
            message,
            route,
            reservation,
            attachments,
            transfer_total,
            None,
            None,
        )
    }

    /// Stores an outbound message in one transaction: the message, its
    /// attachments with a queued outbound transfer of `transfer_total`
    /// bytes, its route and inspection, the propagation job that carries it
    /// (with what the LXMF codec read from a preparing job's wire), and the
    /// ticket offer it spends, whose reservation must still stand.
    pub fn insert_outbound_message_with_attachments_and_propagation(
        &mut self,
        message: &MessageRecord,
        route: &OutboundRouteRecord,
        reservation: Option<&LxmfTicketOfferReservation>,
        attachments: &[AttachmentBlobInput],
        transfer_total: usize,
        propagation: Option<&StandardPropagationClientJob>,
        wire: Option<&WireFacts>,
    ) -> (r: Result<(), StoreError>)
        ensures
            r is Ok ==> attachments_ok(attachments@),
            r is Ok ==> (reservation matches Some(res) ==> offer_ticket_ok(*res)),
            r is Ok ==> (propagation matches Some(job) ==> outbound_propagation_ok(
                *message,
                *route,
                *job,
                facts_of(wire),
            )),
            r is Ok ==> crate::store::succeeded_atomically(old(self)@, final(self)@),
            r is Err ==> crate::store::failed_cleanly(old(self)@, final(self)@),
    {
        self.begin()?;
        let done = self.insert_outbound_step(message, route, reservation, attachments, transfer_total, propagation, wire);
        self.finish(done)
    }

    fn insert_outbound_step(
        &mut self,
        message: &MessageRecord,
        route: &OutboundRouteRecord,
        reservation: Option<&LxmfTicketOfferReservation>,
        attachments: &[AttachmentBlobInput],
        transfer_total: usize,
        propagation: Option<&StandardPropagationClientJob>,
        wire: Option<&WireFacts>,
    ) -> (r: Result<(), StoreError>)
        ensures
            r is Ok ==> attachments_ok(attachments@),
            r is Ok ==> (reservation matches Some(res) ==> offer_ticket_ok(*res)),
            r is Ok ==> (propagation matches Some(job) ==> outbound_propagation_ok(
                *message,
                *route,
                *job,
                facts_of(wire),
            )),
    {
        self.exec(
            "INSERT INTO messages (id, source, destination, title, content, timestamp, direction, fields, receipt_status, read) VALUES (?1, ?2, ?3, ?4, ?5, ?6, ?7, ?8, ?9, ?10)",
            &[
                text_arg(message.id.as_str()),
                text_arg(message.source.as_str()),
                text_arg(message.destination.as_str()),
                text_arg(message.title.as_str()),
                text_arg(message.content.as_str()),
                int_arg(message.timestamp),
                text_arg(message.direction.as_str()),
                fields_arg(&message.fields),
                opt_text_arg(opt_str(&message.receipt_status)),
                int_arg(if message.read { 1 } else { 0 }),
            ],
        )?;
        let now = if message.timestamp > 0 {
            message.timestamp
        } else {
            0
        };
        self.stage_attachment_blobs(message.id.as_str(), attachments, now)?;
        if attachments.len() > 0 {
            self.exec(
                "INSERT INTO attachment_transfers
                 (message_id, transfer_id, representation, direction, state, transferred, total,
                  checksum_verified, error, updated_at)
                 VALUES (?1, ?2, ?3, 'outbound', 'queued', 0, ?4, 0, NULL, ?5)",
                &[
                    text_arg(message.id.as_str()),
                    text_arg(route.correlation_id.as_str()),
                    text_arg(route.representation.as_str()),
                    int_arg(len_i64(transfer_total)),
                    int_arg(now),
                ],
            )?;
        }
        self.exec(
            "INSERT INTO outbound_routes (message_id, requested_method, actual_method, representation, fallback_reason, correlation_id, retry_of, deadline_unix_ms, state, attempt_count) VALUES (?1, ?2, ?3, ?4, ?5, ?6, ?7, ?8, ?9, ?10)",
            &[
                text_arg(route.message_id.as_str()),
                text_arg(route.requested_method.as_str()),
                text_arg(route.actual_method.as_str()),
                text_arg(route.representation.as_str()),
                opt_text_arg(opt_str(&route.fallback_reason)),
                text_arg(route.correlation_id.as_str()),
                opt_text_arg(opt_str(&route.retry_of)),
                int_arg(route.deadline_unix_ms),
                text_arg(route.state.as_str()),
                int_arg(route.attempt_count as i64),
            ],
        )?;
        self.exec(
            "INSERT INTO outbound_message_inspection (message_id, terminal_detail) VALUES (?1, NULL)",
            &[text_arg(route.message_id.as_str())],
        )?;
        match propagation {
            Some(job) => {
                if !str_eq(route.actual_method.as_str(), "propagated") || !str_eq(
                    job.message_id.as_str(),
                    message.id.as_str(),
                ) {
                    return Err(invalid("propagation spool does not match outbound route"));
                }
                self.spool_outbound_in(job, wire)?;
            },
            None => {},
        }
        match reservation {
            Some(res) => {
                let ticket = &res.ticket;
                if ticket.peer.as_str().len() > MAX_PEER_KEY_BYTES || ticket.ticket.len() != TICKET_LENGTH
                    || !str_eq(ticket.direction.as_str(), "issued") {
                    return Err(invalid("invalid outbound LXMF ticket offer"));
                }
                let released = self.exec(
                    "DELETE FROM lxmf_ticket_offer_reservations
                     WHERE peer = ?1 AND reservation_id = ?2",
                    &[text_arg(ticket.peer.as_str()), text_arg(res.reservation_id.as_str())],
                )?;
                if released != 1 {
                    return Err(invalid("LXMF ticket offer reservation is missing or stale"));
                }
                self.exec(
                    "INSERT INTO outbound_ticket_offers
                     (message_id, peer, ticket, expires_at, delivered_at)
                     VALUES (?1, ?2, ?3, ?4, NULL)",
                    &[
                        text_arg(message.id.as_str()),
                        text_arg(ticket.peer.as_str()),
                        blob_arg(ticket.ticket.as_slice()),
                        int_arg(ticket.expires_at),
                    ],
                )?;
            },
            None => {},
        }
        Ok(())
    }

    // ── Routes ──────────────────────────────────────────────────────────

    /// The route of a message, if it has one.
    pub fn outbound_route(&mut self, message_id: &str) -> (r: Result<Option<OutboundRouteRecord>, StoreError>) {
        match self.first_row(route_sql(), &[text_arg(message_id)])? {
            Some(row) => Ok(Some(route_row(row.as_slice())?)),
            None => Ok(None),
        }
    }

    /// Every route, in the order they were stored.
    pub fn outbound_routes(&mut self) -> (r: Result<Vec<OutboundRouteRecord>, StoreError>) {
        let rows = self.rows(routes_sql(), &[])?;
        routes_of(&rows)
    }

    /// The route of the retry of a message, if one was made.
    pub fn outbound_retry_for(&mut self, message_id: &str) -> (r: Result<Option<OutboundRouteRecord>, StoreError>) {
        match self.first_row(
            "SELECT message_id, requested_method, actual_method, representation, fallback_reason, correlation_id, retry_of, deadline_unix_ms, state, attempt_count FROM outbound_routes WHERE retry_of = ?1",
            &[text_arg(message_id)],
        )? {
            Some(row) => Ok(Some(route_row(row.as_slice())?)),
            None => Ok(None),
        }
    }

    // ── Evidence ────────────────────────────────────────────────────────

    /// Tracks evidence of delivery — a packet receipt or a resource hash, as
    /// 64 lowercase hex digits — for a message whose route is live, uses that
    /// representation and has begun an attempt. At most 32 records are kept
    /// per message; a resource's hash becomes that of its attachment
    /// transfer. True when the evidence is new.
    pub fn track_outbound_evidence(&mut self, evidence_id: &str, message_id: &str, kind: &str) -> (r: Result<
        bool,
        StoreError,
    >)
        ensures
            !evidence_ok(evidence_id@, kind@) ==> (r matches Err(e) && e is InvalidParameter),
            !evidence_ok(evidence_id@, kind@) ==> final(self)@ == old(self)@,
            r is Ok ==> crate::store::succeeded_atomically(old(self)@, final(self)@),
            r is Err ==> crate::store::failed_cleanly(old(self)@, final(self)@),
    {
        validate_evidence(evidence_id, kind)?;
        self.begin()?;
        let done = self.track_evidence_step(evidence_id, message_id, kind);
        self.finish(done)
    }

    fn track_evidence_step(&mut self, evidence_id: &str, message_id: &str, kind: &str) -> (r: Result<bool, StoreError>)
        requires
            evidence_ok(evidence_id@, kind@),
    {
        let count = self.exec(
            "INSERT INTO outbound_evidence (evidence_id, message_id, kind)
             SELECT ?1, ?2, ?3 WHERE EXISTS (
                  SELECT 1 FROM outbound_routes WHERE message_id = ?2
                    AND representation = ?3
                    AND attempt_count BETWEEN 1 AND 32
                    AND state NOT IN ('delivered', 'failed', 'cancelled', 'expired', 'rejected')
             ) ON CONFLICT(evidence_id) DO NOTHING",
            &[text_arg(evidence_id), text_arg(message_id), text_arg(kind)],
        )?;
        if count > 0 {
            let evidence_kind = if str_eq(kind, "packet") {
                "packet_receipt"
            } else {
                "resource_completion"
            };
            self.exec(
                "INSERT INTO message_delivery_evidence
                 (evidence_hash, message_id, kind, representation, state, outcome,
                   attempt_number, correlation_id, observed_at, terminal_at,
                   transferred_bytes, total_bytes, progress)
                  SELECT ?1, r.message_id, ?4, r.representation, 'tracked', NULL,
                         r.attempt_count, r.correlation_id,
                         CAST(strftime('%s','now') AS INTEGER), NULL, NULL, NULL, NULL
                 FROM outbound_routes r WHERE r.message_id = ?2 AND r.representation = ?3",
                &[text_arg(evidence_id), text_arg(message_id), text_arg(kind), text_arg(evidence_kind)],
            )?;
            let keep = int_arg(MAX_DELIVERY_EVIDENCE_PER_MESSAGE as i64);
            self.exec(
                "DELETE FROM outbound_evidence
                 WHERE evidence_id IN (
                     SELECT evidence_hash FROM message_delivery_evidence WHERE message_id = ?1
                     ORDER BY observed_at DESC, evidence_hash DESC LIMIT -1 OFFSET ?2
                 )",
                &[text_arg(message_id), keep.clone()],
            )?;
            self.exec(
                "DELETE FROM message_delivery_evidence
                 WHERE message_id = ?1 AND evidence_hash IN (
                     SELECT evidence_hash FROM message_delivery_evidence WHERE message_id = ?1
                     ORDER BY observed_at DESC, evidence_hash DESC LIMIT -1 OFFSET ?2
                 )",
                &[text_arg(message_id), keep],
            )?;
            self.exec(
                "DELETE FROM outbound_evidence
                 WHERE evidence_id IN (
                     SELECT evidence_hash FROM message_delivery_evidence
                     WHERE terminal_at IS NOT NULL
                       AND terminal_at <= CAST(strftime('%s','now') AS INTEGER) - ?1
                 )",
                &[int_arg(DELIVERY_EVIDENCE_RETENTION_SECS)],
            )?;
            self.exec(
                "DELETE FROM message_delivery_evidence
                 WHERE terminal_at IS NOT NULL AND terminal_at <= CAST(strftime('%s','now') AS INTEGER) - ?1",
                &[int_arg(DELIVERY_EVIDENCE_RETENTION_SECS)],
            )?;
        }
        let has_attachment_transfer = count > 0 && str_eq(kind, "resource") && self.bool_query(
            "SELECT EXISTS(SELECT 1 FROM attachment_transfers WHERE message_id = ?1)",
            &[text_arg(message_id)],
        )?;
        if has_attachment_transfer {
            let resource_hash = match hex_decode(evidence_id) {
                Some(bytes) => bytes,
                None => return Err(invalid("resource evidence is not hex")),
            };
            if resource_hash.len() != 32 {
                return Err(invalid("resource evidence hash must be 32 bytes"));
            }
            self.exec(
                "UPDATE attachment_transfers SET resource_hash = ?2 WHERE message_id = ?1",
                &[text_arg(message_id), blob_arg(resource_hash.as_slice())],
            )?;
            self.exec(
                "UPDATE message_attachments SET resource_hash = ?2, transfer_id = (
                     SELECT transfer_id FROM attachment_transfers WHERE message_id = ?1
                 ) WHERE message_id = ?1",
                &[text_arg(message_id), blob_arg(resource_hash.as_slice())],
            )?;
        }
        Ok(count > 0)
    }

    /// The message and kind that tracked evidence belongs to.
    pub fn outbound_evidence(&mut self, evidence_id: &str) -> (r: Result<Option<(String, String)>, StoreError>) {
        match self.first_row(
            "SELECT message_id, kind FROM outbound_evidence WHERE evidence_id = ?1",
            &[text_arg(evidence_id)],
        )? {
            Some(row) => {
                let message_id = col_text(row.as_slice(), 0)?;
                let kind = col_text(row.as_slice(), 1)?;
                Ok(Some((message_id, kind)))
            },
            None => Ok(None),
        }
    }

    /// The latest tracked evidence of a kind for a message.
    pub fn outbound_evidence_for_message(&mut self, message_id: &str, kind: &str) -> (r: Result<
        Option<(String, String)>,
        StoreError,
    >) {
        match self.first_row(
            "SELECT evidence_id, kind FROM outbound_evidence WHERE message_id = ?1 AND kind = ?2 ORDER BY rowid DESC LIMIT 1",
            &[text_arg(message_id), text_arg(kind)],
        )? {
            Some(row) => {
                let evidence_id = col_text(row.as_slice(), 0)?;
                let found_kind = col_text(row.as_slice(), 1)?;
                Ok(Some((evidence_id, found_kind)))
            },
            None => Ok(None),
        }
    }

    /// Records the progress of a tracked resource: transferred and total
    /// bytes and the whole percent, at most 100. True when evidence was updated.
    pub fn update_delivery_evidence_progress(&mut self, evidence_hash: &str, transferred: u64, total: u64) -> (r: Result<
        bool,
        StoreError,
    >)
        ensures
            !progress_ok(transferred, total) ==> (r matches Err(e) && e is InvalidParameter),
            !progress_ok(transferred, total) ==> final(self)@ == old(self)@,
    {
        if transferred > total {
            return Err(invalid("resource evidence progress exceeds total"));
        }
        if transferred > i64::MAX as u64 {
            return Err(invalid("resource evidence progress exceeds SQLite range"));
        }
        if total > i64::MAX as u64 {
            return Err(invalid("resource evidence total exceeds SQLite range"));
        }
        let t = transferred as i64;
        let n = total as i64;
        let progress = delivery_progress(t, n);
        let changed = self.exec(
            "UPDATE message_delivery_evidence
             SET transferred_bytes = ?2, total_bytes = ?3, progress = ?4
             WHERE evidence_hash = ?1 AND kind = 'resource_completion'
               AND representation = 'resource' AND state = 'tracked'",
            &[text_arg(evidence_hash), int_arg(t), int_arg(n), int_arg(progress)],
        )?;
        Ok(changed > 0)
    }

    /// The resource evidence of live routes whose deadline has passed, as
    /// `(message id, evidence id)` pairs.
    pub fn due_outbound_resource_evidence(&mut self, now_unix_ms: i64) -> (r: Result<Vec<(String, String)>, StoreError>) {
        let rows = self.rows(
            "SELECT r.message_id, e.evidence_id
             FROM outbound_routes r
             JOIN outbound_evidence e ON e.message_id = r.message_id AND e.kind = 'resource'
             WHERE r.deadline_unix_ms <= ?1
               AND r.state NOT IN ('delivered', 'failed', 'cancelled', 'expired', 'rejected')
             ORDER BY r.message_id, e.rowid DESC",
            &[int_arg(now_unix_ms)],
        )?;
        pairs_of(&rows)
    }

    // ── Attempts and how deliveries end ─────────────────────────────────

    /// Starts an attempt on a live route: the route becomes `sending` with
    /// the attempt's number, and a queued attachment transfer starts. False
    /// when the route is missing or terminal.
    pub fn begin_outbound_attempt(&mut self, attempt: &OutboundAttemptRecord) -> (r: Result<bool, StoreError>)
        ensures
            r matches Ok(b) ==> final(self)@.len() > old(self)@.len() + 1 && attempt_started(
                final(self)@[old(self)@.len() + 1int],
                *attempt,
                b,
            ),
            r is Ok ==> crate::store::succeeded_atomically(old(self)@, final(self)@),
            r is Err ==> crate::store::failed_cleanly(old(self)@, final(self)@),
    {
        self.begin()?;
        let ghost began = self@;
        let done = self.begin_attempt_step(attempt);
        let ghost stepped = self@;
        let out = self.finish(done);
        proof {
            if out is Ok {
                assert(self@[began.len() as int] == stepped[began.len() as int]);
            }
        }
        out
    }

    fn begin_attempt_step(&mut self, attempt: &OutboundAttemptRecord) -> (r: Result<bool, StoreError>)
        ensures
            r matches Ok(b) ==> final(self)@.len() > old(self)@.len() && attempt_started(
                final(self)@[old(self)@.len() as int],
                *attempt,
                b,
            ),
    {
        let route_args = [text_arg(attempt.message_id.as_str()), int_arg(attempt.attempt_number as i64)];
        assert(crate::sql::args_view(route_args@) =~= seq![
            ArgView::Text(attempt.message_id@),
            ArgView::Int(attempt.attempt_number as i64),
        ]);
        let changed = self.exec(ATTEMPT_ROUTE_SQL, &route_args)?;
        let ghost started = self@;
        let ghost at: int = old(self)@.len() as int;
        if changed == 0 {
            return Ok(false);
        }
        self.exec(
            "INSERT INTO outbound_attempts (message_id, attempt_number, started_unix_ms, deadline_unix_ms, state) VALUES (?1, ?2, ?3, ?4, ?5)",
            &[
                text_arg(attempt.message_id.as_str()),
                int_arg(attempt.attempt_number as i64),
                int_arg(attempt.started_unix_ms),
                int_arg(attempt.deadline_unix_ms),
                text_arg(attempt.state.as_str()),
            ],
        )?;
        self.exec(
            "UPDATE attachment_transfers SET state = 'transferring', updated_at = ?2
             WHERE message_id = ?1 AND state = 'queued'",
            &[text_arg(attempt.message_id.as_str()), int_arg(attempt.started_unix_ms / 1000)],
        )?;
        assert(self@[at] == started[at]);
        Ok(true)
    }

    /// Moves a delivery to `state` with its receipt status.
    pub fn finish_outbound(&mut self, message_id: &str, state: &str, receipt_status: &str) -> (r: Result<
        bool,
        StoreError,
    >)
        ensures
            r == Ok::<bool, StoreError>(true) ==> route_move_admitted(state@, receipt_status@),
            r matches Ok(b) ==> final(self)@.len() > old(self)@.len() + 1 && finish_decided(
                final(self)@[old(self)@.len() + 1int],
                message_id@,
                state@,
                receipt_status@,
                b,
            ),
    {
        self.finish_outbound_with_detail(message_id, state, receipt_status, None)
    }

    /// Moves a delivery to `state` with its receipt status and, for a
    /// terminal state, a detail of why.
    pub fn finish_outbound_with_detail(
        &mut self,
        message_id: &str,
        state: &str,
        receipt_status: &str,
        terminal_detail: Option<&str>,
    ) -> (r: Result<bool, StoreError>)
        ensures
            r == Ok::<bool, StoreError>(true) ==> route_move_admitted(state@, receipt_status@),
            r matches Ok(b) ==> final(self)@.len() > old(self)@.len() + 1 && finish_decided(
                final(self)@[old(self)@.len() + 1int],
                message_id@,
                state@,
                receipt_status@,
                b,
            ),
    {
        self.finish_outbound_with_detail_and_evidence(message_id, state, receipt_status, terminal_detail, None)
    }

    /// Moves a delivery to `state` on the strength of one piece of tracked
    /// evidence, which must belong to the message's current attempt and
    /// representation; false when it does not, or its kind is unknown.
    pub fn finish_outbound_with_exact_evidence(
        &mut self,
        message_id: &str,
        state: &str,
        receipt_status: &str,
        terminal_detail: Option<&str>,
        evidence_hash: &str,
        evidence_kind: &str,
    ) -> (r: Result<bool, StoreError>)
        ensures
            stored_evidence_kind(evidence_kind@) is None ==> r == Ok::<bool, StoreError>(false),
            r == Ok::<bool, StoreError>(true) ==> route_move_admitted(state@, receipt_status@),
    {
        self.finish_outbound_with_detail_and_evidence(
            message_id,
            state,
            receipt_status,
            terminal_detail,
            Some((evidence_hash, evidence_kind)),
        )
    }

    /// How a delivery ends or is handed on. `sent` applies to a queued or
    /// sending route, or again to a sent one whose receipt changes; any other
    /// state applies only to a route that is not terminal. With it go the
    /// message's receipt status, the detail (kept only for states other than
    /// `sent`), the state of the latest attempt, the attachment transfer, and
    /// — for a terminal state — the settling of all tracked evidence.
    fn finish_outbound_with_detail_and_evidence(
        &mut self,
        message_id: &str,
        state: &str,
        receipt_status: &str,
        terminal_detail: Option<&str>,
        exact_evidence: Option<(&str, &str)>,
    ) -> (r: Result<bool, StoreError>)
        ensures
            (exact_evidence matches Some((h, k)) && stored_evidence_kind(k@) is None) ==> r == Ok::<
                bool,
                StoreError,
            >(false),
            r == Ok::<bool, StoreError>(true) ==> route_move_admitted(state@, receipt_status@),
            exact_evidence is None ==> (r matches Ok(b) ==> final(self)@.len() > old(self)@.len() + 1 && finish_decided(
                final(self)@[old(self)@.len() + 1int],
                message_id@,
                state@,
                receipt_status@,
                b,
            )),
            r == Ok::<bool, StoreError>(true) && exact_evidence is Some ==> final(self)@.len() > old(self)@.len() + 2
                && finish_decided(final(self)@[old(self)@.len() + 2int], message_id@, state@, receipt_status@, true),
            r is Ok ==> crate::store::succeeded_atomically(old(self)@, final(self)@),
            r is Err ==> crate::store::failed_cleanly(old(self)@, final(self)@),
    {
        match exact_evidence {
            Some((_, kind)) => {
                if evidence_kind_for(kind).is_none() {
                    return Ok(false);
                }
            },
            None => {},
        }
        self.begin()?;
        let done = self.finish_outbound_step(message_id, state, receipt_status, terminal_detail, exact_evidence);
        self.finish(done)
    }

    fn finish_outbound_step(
        &mut self,
        message_id: &str,
        state: &str,
        receipt_status: &str,
        terminal_detail: Option<&str>,
        exact_evidence: Option<(&str, &str)>,
    ) -> (r: Result<bool, StoreError>)
        ensures
            r == Ok::<bool, StoreError>(true) ==> route_move_admitted(state@, receipt_status@),
            exact_evidence is None ==> (r matches Ok(b) ==> final(self)@.len() > old(self)@.len() && finish_decided(
                final(self)@[old(self)@.len() as int],
                message_id@,
                state@,
                receipt_status@,
                b,
            )),
            r == Ok::<bool, StoreError>(true) && exact_evidence is Some ==> final(self)@.len() > old(self)@.len() + 1
                && finish_decided(final(self)@[old(self)@.len() + 1int], message_id@, state@, receipt_status@, true),
    {
        match exact_evidence {
            Some((evidence_hash, evidence_kind)) => {
                let stored_kind = match evidence_kind_for(evidence_kind) {
                    Some(k) => k,
                    None => return Ok(false),
                };
                let exact = self.bool_query(
                    "SELECT EXISTS(
                        SELECT 1 FROM message_delivery_evidence e
                        JOIN outbound_evidence o ON o.evidence_id = e.evidence_hash
                        JOIN outbound_routes r ON r.message_id = e.message_id
                        JOIN outbound_attempts a ON a.message_id = e.message_id
                            AND a.attempt_number = e.attempt_number
                        WHERE e.evidence_hash = ?1 AND e.message_id = ?2
                          AND e.kind = ?3 AND e.representation = ?4 AND e.state = 'tracked'
                          AND o.message_id = e.message_id AND o.kind = ?4
                          AND r.representation = ?4
                    )",
                    &[text_arg(evidence_hash), text_arg(message_id), text_arg(stored_kind.as_str()), text_arg(evidence_kind)],
                )?;
                if !exact {
                    return Ok(false);
                }
            },
            None => {},
        }
        let sent = str_eq(state, "sent");
        let ghost read_at = self@.len();
        let route_args = [text_arg(message_id)];
        assert(crate::sql::args_view(route_args@) =~= seq![ArgView::Text(message_id@)]);
        let route = match self.first_row(FINISH_ROUTE_SQL, &route_args)? {
            Some(row) => row,
            None => return Ok(false),
        };
        let ghost read = self@;
        let current = col_text(route.as_slice(), 0)?;
        let stored_receipt = col_text(route.as_slice(), 1)?;
        if !route_admits_move(current.as_str(), stored_receipt.as_str(), state, receipt_status) {
            return Ok(false);
        }
        assert(finish_decided(read[read_at as int], message_id@, state@, receipt_status@, true));
        proof {
            if terminal_state(current@) {
                lemma_terminal_absorbing(current@, stored_receipt@, state@, receipt_status@);
            }
            assert(route_admits(current@, stored_receipt@, state@, receipt_status@) && !terminal_state(current@));
        }
        self.exec(
            "UPDATE outbound_routes SET state = ?2 WHERE message_id = ?1",
            &[text_arg(message_id), text_arg(state)],
        )?;
        self.exec(
            "UPDATE messages SET receipt_status = ?2 WHERE id = ?1",
            &[text_arg(message_id), text_arg(receipt_status)],
        )?;
        let detail = if sent {
            SqlArg::Null
        } else {
            opt_text_arg(terminal_detail)
        };
        self.exec(
            "UPDATE outbound_message_inspection SET terminal_detail = ?2 WHERE message_id = ?1",
            &[text_arg(message_id), detail],
        )?;
        self.exec(
            "UPDATE outbound_attempts SET state = ?2 WHERE message_id = ?1 AND attempt_number = (SELECT MAX(attempt_number) FROM outbound_attempts WHERE message_id = ?1)",
            &[text_arg(message_id), text_arg(state)],
        )?;
        match transfer_after_finish_for(state, receipt_status) {
            Some((transfer_state, error)) => {
                self.exec(
                    "UPDATE attachment_transfers
                     SET state = ?2,
                         transferred = CASE WHEN ?2 = 'completed' THEN total ELSE transferred END,
                         checksum_verified = CASE WHEN ?2 = 'completed' THEN 1 ELSE checksum_verified END,
                         error = ?3,
                         updated_at = CAST(strftime('%s','now') AS INTEGER)
                     WHERE message_id = ?1 AND state NOT IN ('completed', 'failed', 'cancelled')",
                    &[text_arg(message_id), text_arg(transfer_state.as_str()), opt_text_arg(opt_str(&error))],
                )?;
            },
            None => {
                if sent {
                    self.exec(
                        "UPDATE attachment_transfers
                         SET state = 'completed', transferred = total, checksum_verified = 1,
                             updated_at = CAST(strftime('%s','now') AS INTEGER)
                         WHERE message_id = ?1 AND representation = 'packet'
                           AND state NOT IN ('completed', 'failed', 'cancelled')",
                        &[text_arg(message_id)],
                    )?;
                }
            },
        }
        if is_terminal_state(state) {
            let now = unix_time_secs();
            match exact_evidence {
                Some((evidence_hash, evidence_kind)) => {
                    let stored_kind = if str_eq(evidence_kind, "packet") {
                        "packet_receipt"
                    } else {
                        "resource_completion"
                    };
                    let exact_state = exact_evidence_state_for(state);
                    self.exec(
                        "UPDATE message_delivery_evidence
                         SET state = ?4, outcome = ?5, terminal_at = ?6,
                             transferred_bytes = CASE WHEN representation = 'resource' AND ?4 = 'completed' THEN COALESCE(total_bytes, transferred_bytes) ELSE transferred_bytes END,
                             progress = CASE WHEN representation = 'resource' AND ?4 = 'completed' AND total_bytes IS NOT NULL THEN 100 ELSE progress END
                         WHERE evidence_hash = ?1 AND message_id = ?2 AND kind = ?3 AND state = 'tracked'",
                        &[
                            text_arg(evidence_hash),
                            text_arg(message_id),
                            text_arg(stored_kind),
                            text_arg(exact_state.as_str()),
                            opt_text_arg(terminal_detail),
                            int_arg(now),
                        ],
                    )?;
                    self.exec(
                        "UPDATE message_delivery_evidence
                         SET state = CASE WHEN ?2 = 'cancelled' THEN 'cancelled' ELSE 'failed' END,
                             outcome = 'message terminalized by different exact evidence', terminal_at = ?3
                         WHERE message_id = ?1 AND evidence_hash != ?4 AND state = 'tracked'",
                        &[text_arg(message_id), text_arg(state), int_arg(now), text_arg(evidence_hash)],
                    )?;
                },
                None => {
                    let evidence_state = if str_eq(state, "cancelled") {
                        "cancelled"
                    } else {
                        "failed"
                    };
                    self.exec(
                        "UPDATE message_delivery_evidence
                         SET state = ?2, outcome = ?3, terminal_at = ?4
                         WHERE message_id = ?1 AND state = 'tracked'",
                        &[text_arg(message_id), text_arg(evidence_state), opt_text_arg(terminal_detail), int_arg(now)],
                    )?;
                },
            }
            self.exec("DELETE FROM outbound_evidence WHERE message_id = ?1", &[text_arg(message_id)])?;
        }
        Ok(true)
    }

    /// The delivery evidence of a message, oldest first, at most 32, after
    /// pruning what is past retention.
    pub fn message_delivery_evidence(&mut self, message_id: &str) -> (r: Result<
        Vec<MessageDeliveryEvidenceRecord>,
        StoreError,
    >)
        ensures
            r matches Ok(v) ==> v@.len() <= MAX_DELIVERY_EVIDENCE_PER_MESSAGE,
    {
        self.prune_delivery_evidence(unix_time_secs())?;
        let rows = self.rows(
            "SELECT message_id, kind, evidence_hash, representation, state, outcome,
                    attempt_number, correlation_id, observed_at, terminal_at,
                    transferred_bytes, total_bytes, progress
             FROM message_delivery_evidence WHERE message_id = ?1
             ORDER BY observed_at, evidence_hash LIMIT ?2",
            &[text_arg(message_id), int_arg(MAX_DELIVERY_EVIDENCE_PER_MESSAGE as i64)],
        )?;
        let mut out: Vec<MessageDeliveryEvidenceRecord> = Vec::new();
        let mut i: usize = 0;
        while i < rows.len() && i < MAX_DELIVERY_EVIDENCE_PER_MESSAGE
            invariant
                i <= rows.len(),
                i <= MAX_DELIVERY_EVIDENCE_PER_MESSAGE,
                out@.len() == i,
            decreases rows.len() - i,
        {
            out.push(evidence_row(rows[i].as_slice())?);
            i = i + 1;
        }
        Ok(out)
    }

    /// The detail recorded when a message's delivery ended, if any.
    pub fn outbound_terminal_detail(&mut self, message_id: &str) -> (r: Result<Option<String>, StoreError>) {
        match self.first_row(
            "SELECT terminal_detail FROM outbound_message_inspection WHERE message_id = ?1",
            &[text_arg(message_id)],
        )? {
            Some(row) => crate::sql::col_opt_text(row.as_slice(), 0),
            None => Ok(None),
        }
    }

    /// The attempts of a message, by number.
    pub fn outbound_attempts(&mut self, message_id: &str) -> (r: Result<Vec<OutboundAttemptRecord>, StoreError>) {
        let rows = self.rows(
            "SELECT message_id, attempt_number, started_unix_ms, deadline_unix_ms, state FROM outbound_attempts WHERE message_id = ?1 ORDER BY attempt_number",
            &[text_arg(message_id)],
        )?;
        attempts_of(&rows)
    }

    /// Every attempt of the routes that share a correlation id.
    pub fn outbound_attempts_for_correlation(&mut self, correlation_id: &str) -> (r: Result<
        Vec<OutboundAttemptRecord>,
        StoreError,
    >) {
        self.attempts_of_correlation(correlation_id)
    }

    /// Brings outbound state up to date after a restart: prunes old
    /// evidence, expires live routes past their deadline (with their attempts
    /// and receipts), and requeues routes that were sending when the process
    /// stopped, interrupting their attempts.
    pub fn reconcile_outbound_startup(&mut self, now_unix_ms: i64) -> (r: Result<(), StoreError>)
        ensures
            r is Ok ==> crate::store::succeeded_atomically(old(self)@, final(self)@),
            r is Err ==> crate::store::failed_cleanly(old(self)@, final(self)@),
    {
        self.begin()?;
        let done = self.reconcile_outbound_step(now_unix_ms);
        self.finish(done)
    }

    fn reconcile_outbound_step(&mut self, now_unix_ms: i64) -> (r: Result<(), StoreError>) {
        let now_secs = if now_unix_ms > 0 {
            now_unix_ms / 1000
        } else {
            0
        };
        self.prune_delivery_evidence_in_transaction(now_secs)?;
        let now = int_arg(now_unix_ms);
        self.exec(
            "UPDATE outbound_attempts SET state = 'expired' WHERE message_id IN (
                SELECT message_id FROM outbound_routes
                WHERE deadline_unix_ms <= ?1 AND state NOT IN ('delivered', 'failed', 'cancelled', 'expired', 'rejected')
            )",
            &[now.clone()],
        )?;
        self.exec(
            "UPDATE messages SET receipt_status = 'expired' WHERE id IN (
                SELECT message_id FROM outbound_routes
                WHERE deadline_unix_ms <= ?1 AND state NOT IN ('delivered', 'failed', 'cancelled', 'expired', 'rejected')
            )",
            &[now.clone()],
        )?;
        self.exec(
            "UPDATE outbound_routes SET state = 'expired' WHERE deadline_unix_ms <= ?1 AND state NOT IN ('delivered', 'failed', 'cancelled', 'expired', 'rejected')",
            &[now.clone()],
        )?;
        self.exec(
            "UPDATE outbound_attempts SET state = 'interrupted' WHERE message_id IN (
                SELECT message_id FROM outbound_routes WHERE state = 'sending' AND deadline_unix_ms > ?1
            ) AND state = 'sending'",
            &[now.clone()],
        )?;
        self.exec(
            "UPDATE messages SET receipt_status = 'queued: recovered' WHERE id IN (
                SELECT message_id FROM outbound_routes WHERE state = 'sending' AND deadline_unix_ms > ?1
            )",
            &[now.clone()],
        )?;
        self.exec(
            "UPDATE outbound_routes SET state = 'queued' WHERE state = 'sending' AND deadline_unix_ms > ?1",
            &[now],
        )?;
        Ok(())
    }

    /// Expires every live route past its deadline, with its unfinished
    /// attempts and its message's receipt; returns the message ids, sorted.
    pub fn expire_outbound_routes(&mut self, now_unix_ms: i64) -> (r: Result<Vec<String>, StoreError>)
        ensures
            r is Ok ==> crate::store::succeeded_atomically(old(self)@, final(self)@),
            r is Err ==> crate::store::failed_cleanly(old(self)@, final(self)@),
    {
        self.begin()?;
        let done = self.expire_routes_step(now_unix_ms);
        self.finish(done)
    }

    fn expire_routes_step(&mut self, now_unix_ms: i64) -> (r: Result<Vec<String>, StoreError>) {
        let rows = self.rows(
            "SELECT message_id FROM outbound_routes WHERE deadline_unix_ms <= ?1 AND state NOT IN ('delivered', 'failed', 'cancelled', 'expired', 'rejected') ORDER BY message_id",
            &[int_arg(now_unix_ms)],
        )?;
        let ids = crate::message_store::ids_of(&rows, rows.len())?;
        let mut k: usize = 0;
        while k < ids.len()
            invariant
                k <= ids.len(),
            decreases ids.len() - k,
        {
            let id = ids[k].as_str();
            self.exec("UPDATE outbound_routes SET state = 'expired' WHERE message_id = ?1", &[text_arg(id)])?;
            self.exec(
                "UPDATE outbound_attempts SET state = 'expired' WHERE message_id = ?1 AND state NOT IN ('delivered', 'failed', 'cancelled', 'expired')",
                &[text_arg(id)],
            )?;
            self.exec("UPDATE messages SET receipt_status = 'expired' WHERE id = ?1", &[text_arg(id)])?;
            k = k + 1;
        }
        Ok(ids)
    }
}

/// The read of a route's state and stored receipt that decides whether a
/// delivery may finish.
pub const FINISH_ROUTE_SQL: &'static str = "SELECT r.state, COALESCE(m.receipt_status, '') FROM outbound_routes r
             LEFT JOIN messages m ON m.id = r.message_id WHERE r.message_id = ?1";

/// Whether the first of `rows` is a route whose state and stored receipt
/// admit the move to `state` with `receipt`.
pub open spec fn route_rows_admit(rows: Seq<Seq<SqlValue>>, state: Seq<char>, receipt: Seq<char>) -> bool {
    &&& rows.len() > 0
    &&& text_value(rows[0][0]) is Some
    &&& text_value(rows[0][1]) is Some
    &&& route_admits(text_value(rows[0][0])->0, text_value(rows[0][1])->0, state, receipt)
}

/// Whether `call` read the route of `message_id` and the outcome `b` is
/// what the route it found admits.
pub open spec fn finish_decided(call: SqlCall, message_id: Seq<char>, state: Seq<char>, receipt: Seq<char>, b: bool) -> bool {
    &&& call matches SqlCall::Query(q, a, Some(rows))
    &&& q == FINISH_ROUTE_SQL@
    &&& a == seq![ArgView::Text(message_id)]
    &&& (b <==> route_rows_admit(rows, state, receipt))
}

/// The statement that moves a live route to `sending` for an attempt.
pub const ATTEMPT_ROUTE_SQL: &'static str = "UPDATE outbound_routes SET state = 'sending', attempt_count = ?2 WHERE message_id = ?1 AND state NOT IN ('delivered', 'failed', 'cancelled', 'expired', 'rejected')";

/// Whether `call` moved the route of `attempt`'s message to `sending`, and
/// `b` says that a live route was there: true exactly when a row changed.
pub open spec fn attempt_started(call: SqlCall, attempt: OutboundAttemptRecord, b: bool) -> bool {
    &&& call matches SqlCall::Execute(q, a, Some(n))
    &&& q == ATTEMPT_ROUTE_SQL@
    &&& a == seq![ArgView::Text(attempt.message_id@), ArgView::Int(attempt.attempt_number as i64)]
    &&& (b <==> n != 0)
}

} // verus!
