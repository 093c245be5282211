//! LXMF stamps and tickets: the local stamp policy, the costs peers
//! announce, delivery tickets issued and received, and the offers of
//! tickets that ride along with outbound messages.
use vstd::prelude::*;
use crate::error::{invalid, StoreError};
use crate::limits::{
    ticket_ok, validate_ticket, MAX_PEER_KEY_BYTES, MAX_RETAINED_TICKETS, MAX_STAMP_COST, TICKET_GRACE_SECS,
};
use crate::message_rows::{ticket_row, ticket_row_ok};
use crate::records::{LxmfStampPolicy, LxmfTicketRecord};
use crate::sql::{blob_of, col_blob, col_opt_u32, col_u32, int_of, text_value, ArgView, SqlCall, SqlValue};
use crate::store::{blob_arg, int_arg, text_arg, MessagesStore};
use crate::text::{str_eq, utf8_len};

verus! {

/// How long a peer's announced stamp cost stays valid.
pub const STAMP_COST_EXPIRY_SECS: i64 = 45 * 24 * 60 * 60;
/// How often a peer is offered a new ticket.
pub const TICKET_INTERVAL_SECS: i64 = 24 * 60 * 60;
/// How long a ticket offer stays reserved for a message being prepared.
pub const TICKET_RESERVATION_TTL_SECS: i64 = 5 * 60;

/// Whether a stamp policy is within the largest stamp cost.
pub open spec fn policy_ok(policy: LxmfStampPolicy) -> bool {
    policy.target_cost <= MAX_STAMP_COST && policy.flexibility <= MAX_STAMP_COST
}

/// Whether a learned peer cost is acceptable: a bounded peer key and a cost
/// within the largest stamp cost.
pub open spec fn peer_cost_ok(peer: Seq<char>, cost: u32) -> bool {
    utf8_len(peer) <= MAX_PEER_KEY_BYTES && cost <= MAX_STAMP_COST
}

/// Whether a reservation's peer and id are bounded keys.
pub open spec fn reservation_ok(peer: Seq<char>, reservation_id: Seq<char>) -> bool {
    utf8_len(peer) <= MAX_PEER_KEY_BYTES && utf8_len(reservation_id) <= MAX_PEER_KEY_BYTES
}

impl MessagesStore {
    /// The local stamp policy.
    pub fn lxmf_stamp_policy(&mut self) -> (r: Result<LxmfStampPolicy, StoreError>) {
        match self.first_row("SELECT target_cost, flexibility FROM lxmf_stamp_policy WHERE singleton = 1", &[])? {
            Some(row) => {
                let target_cost = col_u32(row.as_slice(), 0)?;
                let flexibility = col_u32(row.as_slice(), 1)?;
                Ok(LxmfStampPolicy { target_cost, flexibility })
            },
            None => Err(StoreError::QueryReturnedNoRows),
        }
    }

    /// Sets the local stamp policy; costs above the largest stamp cost are refused.
    pub fn set_lxmf_stamp_policy(&mut self, policy: LxmfStampPolicy) -> (r: Result<(), StoreError>)
        ensures
            !policy_ok(policy) ==> (r matches Err(e) && e is InvalidParameter),
            !policy_ok(policy) ==> final(self)@ == old(self)@,
    {
        if policy.target_cost > MAX_STAMP_COST || policy.flexibility > MAX_STAMP_COST {
            return Err(invalid("stamp cost exceeds limit"));
        }
        self.exec(
            "UPDATE lxmf_stamp_policy SET target_cost = ?1, flexibility = ?2 WHERE singleton = 1",
            &[int_arg(policy.target_cost as i64), int_arg(policy.flexibility as i64)],
        )?;
        Ok(())
    }

    /// Records the stamp cost a peer announced at `observed_at`; an older
    /// observation never replaces a newer one.
    pub fn learn_peer_stamp_cost(&mut self, peer: &str, cost: u32, observed_at: i64) -> (r: Result<(), StoreError>)
        ensures
            !peer_cost_ok(peer@, cost) ==> (r matches Err(e) && e is InvalidParameter),
            !peer_cost_ok(peer@, cost) ==> final(self)@ == old(self)@,
    {
        if peer.len() > MAX_PEER_KEY_BYTES || cost > MAX_STAMP_COST {
            return Err(invalid("invalid peer stamp cost"));
        }
        self.exec(
            "INSERT INTO lxmf_peer_costs (peer, stamp_cost, observed_at) VALUES (?1, ?2, ?3)
             ON CONFLICT(peer) DO UPDATE SET stamp_cost = excluded.stamp_cost,
                 observed_at = excluded.observed_at WHERE excluded.observed_at >= lxmf_peer_costs.observed_at",
            &[text_arg(peer), int_arg(cost as i64), int_arg(observed_at)],
        )?;
        Ok(())
    }

    /// The last stamp cost a peer announced, if any.
    pub fn peer_stamp_cost(&mut self, peer: &str) -> (r: Result<Option<u32>, StoreError>) {
        match self.first_row("SELECT stamp_cost FROM lxmf_peer_costs WHERE peer = ?1", &[text_arg(peer)])? {
            Some(row) => col_opt_u32(row.as_slice(), 0),
            None => Ok(None),
        }
    }

    /// The stamp cost a peer announced, while it has not expired at `now`.
    pub fn peer_stamp_cost_at(&mut self, peer: &str, now: i64) -> (r: Result<Option<u32>, StoreError>) {
        match self.first_row(
            "SELECT stamp_cost FROM lxmf_peer_costs
             WHERE peer = ?1 AND observed_at + ?2 >= ?3",
            &[text_arg(peer), int_arg(STAMP_COST_EXPIRY_SECS), int_arg(now)],
        )? {
            Some(row) => col_opt_u32(row.as_slice(), 0),
            None => Ok(None),
        }
    }

    /// Stores a ticket, or moves the expiry of the same one; only the 2048
    /// tickets that expire last are kept.
    pub fn upsert_lxmf_ticket(&mut self, record: &LxmfTicketRecord) -> (r: Result<(), StoreError>)
        ensures
            !ticket_ok(*record) ==> (r matches Err(e) && e is InvalidParameter),
            !ticket_ok(*record) ==> final(self)@ == old(self)@,
            r is Ok ==> crate::store::succeeded_atomically(old(self)@, final(self)@),
            r is Err ==> crate::store::failed_cleanly(old(self)@, final(self)@),
    {
        validate_ticket(record)?;
        self.begin()?;
        let done = self.upsert_ticket_step(record);
        self.finish(done)
    }

    fn upsert_ticket_step(&mut self, record: &LxmfTicketRecord) -> (r: Result<(), StoreError>) {
        self.exec(
            "INSERT INTO lxmf_tickets (peer, ticket, expires_at, direction) VALUES (?1, ?2, ?3, ?4)
             ON CONFLICT(peer, direction, ticket) DO UPDATE SET expires_at = excluded.expires_at",
            &[
                text_arg(record.peer.as_str()),
                blob_arg(record.ticket.as_slice()),
                int_arg(record.expires_at),
                text_arg(record.direction.as_str()),
            ],
        )?;
        self.exec(
            "DELETE FROM lxmf_tickets WHERE rowid IN (
                 SELECT rowid FROM lxmf_tickets ORDER BY expires_at DESC LIMIT -1 OFFSET ?1
             )",
            &[int_arg(MAX_RETAINED_TICKETS as i64)],
        )?;
        Ok(())
    }

    /// The ticket for a peer and direction that expires last, if it is
    /// still valid at `now`.
    pub fn active_lxmf_ticket(&mut self, peer: &str, direction: &str, now: i64) -> (r: Result<
        Option<LxmfTicketRecord>,
        StoreError,
    >)
        ensures
            final(self)@.len() == old(self)@.len() + 1,
            final(self)@.drop_last() == old(self)@,
            r matches Ok(o) ==> active_ticket_read(final(self)@.last(), peer@, direction@, now, o),
    {
        let read_args = [text_arg(peer), text_arg(direction), int_arg(now)];
        assert(crate::sql::args_view(read_args@) =~= seq![ArgView::Text(peer@), ArgView::Text(direction@), ArgView::Int(now)]);
        let rows = self.rows(VALID_TICKETS_SQL, &read_args)?;
        let ghost seen = crate::sql::rows_view(rows@);
        let ghost read = self@;
        let mut best: Option<LxmfTicketRecord> = None;
        let mut i: usize = 0;
        while i < rows.len()
            invariant
                self@ == read,
                read.len() == old(self)@.len() + 1,
                read.drop_last() == old(self)@,
                i <= rows.len(),
                seen == crate::sql::rows_view(rows@),
                match latest_ticket(seen, peer@, direction@, now, i as int) {
                    None => best is None,
                    Some(k) => best matches Some(t) && ticket_from_row(seen[k], t),
                },
            decreases rows.len() - i,
        {
            assert(seen[i as int] == rows@[i as int]@);
            let t = ticket_row(rows[i].as_slice())?;
            let valid = str_eq(t.peer.as_str(), peer) && str_eq(t.direction.as_str(), direction) && t.expires_at > now;
            let better = match &best {
                None => true,
                Some(b) => t.expires_at > b.expires_at,
            };
            if valid && better {
                best = Some(t);
            }
            i = i + 1;
        }
        Ok(best)
    }

    /// Deletes expired tickets: received ones at expiry, issued ones after a
    /// grace period. Returns how many went.
    pub fn expire_lxmf_tickets(&mut self, now: i64) -> (r: Result<usize, StoreError>) {
        self.exec(
            "DELETE FROM lxmf_tickets
             WHERE expires_at + CASE WHEN direction = 'issued' THEN ?2 ELSE 0 END <= ?1",
            &[int_arg(now), int_arg(TICKET_GRACE_SECS)],
        )
    }

    /// The valid tickets issued to a peer, latest expiry first, at most eight.
    pub fn issued_lxmf_tickets(&mut self, peer: &str, now: i64) -> (r: Result<Vec<Vec<u8>>, StoreError>)
        ensures
            r matches Ok(v) ==> v@.len() <= 8,
    {
        let rows = self.rows(
            "SELECT ticket FROM lxmf_tickets WHERE peer = ?1 AND direction = 'issued'
             AND expires_at > ?2 ORDER BY expires_at DESC LIMIT 8",
            &[text_arg(peer), int_arg(now)],
        )?;
        let mut out: Vec<Vec<u8>> = Vec::new();
        let mut i: usize = 0;
        while i < rows.len() && i < 8
            invariant
                i <= rows.len(),
                i <= 8,
                out@.len() == i,
            decreases rows.len() - i,
        {
            out.push(col_blob(rows[i].as_slice(), 0)?);
            i = i + 1;
        }
        Ok(out)
    }

    // ── Ticket offers ───────────────────────────────────────────────────

    /// Whether a peer is due a ticket offer at `now`: none was delivered
    /// within the interval, none is reserved, and none rides on a live message.
    pub fn ticket_offer_due_at(&mut self, peer: &str, now: i64) -> (r: Result<bool, StoreError>) {
        self.bool_query(
            "SELECT NOT EXISTS (
                 SELECT 1 FROM lxmf_ticket_deliveries
                 WHERE peer = ?1 AND last_delivered_at > ?2 - ?3
             ) AND NOT EXISTS (
                 SELECT 1 FROM lxmf_ticket_offer_reservations
                 WHERE peer = ?1 AND reserved_at > ?2 - ?4
             ) AND NOT EXISTS (
                 SELECT 1 FROM outbound_ticket_offers o
                 JOIN outbound_routes r ON r.message_id = o.message_id
                 WHERE o.peer = ?1 AND o.delivered_at IS NULL
                   AND r.state NOT IN ('delivered','failed','cancelled','expired','rejected')
             )",
            &[text_arg(peer), int_arg(now), int_arg(TICKET_INTERVAL_SECS), int_arg(TICKET_RESERVATION_TTL_SECS)],
        )
    }

    /// Reserves the right to offer a peer a ticket, after dropping stale
    /// reservations; true when the reservation was made.
    pub fn reserve_ticket_offer(&mut self, peer: &str, reservation_id: &str, now: i64) -> (r: Result<bool, StoreError>)
        ensures
            !reservation_ok(peer@, reservation_id@) ==> (r matches Err(e) && e is InvalidParameter),
            !reservation_ok(peer@, reservation_id@) ==> final(self)@ == old(self)@,
            r is Ok ==> crate::store::succeeded_atomically(old(self)@, final(self)@),
            r is Err ==> crate::store::failed_cleanly(old(self)@, final(self)@),
    {
        if peer.len() > MAX_PEER_KEY_BYTES || reservation_id.len() > MAX_PEER_KEY_BYTES {
            return Err(invalid("invalid LXMF ticket offer reservation"));
        }
        self.begin()?;
        let done = self.reserve_step(peer, reservation_id, now);
        self.finish(done)
    }

    fn reserve_step(&mut self, peer: &str, reservation_id: &str, now: i64) -> (r: Result<bool, StoreError>) {
        self.exec(
            "DELETE FROM lxmf_ticket_offer_reservations WHERE reserved_at <= ?1 - ?2",
            &[int_arg(now), int_arg(TICKET_RESERVATION_TTL_SECS)],
        )?;
        let changed = self.exec(
            "INSERT OR IGNORE INTO lxmf_ticket_offer_reservations
                 (peer, reservation_id, reserved_at)
             SELECT ?1, ?2, ?3
             WHERE NOT EXISTS (
                 SELECT 1 FROM lxmf_ticket_deliveries
                 WHERE peer = ?1 AND last_delivered_at > ?3 - ?4
             ) AND NOT EXISTS (
                 SELECT 1 FROM outbound_ticket_offers o
                 JOIN outbound_routes r ON r.message_id = o.message_id
                 WHERE o.peer = ?1 AND o.delivered_at IS NULL
                   AND r.state NOT IN ('delivered','failed','cancelled','expired','rejected')
             )",
            &[text_arg(peer), text_arg(reservation_id), int_arg(now), int_arg(TICKET_INTERVAL_SECS)],
        )?;
        Ok(changed == 1)
    }

    /// Drops a reservation; true when it stood.
    pub fn release_ticket_offer_reservation(&mut self, peer: &str, reservation_id: &str) -> (r: Result<bool, StoreError>) {
        let changed = self.exec(
            "DELETE FROM lxmf_ticket_offer_reservations
             WHERE peer = ?1 AND reservation_id = ?2",
            &[text_arg(peer), text_arg(reservation_id)],
        )?;
        Ok(changed == 1)
    }

    /// Records that a message carries a ticket offer.
    pub fn track_ticket_offer(&mut self, message_id: &str, ticket: &LxmfTicketRecord) -> (r: Result<(), StoreError>)
        ensures
            !ticket_ok(*ticket) ==> (r matches Err(e) && e is InvalidParameter),
            !ticket_ok(*ticket) ==> final(self)@ == old(self)@,
    {
        validate_ticket(ticket)?;
        self.exec(
            "INSERT OR IGNORE INTO outbound_ticket_offers
             (message_id, peer, ticket, expires_at, delivered_at)
             VALUES (?1, ?2, ?3, ?4, NULL)",
            &[
                text_arg(message_id),
                text_arg(ticket.peer.as_str()),
                blob_arg(ticket.ticket.as_slice()),
                int_arg(ticket.expires_at),
            ],
        )?;
        Ok(())
    }

    /// Marks the ticket offer a message carried as delivered, and its peer as
    /// offered at `delivered_at` (never earlier than before). True when an
    /// undelivered offer was found.
    pub fn mark_ticket_offer_delivered(&mut self, message_id: &str, delivered_at: i64) -> (r: Result<bool, StoreError>)
        ensures
            r is Ok ==> crate::store::succeeded_atomically(old(self)@, final(self)@),
            r is Err ==> crate::store::failed_cleanly(old(self)@, final(self)@),
    {
        self.begin()?;
        let done = self.mark_offer_step(message_id, delivered_at);
        self.finish(done)
    }

    fn mark_offer_step(&mut self, message_id: &str, delivered_at: i64) -> (r: Result<bool, StoreError>) {
        let peer = match self.opt_text_query(
            "SELECT peer FROM outbound_ticket_offers
             WHERE message_id = ?1 AND delivered_at IS NULL",
            &[text_arg(message_id)],
        )? {
            Some(p) => p,
            None => return Ok(false),
        };
        self.exec(
            "UPDATE outbound_ticket_offers SET delivered_at = ?2
             WHERE message_id = ?1 AND delivered_at IS NULL",
            &[text_arg(message_id), int_arg(delivered_at)],
        )?;
        self.exec(
            "INSERT INTO lxmf_ticket_deliveries (peer, last_delivered_at) VALUES (?1, ?2)
             ON CONFLICT(peer) DO UPDATE SET
                 last_delivered_at = MAX(last_delivered_at, excluded.last_delivered_at)",
            &[text_arg(peer.as_str()), int_arg(delivered_at)],
        )?;
        Ok(true)
    }

    /// Marks delivered the undelivered offers of messages whose route was
    /// delivered, in batches of 1024, until none is left; returns how many
    /// were repaired, saturating.
    pub fn repair_ticket_offer_deliveries(&mut self, repaired_at: i64) -> (r: Result<usize, StoreError>) {
        let mut repaired: usize = 0;
        let mut passes: u64 = 0;
        while passes < u64::MAX
            invariant
                passes <= u64::MAX,
            decreases u64::MAX - passes,
        {
            let rows = self.rows(
                "SELECT o.message_id FROM outbound_ticket_offers o
                 JOIN outbound_routes r ON r.message_id = o.message_id
                 WHERE o.delivered_at IS NULL AND r.state = 'delivered'
                 ORDER BY o.message_id LIMIT 1024",
                &[],
            )?;
            let ids = crate::message_store::ids_of(&rows, rows.len())?;
            if ids.len() == 0 {
                break;
            }
            let mut k: usize = 0;
            while k < ids.len()
                invariant
                    k <= ids.len(),
                decreases ids.len() - k,
            {
                self.mark_ticket_offer_delivered(ids[k].as_str(), repaired_at)?;
                k = k + 1;
            }
            repaired = repaired.saturating_add(ids.len());
            passes = passes + 1;
        }
        Ok(repaired)
    }

    /// Repairs delivered ticket offers and drops stale reservations after a
    /// restart; returns how many offers were repaired.
    pub fn reconcile_ticket_offer_startup(&mut self, repaired_at: i64) -> (r: Result<usize, StoreError>) {
        let repaired = self.repair_ticket_offer_deliveries(repaired_at)?;
        self.exec(
            "DELETE FROM lxmf_ticket_offer_reservations WHERE reserved_at <= ?1 - ?2",
            &[int_arg(repaired_at), int_arg(TICKET_RESERVATION_TTL_SECS)],
        )?;
        Ok(repaired)
    }
}

/// The read of a peer's tickets in one direction that are still valid at a
/// time, latest expiry first.
pub const VALID_TICKETS_SQL: &'static str = "SELECT peer, ticket, expires_at, direction FROM lxmf_tickets
             WHERE peer = ?1 AND direction = ?2 AND expires_at > ?3
             ORDER BY expires_at DESC";

/// Whether `row` holds a ticket of `peer` in `direction` still valid at `now`.
pub open spec fn valid_ticket_row(row: Seq<SqlValue>, peer: Seq<char>, direction: Seq<char>, now: i64) -> bool {
    &&& ticket_row_ok(row)
    &&& text_value(row[0]) == Some(peer)
    &&& text_value(row[3]) == Some(direction)
    &&& int_of(row[2]) > now
}

/// Whether `t` is the ticket `row` holds.
pub open spec fn ticket_from_row(row: Seq<SqlValue>, t: LxmfTicketRecord) -> bool {
    &&& Some(t.peer@) == text_value(row[0])
    &&& t.ticket@ == blob_of(row[1])
    &&& row[2] == SqlValue::Int(t.expires_at)
    &&& Some(t.direction@) == text_value(row[3])
}

/// Among the first `n` of `rows`, the position of the valid ticket that
/// expires last; the earliest such position on a tie.
pub open spec fn latest_ticket(rows: Seq<Seq<SqlValue>>, peer: Seq<char>, direction: Seq<char>, now: i64, n: int) -> Option<int>
    decreases n,
{
    if n <= 0 {
        None
    } else {
        let prev = latest_ticket(rows, peer, direction, now, n - 1);
        if valid_ticket_row(rows[n - 1], peer, direction, now) {
            match prev {
                None => Some(n - 1),
                Some(k) => if int_of(rows[n - 1][2]) > int_of(rows[k][2]) {
                    Some(n - 1)
                } else {
                    prev
                },
            }
        } else {
            prev
        }
    }
}

/// Whether `call` read `peer`'s valid tickets in `direction` at `now`, and
/// `o` is the one among the rows it returned that expires last, or none
/// when no row holds a valid ticket.
pub open spec fn active_ticket_read(call: SqlCall, peer: Seq<char>, direction: Seq<char>, now: i64, o: Option<LxmfTicketRecord>) -> bool {
    &&& call matches SqlCall::Query(q, a, Some(rows))
    &&& q == VALID_TICKETS_SQL@
    &&& a == seq![ArgView::Text(peer), ArgView::Text(direction), ArgView::Int(now)]
    &&& match latest_ticket(rows, peer, direction, now, rows.len() as int) {
        None => o is None,
        Some(k) => o matches Some(t) && ticket_from_row(rows[k], t),
    }
}

} // verus!
