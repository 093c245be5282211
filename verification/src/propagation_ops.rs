//! The standard propagation operations of the message store: peers, offers,
//! transfers into the queue, downloads out of it, and their observation.
use vstd::prelude::*;
use crate::error::{invalid, StoreError};
use crate::propagation::{
    check_item, get_attempt_id, get_operation, get_operation_of, get_takes, has_id, id_eq, ingest_exceeds_capacity,
    ingest_over_capacity, ingest_request_ok, item_valid, plan_get_payloads, union_ids,
    StandardPropagationAttemptStatus, StandardPropagationGetOperation, StandardPropagationGetRequest,
    StandardPropagationGetResult, StandardPropagationIngestOutcome, StandardPropagationIngestRequest,
    StandardPropagationItem, StandardPropagationObservation, StandardPropagationOfferComparison,
    StandardPropagationOfferRequest, StandardPropagationPeer, StandardPropagationPolicy,
    StandardPropagationProtocolStatus, StandardPropagationStats, MAX_ATTEMPTS, MAX_BATCH_ITEMS, MAX_FAILURES,
    STANDARD_PROPAGATION_OBSERVATION_ATTEMPT_LIMIT, STANDARD_PROPAGATION_OBSERVATION_CHECKPOINT_LIMIT,
    STANDARD_PROPAGATION_OBSERVATION_FAILURE_LIMIT, STANDARD_PROPAGATION_OBSERVATION_PEER_LIMIT,
};
use crate::propagation_plan::{
    extend_sorted, ids_union, offer_attempt, offer_refused, offer_same, offer_unknown, offer_wanted, plan_offer, strictly_sorted,
};
use crate::propagation_rows::{
    attempt_observation_row, checkpoint_observation_row, failure_observation_row, item_row, peer_observation_row,
    item_from, queue_observation_row, selection_row,
};
use crate::sql::{col_blob, col_int, col_text, col_usize, i64_to_usize, rows_view, usize_to_i64, ArgView, SqlArg, SqlCall, SqlValue};
use crate::store::{blob_arg, int_arg, text_arg, MessagesStore};
use crate::propagation_store::stats_read;
use crate::text::{bytes_eq, str_eq};

verus! {

/// Whether the items of a batch that share a transient id agree on their
/// destination, data and stamp.
pub open spec fn batch_consistent(items: Seq<StandardPropagationItem>) -> bool {
    forall|i: int, j: int|
        0 <= i < j < items.len() && (#[trigger] items[i]).transient_id@ == (#[trigger] items[j]).transient_id@ ==> {
            &&& items[i].destination@ == items[j].destination@
            &&& items[i].lxmf_data@ == items[j].lxmf_data@
            &&& items[i].stamp@ == items[j].stamp@
        }
}

/// Whether item `i` is the first of the batch with its transient id.
pub open spec fn first_of_id(items: Seq<StandardPropagationItem>, i: int) -> bool {
    forall|j: int| 0 <= j < i ==> (#[trigger] items[j]).transient_id@ != items[i].transient_id@
}

/// Whether item `i` is new to the queue: the first with its transient id,
/// with no row stored for that id (`stored[i]` says whether one is).
pub open spec fn new_item(items: Seq<StandardPropagationItem>, stored: Seq<bool>, i: int) -> bool {
    first_of_id(items, i) && !stored[i]
}

/// How many of the first `n` items are new: distinct ids with no stored row.
pub open spec fn new_items_count(items: Seq<StandardPropagationItem>, stored: Seq<bool>, n: int) -> int
    decreases n,
{
    if n <= 0 {
        0
    } else {
        new_items_count(items, stored, n - 1) + if new_item(items, stored, n - 1) {
            1int
        } else {
            0int
        }
    }
}

/// The stored size of the new items among the first `n`.
pub open spec fn new_items_bytes(items: Seq<StandardPropagationItem>, stored: Seq<bool>, n: int) -> int
    decreases n,
{
    if n <= 0 {
        0
    } else {
        new_items_bytes(items, stored, n - 1) + if new_item(items, stored, n - 1) {
            items[n - 1].stored_size as int
        } else {
            0int
        }
    }
}

/// Whether a row is stored is only read for items already looked at.
proof fn lemma_new_items_prefix(items: Seq<StandardPropagationItem>, stored: Seq<bool>, b: bool, n: int)
    requires
        0 <= n <= stored.len(),
    ensures
        new_items_count(items, stored.push(b), n) == new_items_count(items, stored, n),
        new_items_bytes(items, stored.push(b), n) == new_items_bytes(items, stored, n),
    decreases n,
{
    if n > 0 {
        lemma_new_items_prefix(items, stored, b, n - 1);
        assert(stored.push(b)[n - 1] == stored[n - 1]);
    }
}

/// Whether every item of a batch is well formed.
pub open spec fn batch_valid(items: Seq<StandardPropagationItem>) -> bool {
    forall|i: int| 0 <= i < items.len() ==> item_valid(#[trigger] items[i])
}

/// The ASCII bytes of an operation's name.
pub open spec fn operation_name_bytes(op: StandardPropagationGetOperation) -> Seq<u8> {
    match op {
        StandardPropagationGetOperation::Fetch => seq![102u8, 101, 116, 99, 104],
        StandardPropagationGetOperation::Download => seq![100u8, 111, 119, 110, 108, 111, 97, 100],
        StandardPropagationGetOperation::Sync => seq![115u8, 121, 110, 99],
    }
}

/// The ids of an optional list.
pub open spec fn opt_ids(o: Option<&[[u8; 32]]>) -> Seq<[u8; 32]> {
    match o {
        Some(ids) => ids@,
        None => Seq::empty(),
    }
}

fn ids_or_empty<'a>(o: Option<&'a [[u8; 32]]>) -> (r: &'a [[u8; 32]])
    ensures
        r@ == opt_ids(o),
{
    match o {
        Some(ids) => ids,
        None => {
            let empty: &'a [[u8; 32]] = &[];
            assert(empty@ =~= Seq::<[u8; 32]>::empty());
            empty
        },
    }
}

fn op_bytes(op: StandardPropagationGetOperation) -> (r: &'static [u8])
    ensures
        r@ == operation_name_bytes(op),
{
    match op {
        StandardPropagationGetOperation::Fetch => {
            let b: &'static [u8] = &[102u8, 101, 116, 99, 104];
            assert(b@ =~= seq![102u8, 101, 116, 99, 104]);
            b
        },
        StandardPropagationGetOperation::Download => {
            let b: &'static [u8] = &[100u8, 111, 119, 110, 108, 111, 97, 100];
            assert(b@ =~= seq![100u8, 111, 119, 110, 108, 111, 97, 100]);
            b
        },
        StandardPropagationGetOperation::Sync => {
            let b: &'static [u8] = &[115u8, 121, 110, 99];
            assert(b@ =~= seq![115u8, 121, 110, 99]);
            b
        },
    }
}

/// The index of the first item before `i` with the same transient id.
fn earlier_duplicate(items: &[StandardPropagationItem], i: usize) -> (r: Option<usize>)
    requires
        i < items@.len(),
    ensures
        r matches Some(j) ==> j < i && items@[j as int].transient_id@ == items@[i as int].transient_id@,
        r is None ==> forall|j: int| 0 <= j < i ==> (#[trigger] items@[j]).transient_id@ != items@[i as int].transient_id@,
{
    let mut j: usize = 0;
    while j < i
        invariant
            i < items@.len(),
            j <= i,
            forall|k: int| 0 <= k < j ==> (#[trigger] items@[k]).transient_id@ != items@[i as int].transient_id@,
        decreases i - j,
    {
        if id_eq(&items[j].transient_id, &items[i].transient_id) {
            return Some(j);
        }
        j = j + 1;
    }
    None
}

fn same_item_content(a: &StandardPropagationItem, b: &StandardPropagationItem) -> (r: bool)
    ensures
        r == (a.destination@ == b.destination@ && a.lxmf_data@ == b.lxmf_data@ && a.stamp@ == b.stamp@),
{
    bytes_eq(&a.destination, &b.destination) && bytes_eq(a.lxmf_data.as_slice(), b.lxmf_data.as_slice())
        && bytes_eq(&a.stamp, &b.stamp)
}

impl MessagesStore {
    // ── Peers and reconciliation ────────────────────────────────────────

    /// Records a configured or observed peer: fills what is given, keeps what
    /// is not, marks a peer both configured and observed as `both`, and owes
    /// an enabled peer every queued item. A limit that does not fit `i64` is
    /// refused.
    pub fn standard_propagation_upsert_peer(&mut self, peer: &StandardPropagationPeer) -> (r: Result<(), StoreError>)
        ensures
            (peer.transfer_limit_kb matches Some(v) && v > i64::MAX) ==> r is Err,
            (peer.sync_limit_kb matches Some(v) && v > i64::MAX) ==> r is Err,
            r is Ok ==> crate::store::succeeded_atomically(old(self)@, final(self)@),
            r is Err ==> crate::store::failed_cleanly(old(self)@, final(self)@),
    {
        self.begin_immediate()?;
        let done = self.upsert_peer_in(peer);
        self.finish(done)
    }

    fn upsert_peer_in(&mut self, peer: &StandardPropagationPeer) -> (r: Result<(), StoreError>)
        ensures
            (peer.transfer_limit_kb matches Some(v) && v > i64::MAX) ==> r is Err,
            (peer.sync_limit_kb matches Some(v) && v > i64::MAX) ==> r is Err,
    {
        self.expire_propagation(peer.observed_at)?;
        let transfer = match peer.transfer_limit_kb {
            Some(v) => SqlArg::Int(usize_to_i64(v, "peer transfer limit")?),
            None => SqlArg::Null,
        };
        let sync = match peer.sync_limit_kb {
            Some(v) => SqlArg::Int(usize_to_i64(v, "peer sync limit")?),
            None => SqlArg::Null,
        };
        let destination = match &peer.propagation_destination {
            Some(d) => blob_arg(d),
            None => SqlArg::Null,
        };
        let stamp_cost = match peer.stamp_cost {
            Some(v) => SqlArg::Int(v as i64),
            None => SqlArg::Null,
        };
        let stamp_flexibility = match peer.stamp_flexibility {
            Some(v) => SqlArg::Int(v as i64),
            None => SqlArg::Null,
        };
        let peering_cost = match peer.peering_cost {
            Some(v) => SqlArg::Int(v as i64),
            None => SqlArg::Null,
        };
        self.exec(
            "INSERT INTO standard_lxmf_propagation_peers
             (identity_hash, propagation_destination, origin, enabled,
              transfer_limit_kb, sync_limit_kb, stamp_cost, stamp_flexibility, peering_cost,
              first_seen_at, last_seen_at)
             VALUES (?1, ?2, ?3, ?4, ?5, ?6, ?7, ?8, ?9, ?10, ?10)
             ON CONFLICT(identity_hash) DO UPDATE SET
                 propagation_destination = COALESCE(excluded.propagation_destination, propagation_destination),
                 origin = CASE
                     WHEN origin != excluded.origin THEN 'both'
                     ELSE origin
                 END,
                 enabled = excluded.enabled,
                 transfer_limit_kb = COALESCE(excluded.transfer_limit_kb, transfer_limit_kb),
                 sync_limit_kb = COALESCE(excluded.sync_limit_kb, sync_limit_kb),
                 stamp_cost = COALESCE(excluded.stamp_cost, stamp_cost),
                 stamp_flexibility = COALESCE(excluded.stamp_flexibility, stamp_flexibility),
                 peering_cost = COALESCE(excluded.peering_cost, peering_cost),
                 last_seen_at = MAX(last_seen_at, excluded.last_seen_at)",
            &[
                blob_arg(&peer.identity_hash),
                destination,
                text_arg(if peer.configured { "configured" } else { "observed" }),
                int_arg(if peer.enabled { 1 } else { 0 }),
                transfer,
                sync,
                stamp_cost,
                stamp_flexibility,
                peering_cost,
                int_arg(peer.observed_at),
            ],
        )?;
        if peer.enabled {
            self.backfill_peer_items(&peer.identity_hash, peer.observed_at)?;
        }
        Ok(())
    }

    /// On start: expires, fails attempts past their deadline, interrupts the
    /// attempts still running, prunes, and checks that every queued item is
    /// intact and the queue within the policy; returns the queue's size.
    pub fn standard_propagation_reconcile_startup(
        &mut self,
        now: i64,
        policy: StandardPropagationPolicy,
    ) -> (r: Result<StandardPropagationStats, StoreError>)
        ensures
            r matches Ok(s) ==> s.queued_count <= policy.queue_max_count && s.stored_bytes <= policy.queue_max_bytes,
            r is Ok ==> crate::store::succeeded_atomically(old(self)@, final(self)@),
            r is Err ==> crate::store::failed_cleanly(old(self)@, final(self)@),
    {
        self.begin_immediate()?;
        let done = self.reconcile_startup_in(now, policy);
        self.finish(done)
    }

    fn reconcile_startup_in(&mut self, now: i64, policy: StandardPropagationPolicy) -> (r: Result<StandardPropagationStats, StoreError>)
        ensures
            r matches Ok(s) ==> s.queued_count <= policy.queue_max_count && s.stored_bytes <= policy.queue_max_bytes,
    {
        self.expire_propagation(now)?;
        self.reconcile_deadlines_in(now)?;
        self.exec(
            "UPDATE standard_lxmf_propagation_attempts
             SET state = 'interrupted', updated_at = ?1, failure_code = 'startup_interrupted'
             WHERE state = 'running'",
            &[int_arg(now)],
        )?;
        self.prune_propagation(now)?;
        let rows = self.rows(
            "SELECT transient_id, destination, lxmf_data, stamp, stored_size
             FROM standard_lxmf_propagation_items WHERE state = 'queued'",
            &[],
        )?;
        let mut i: usize = 0;
        while i < rows.len()
            invariant
                i <= rows.len(),
            decreases rows.len() - i,
        {
            let row = rows[i].as_slice();
            let transient = crate::sql::col_array::<32>(row, 0)?;
            let destination = crate::sql::col_array::<16>(row, 1)?;
            let data = col_blob(row, 2)?;
            let stamp = col_blob(row, 3)?;
            let stored_size = col_usize(row, 4)?;
            if !queued_item_intact(&transient, &destination, data.as_slice(), stamp.as_slice(), stored_size) {
                return Err(invalid("standard propagation queued item invariant failed"));
            }
            i = i + 1;
        }
        let stats = self.propagation_stats_in()?;
        if stats.queued_count > policy.queue_max_count || stats.stored_bytes > policy.queue_max_bytes {
            return Err(invalid("standard propagation queue exceeds configured capacity"));
        }
        Ok(stats)
    }

    /// Expires, fails the running attempts past their deadline and prunes;
    /// returns how many attempts failed.
    pub fn standard_propagation_reconcile_deadlines(&mut self, now: i64) -> (r: Result<usize, StoreError>)
        ensures
            r matches Ok(n) ==> exists|j: int| old(self)@.len() <= j < final(self)@.len()
                && crate::propagation_store::due_read(#[trigger] final(self)@[j], now, n),
            r is Ok ==> crate::store::succeeded_atomically(old(self)@, final(self)@),
            r is Err ==> crate::store::failed_cleanly(old(self)@, final(self)@),
    {
        self.begin_immediate()?;
        let done = self.reconcile_deadlines_step(now);
        let ghost stepped = self@;
        let out = self.finish(done);
        proof {
            if out is Ok {
                let j = choose|j: int| old(self)@.len() <= j < stepped.len()
                    && crate::propagation_store::due_read(#[trigger] stepped[j], now, out->Ok_0);
                assert(self@[j] == stepped[j]);
            }
        }
        out
    }

    fn reconcile_deadlines_step(&mut self, now: i64) -> (r: Result<usize, StoreError>)
        ensures
            r matches Ok(n) ==> exists|j: int| old(self)@.len() <= j < final(self)@.len()
                && crate::propagation_store::due_read(#[trigger] final(self)@[j], now, n),
    {
        self.expire_propagation(now)?;
        let ghost at: int = self@.len() as int;
        let reconciled = self.reconcile_deadlines_in(now)?;
        let ghost read = self@;
        self.prune_propagation(now)?;
        assert(self@[at] == read[at]);
        Ok(reconciled)
    }

    // ── Offers ──────────────────────────────────────────────────────────

    /// Answers a peer's offer: which offered messages to fetch, under which
    /// attempt, or a refusal for capacity. The result is what `plan_offer`
    /// decides from which offered ids the queue holds and the queue's size.
    /// More than 1024 offered ids are refused.
    pub fn standard_propagation_compare_offer(
        &mut self,
        request: StandardPropagationOfferRequest<'_>,
    ) -> (r: Result<StandardPropagationOfferComparison, StoreError>)
        ensures
            request.offered@.len() > MAX_BATCH_ITEMS ==> (r matches Err(e) && e is InvalidParameter),
            request.offered@.len() > MAX_BATCH_ITEMS ==> final(self)@ == old(self)@,
            r matches Ok(c) ==> request.offered@.len() <= MAX_BATCH_ITEMS && exists|j: int, stored: Seq<bool>, stats: StandardPropagationStats|
                #![trigger offer_reads(final(self)@, j, request.offered@, stored, stats)]
                old(self)@.len() < j
                && stored.len() == request.offered@.len()
                && offer_reads(final(self)@, j, request.offered@, stored, stats)
                && c.wanted@ == offer_wanted(request, stored, stats)
                && c.attempt_id@ == offer_attempt(request, stored, stats)
                && c.capacity_rejected == offer_refused(request, stored, stats)
                && (offer_unknown(request, stored).len() > 0 && stats.queued_count + request.pending_count
                    >= request.policy.queue_max_count ==> c.capacity_rejected)
                && (offer_unknown(request, stored).len() > 0 && stats.stored_bytes >= request.policy.queue_max_bytes
                    ==> c.capacity_rejected)
                && (c.capacity_rejected ==> c.wanted@.len() == 0)
                && (!c.capacity_rejected ==> c.wanted@.len() <= offer_same(request, stored).len()
                    + if stats.queued_count + request.pending_count < request.policy.queue_max_count {
                    request.policy.queue_max_count - stats.queued_count - request.pending_count
                } else {
                    0
                }),
            r matches Ok(c) ==> (c.capacity_rejected ==> exists|j: int| old(self)@.len() <= j < final(self)@.len()
                && #[trigger] capacity_attempt_recorded(final(self)@[j], request, c.attempt_id)),
            r is Ok ==> crate::store::succeeded_atomically(old(self)@, final(self)@),
            r is Err ==> crate::store::failed_cleanly(old(self)@, final(self)@),
    {
        if request.offered.len() > MAX_BATCH_ITEMS {
            return Err(invalid("standard propagation offer exceeds 1024 items"));
        }
        self.begin_immediate()?;
        let done = self.compare_offer_in(&request);
        let ghost stepped = self@;
        let out = self.finish(done);
        proof {
            if out is Ok {
                let (j, stored, stats) = choose|j: int, stored: Seq<bool>, stats: StandardPropagationStats|
                    #![trigger offer_reads(stepped, j, request.offered@, stored, stats)]
                    old(self)@.len() < j
                    && stored.len() == request.offered@.len()
                    && offer_reads(stepped, j, request.offered@, stored, stats)
                    && out->Ok_0.wanted@ == offer_wanted(request, stored, stats)
                    && out->Ok_0.attempt_id@ == offer_attempt(request, stored, stats)
                    && out->Ok_0.capacity_rejected == offer_refused(request, stored, stats);
                lemma_offer_reads_extend(stepped, self@, j, request.offered@, stored, stats);
                crate::laws::offer_respects_queue_capacity(request, stored, stats);
                if out->Ok_0.capacity_rejected {
                    let i = choose|i: int| old(self)@.len() <= i < stepped.len()
                        && #[trigger] capacity_attempt_recorded(stepped[i], request, out->Ok_0.attempt_id);
                    assert(self@[i] == stepped[i]);
                }
            }
        }
        out
    }

    fn compare_offer_in(&mut self, request: &StandardPropagationOfferRequest) -> (r: Result<StandardPropagationOfferComparison, StoreError>)
        requires
            request.offered@.len() <= MAX_BATCH_ITEMS,
        ensures
            r matches Ok(c) ==> exists|j: int, stored: Seq<bool>, stats: StandardPropagationStats|
                #![trigger offer_reads(final(self)@, j, request.offered@, stored, stats)]
                old(self)@.len() <= j
                && stored.len() == request.offered@.len()
                && offer_reads(final(self)@, j, request.offered@, stored, stats)
                && c.wanted@ == offer_wanted(*request, stored, stats)
                && c.attempt_id@ == offer_attempt(*request, stored, stats)
                && c.capacity_rejected == offer_refused(*request, stored, stats),
            r matches Ok(c) ==> (c.capacity_rejected ==> exists|j: int| old(self)@.len() <= j < final(self)@.len()
                && #[trigger] capacity_attempt_recorded(final(self)@[j], *request, c.attempt_id)),
    {
        let now = request.now;
        let peer = &request.peer;
        self.expire_propagation(now)?;
        self.reconcile_deadlines_in(now)?;
        self.prune_propagation(now)?;
        self.upsert_observed_peer(peer, now)?;
        let ghost j: int = self@.len() as int;
        let stats = self.propagation_stats_in()?;
        let offered = request.offered;
        let mut stored: Vec<bool> = Vec::new();
        let mut i: usize = 0;
        while i < offered.len()
            invariant
                i <= offered.len(),
                stored@.len() == i,
                0 <= j,
                self@.len() == j + 1 + i,
                stats_read(self@[j], stats),
                forall|k: int| 0 <= k < i ==> stored_read(#[trigger] self@[j + 1 + k], offered@[k]@, stored@[k]),
            decreases offered.len() - i,
        {
            let id_args = [blob_arg(&offered[i])];
            assert(crate::sql::args_view(id_args@) =~= seq![ArgView::Blob(offered@[i as int]@)]);
            let ghost before = self@;
            let exists = self.bool_query(OFFER_STORED_SQL, &id_args)?;
            stored.push(exists);
            proof {
                assert forall|k: int| 0 <= k < i + 1 implies stored_read(#[trigger] self@[j + 1 + k], offered@[k]@, stored@[k]) by {
                    if k < i {
                        assert(self@[j + 1 + k] == before[j + 1 + k]);
                    }
                }
            }
            i = i + 1;
        }
        let ghost snap = self@;
        proof {
            assert(offer_reads(snap, j, offered@, stored@, stats));
        }
        let plan = plan_offer(request, stored.as_slice(), stats);
        let generated = plan.generated;
        let attempt_id = match request.existing_attempt {
            Some(a) => a,
            None => generated,
        };
        let generated_exists = self.bool_query(
            "SELECT EXISTS(SELECT 1 FROM standard_lxmf_propagation_attempts WHERE attempt_id = ?1)",
            &[blob_arg(&generated)],
        )?;
        let attempt_exists = self.bool_query(
            "SELECT EXISTS(SELECT 1 FROM standard_lxmf_propagation_attempts WHERE attempt_id = ?1)",
            &[blob_arg(&attempt_id)],
        )?;
        let attempt_count = i64_to_usize(
            self.int_query("SELECT COUNT(*) FROM standard_lxmf_propagation_attempts", &[])?,
            "attempt count",
        )?;
        if !attempt_exists && attempt_count >= MAX_ATTEMPTS {
            return Err(invalid("standard propagation attempt capacity exhausted"));
        }
        let offered_count = offered.len() as i64;
        if plan.refused {
            if !generated_exists && attempt_count >= MAX_ATTEMPTS {
                return Err(invalid("standard propagation attempt capacity exhausted"));
            }
            let refusal_args = [
                blob_arg(&generated),
                blob_arg(&request.request_id),
                blob_arg(peer),
                int_arg(now),
                int_arg(request.deadline),
                int_arg(offered_count),
            ];
            assert(crate::sql::args_view(refusal_args@) =~= capacity_attempt_args(*request, generated));
            self.exec(OFFER_CAPACITY_ATTEMPT_SQL, &refusal_args)?;
            let ghost refusal_at: int = self@.len() - 1;
            let ghost refused = self@;
            self.exec(
                "DELETE FROM standard_lxmf_propagation_attempt_items WHERE attempt_id = ?1",
                &[blob_arg(&generated)],
            )?;
            let mut k: usize = 0;
            while k < offered.len()
                invariant
                    k <= offered.len(),
                    crate::store::extends(snap, self@),
                    crate::store::extends(refused, self@),
                decreases offered.len() - k,
            {
                self.exec(
                    "INSERT INTO standard_lxmf_propagation_attempt_items
                     (attempt_id, transient_id, role) VALUES (?1, ?2, 'offered')",
                    &[blob_arg(&generated), blob_arg(&offered[k])],
                )?;
                k = k + 1;
            }
            self.record_failure_in("capacity", None, now, Some(peer), None, Some(&generated))?;
            self.exec(
                "UPDATE standard_lxmf_propagation_peers
                 SET offered_count = offered_count + ?2 WHERE identity_hash = ?1",
                &[blob_arg(peer), int_arg(offered_count)],
            )?;
            let c = StandardPropagationOfferComparison { wanted: Vec::new(), attempt_id: generated, capacity_rejected: true };
            assert(c.wanted@ =~= plan.wanted@);
            assert(c.wanted@ == offer_wanted(*request, stored@, stats));
            proof {
                lemma_offer_reads_extend(snap, self@, j, offered@, stored@, stats);
                assert(self@[refusal_at] == refused[refusal_at]);
                assert(capacity_attempt_recorded(self@[refusal_at], *request, c.attempt_id));
            }
            return Ok(c);
        }
        let scope = union_ids(request.same_link_pending, plan.wanted.as_slice());
        let attempt_offered_count = if request.existing_attempt.is_some() {
            scope.len()
        } else {
            offered.len()
        };
        let attempt_wanted_count = scope.len();
        let (stage, state) = if scope.len() == 0 {
            ("complete", "completed")
        } else {
            ("offer", "running")
        };
        self.exec(
            "INSERT INTO standard_lxmf_propagation_attempts
             (attempt_id, correlation_id, peer, direction, stage, state, started_at, updated_at,
              deadline_at, offered_count, wanted_count)
             VALUES (?1, ?2, ?3, 'ingress', ?4, ?5, ?6, ?6, ?7, ?8, ?9)
             ON CONFLICT(attempt_id) DO UPDATE SET
                 updated_at = excluded.updated_at,
                 deadline_at = excluded.deadline_at,
                 offered_count = MAX(offered_count, excluded.offered_count),
                 wanted_count = MAX(wanted_count, excluded.wanted_count),
                 state = excluded.state, stage = excluded.stage,
                 failure_code = NULL, failure_detail = NULL",
            &[
                blob_arg(&attempt_id),
                blob_arg(&request.request_id),
                blob_arg(peer),
                text_arg(stage),
                text_arg(state),
                int_arg(now),
                int_arg(request.deadline),
                SqlArg::Int(usize_to_i64(attempt_offered_count, "offered count")?),
                SqlArg::Int(usize_to_i64(attempt_wanted_count, "wanted count")?),
            ],
        )?;
        let mut k: usize = 0;
        while k < offered.len()
            invariant
                k <= offered.len(),
                crate::store::extends(snap, self@),
            decreases offered.len() - k,
        {
            self.exec(
                "INSERT OR IGNORE INTO standard_lxmf_propagation_attempt_items(attempt_id, transient_id, role)
                 VALUES (?1, ?2, 'offered')",
                &[blob_arg(&attempt_id), blob_arg(&offered[k])],
            )?;
            k = k + 1;
        }
        let mut w: usize = 0;
        while w < scope.len()
            invariant
                w <= scope.len(),
                crate::store::extends(snap, self@),
            decreases scope.len() - w,
        {
            self.exec(
                "INSERT OR IGNORE INTO standard_lxmf_propagation_attempt_items(attempt_id, transient_id, role)
                 VALUES (?1, ?2, 'wanted')",
                &[blob_arg(&attempt_id), blob_arg(&scope[w])],
            )?;
            w = w + 1;
        }
        self.exec(
            "UPDATE standard_lxmf_propagation_peers
             SET offered_count = offered_count + ?2, wanted_count = wanted_count + ?3
             WHERE identity_hash = ?1",
            &[
                blob_arg(peer),
                int_arg(offered_count),
                SqlArg::Int(usize_to_i64(plan.wanted.len(), "wanted count")?),
            ],
        )?;
        let c = StandardPropagationOfferComparison { wanted: plan.wanted, attempt_id, capacity_rejected: false };
        assert(c.wanted@ == offer_wanted(*request, stored@, stats));
        proof {
            lemma_offer_reads_extend(snap, self@, j, offered@, stored@, stats);
        }
        Ok(c)
    }
}

impl MessagesStore {
    // ── Transfers into the queue ────────────────────────────────────────

    /// Takes a batch of propagated messages into the queue. The batch must
    /// hold 1 to 1024 well-formed items, agreeing wherever they share a
    /// transient id; a tracked attempt needs a source peer, and a completing
    /// one a valid protocol. Items already queued or retired are not stored
    /// again. The batch is refused for capacity when the new items would take
    /// the queue past the policy's count or bytes.
    pub fn standard_propagation_ingest_batch(
        &mut self,
        request: StandardPropagationIngestRequest<'_>,
    ) -> (r: Result<StandardPropagationIngestOutcome, StoreError>)
        ensures
            !ingest_request_ok(request.items@.len(), request.source_peer, request.attempt, request.protocol)
                ==> (r matches Err(e) && e is InvalidParameter),
            !ingest_request_ok(request.items@.len(), request.source_peer, request.attempt, request.protocol)
                ==> final(self)@ == old(self)@,
            r is Ok ==> ingest_request_ok(request.items@.len(), request.source_peer, request.attempt, request.protocol)
                && batch_valid(request.items@) && batch_consistent(request.items@),
            r matches Ok(o) ==> exists|stats: StandardPropagationStats, stored: Seq<bool>|
                #![trigger ingest_over_capacity(stats, new_items_count(request.items@, stored, request.items@.len() as int) as usize,
                    new_items_bytes(request.items@, stored, request.items@.len() as int) as usize, request.policy)]
                stored.len() == request.items@.len()
                && new_items_bytes(request.items@, stored, request.items@.len() as int) <= usize::MAX
                && (o == StandardPropagationIngestOutcome::CapacityRejected <==> ingest_over_capacity(stats,
                    new_items_count(request.items@, stored, request.items@.len() as int) as usize,
                    new_items_bytes(request.items@, stored, request.items@.len() as int) as usize, request.policy))
                && stats_read_in(old(self)@, final(self)@, stats)
                && (o == StandardPropagationIngestOutcome::Accepted ==> new_items_inserted(final(self)@, old(self)@.len() as int, request.items@, stored))
                && ingest_within_limits(stats, new_items_count(request.items@, stored, request.items@.len() as int),
                    new_items_bytes(request.items@, stored, request.items@.len() as int), request.policy, o),
            r == Ok::<StandardPropagationIngestOutcome, StoreError>(StandardPropagationIngestOutcome::CapacityRejected)
                ==> capacity_failure_recorded(final(self)@.drop_last(), request.attempt, request.now),
            r == Ok::<StandardPropagationIngestOutcome, StoreError>(StandardPropagationIngestOutcome::CapacityRejected)
                ==> queues_no_item(old(self)@, final(self)@),
            r is Ok ==> crate::store::succeeded_atomically(old(self)@, final(self)@),
            r is Err ==> crate::store::failed_cleanly(old(self)@, final(self)@),
    {
        let items = request.items;
        let attempt_tracked = match request.attempt {
            StandardPropagationAttemptStatus::Untracked => false,
            _ => true,
        };
        let completing = match request.attempt {
            StandardPropagationAttemptStatus::Complete(_) => true,
            _ => false,
        };
        if items.len() == 0 || items.len() > MAX_BATCH_ITEMS {
            return Err(invalid("invalid standard propagation ingest batch"));
        }
        if attempt_tracked && request.source_peer.is_none() {
            return Err(invalid("tracked standard propagation ingest requires a source peer"));
        }
        if completing && request.protocol != StandardPropagationProtocolStatus::Valid {
            return Err(invalid("invalid standard propagation batch cannot complete an attempt"));
        }
        self.begin_immediate()?;
        let ghost began = self@;
        let done = self.ingest_in(&request);
        let ghost stepped = self@;
        let out = self.finish(done);
        proof {
            if out is Ok {
                let (stats, stored) = choose|stats: StandardPropagationStats, stored: Seq<bool>|
                    #![trigger ingest_over_capacity(stats, new_items_count(request.items@, stored, request.items@.len() as int) as usize,
                        new_items_bytes(request.items@, stored, request.items@.len() as int) as usize, request.policy)]
                    stored.len() == request.items@.len()
                    && new_items_bytes(request.items@, stored, request.items@.len() as int) <= usize::MAX
                    && (out->Ok_0 == StandardPropagationIngestOutcome::CapacityRejected <==> ingest_over_capacity(stats,
                        new_items_count(request.items@, stored, request.items@.len() as int) as usize,
                        new_items_bytes(request.items@, stored, request.items@.len() as int) as usize, request.policy))
                    && stats_read_in(began, stepped, stats)
                    && (out->Ok_0 == StandardPropagationIngestOutcome::Accepted ==> new_items_inserted(stepped, began.len() as int, request.items@, stored));
                let j = choose|j: int| began.len() <= j < stepped.len() && stats_read(#[trigger] stepped[j], stats);
                assert(self@[j] == stepped[j]);
                assert(stats_read_in(old(self)@, self@, stats));
                if out->Ok_0 == StandardPropagationIngestOutcome::Accepted {
                    lemma_new_items_inserted_widen(stepped, self@, began.len() as int, old(self)@.len() as int, request.items@, stored);
                }
                let n = request.items@.len() as int;
                lemma_new_items_nonneg(request.items@, stored, n);
                let count = new_items_count(request.items@, stored, n);
                let bytes = new_items_bytes(request.items@, stored, n);
                if stats.stored_bytes + bytes <= usize::MAX && stats.queued_count + count <= usize::MAX {
                    crate::laws::ingest_respects_queue_capacity(stats, count as usize, bytes as usize, request.policy);
                }
                if out->Ok_0 == StandardPropagationIngestOutcome::CapacityRejected {
                    assert forall|i: int, item: StandardPropagationItem| old(self)@.len() <= i < self@.len() implies !#[trigger] item_inserted(self@[i], item) by {
                        if i < stepped.len() {
                            assert(self@[i] == stepped[i]);
                            if i < began.len() {
                                assert(stepped[i] == began[i]);
                            }
                        }
                    }
                }
            }
        }
        out
    }

    fn ingest_in(&mut self, request: &StandardPropagationIngestRequest) -> (r: Result<StandardPropagationIngestOutcome, StoreError>)
        requires
            ingest_request_ok(request.items@.len(), request.source_peer, request.attempt, request.protocol),
        ensures
            crate::store::extends(old(self)@, final(self)@),
            r is Ok ==> batch_valid(request.items@) && batch_consistent(request.items@),
            r matches Ok(o) ==> exists|stats: StandardPropagationStats, stored: Seq<bool>|
                #![trigger ingest_over_capacity(stats, new_items_count(request.items@, stored, request.items@.len() as int) as usize,
                    new_items_bytes(request.items@, stored, request.items@.len() as int) as usize, request.policy)]
                stored.len() == request.items@.len()
                && new_items_bytes(request.items@, stored, request.items@.len() as int) <= usize::MAX
                && (o == StandardPropagationIngestOutcome::CapacityRejected <==> ingest_over_capacity(stats,
                    new_items_count(request.items@, stored, request.items@.len() as int) as usize,
                    new_items_bytes(request.items@, stored, request.items@.len() as int) as usize, request.policy))
                && stats_read_in(old(self)@, final(self)@, stats)
                && (o == StandardPropagationIngestOutcome::Accepted ==> new_items_inserted(final(self)@, old(self)@.len() as int, request.items@, stored)),
            r == Ok::<StandardPropagationIngestOutcome, StoreError>(StandardPropagationIngestOutcome::CapacityRejected)
                ==> capacity_failure_recorded(final(self)@, request.attempt, request.now),
            r == Ok::<StandardPropagationIngestOutcome, StoreError>(StandardPropagationIngestOutcome::CapacityRejected)
                ==> queues_no_item(old(self)@, final(self)@),
    {
        let items = request.items;
        let now = request.now;
        let attempt_id = request.attempt.attempt_id();
        self.expire_propagation(now)?;
        self.prune_propagation(now)?;
        // For each first occurrence of a transient id: 0 new, 1 queued, 2 retired.
        let mut firsts: Vec<usize> = Vec::new();
        let mut kinds: Vec<u8> = Vec::new();
        let mut new_count: usize = 0;
        let mut net_stored_bytes: usize = 0;
        let mut net_payload_bytes: usize = 0;
        let ghost mut stored: Seq<bool> = Seq::empty();
        let mut i: usize = 0;
        while i < items.len()
            invariant
                i <= items@.len(),
                batch_valid(items@.subrange(0, i as int)),
                batch_consistent(items@.subrange(0, i as int)),
                firsts@.len() == kinds@.len(),
                new_count <= i,
                items == request.items,
                stored.len() == i,
                new_count == new_items_count(items@, stored, i as int),
                net_stored_bytes == new_items_bytes(items@, stored, i as int),
                crate::store::extends(old(self)@, self@),
                queues_no_item(old(self)@, self@),
                forall|m: int| 0 <= m < firsts@.len() ==> firsts@[m] < i && first_of_id(items@, #[trigger] firsts@[m] as int)
                    && (kinds@[m] == 0 <==> !stored[firsts@[m] as int]),
                forall|x: int| 0 <= x < i && #[trigger] new_item(items@, stored, x) ==> exists|m: int| 0 <= m < firsts@.len()
                    && #[trigger] firsts@[m] == x && kinds@[m] == 0,
            decreases items.len() - i,
        {
            let ghost stored_before = stored;
            let ghost firsts_before = firsts@;
            let ghost kinds_before = kinds@;
            let item = &items[i];
            if !check_item(item) {
                return Err(invalid("invalid standard propagation ingest item"));
            }
            let duplicate = earlier_duplicate(items, i);
            proof {
                let prev = items@.subrange(0, i as int);
                let next = items@.subrange(0, i + 1);
                assert forall|k: int| 0 <= k < i implies #[trigger] next[k] == prev[k] by {}
                assert(next[i as int] == items@[i as int]);
            }
            match duplicate {
                Some(j) => {
                    if !same_item_content(&items[j], item) {
                        return Err(invalid("conflicting duplicate propagation item"));
                    }
                    proof {
                        assert(!first_of_id(items@, i as int)) by {
                            assert(items@[j as int].transient_id@ == items@[i as int].transient_id@);
                        }
                        lemma_new_items_prefix(items@, stored, true, i as int);
                        stored = stored.push(true);
                        assert(!new_item(items@, stored, i as int));
                    }
                    proof {
                        let prev = items@.subrange(0, i as int);
                        let next = items@.subrange(0, i + 1);
                        assert forall|a: int, b: int|
                            0 <= a < b < next.len() && (#[trigger] next[a]).transient_id@ == (#[trigger] next[b]).transient_id@
                        implies next[a].destination@ == next[b].destination@ && next[a].lxmf_data@ == next[b].lxmf_data@
                            && next[a].stamp@ == next[b].stamp@ by {
                            if b == i as int {
                                if a != j as int {
                                    if a < j as int {
                                        assert(prev[a].transient_id@ == prev[j as int].transient_id@);
                                    } else {
                                        assert(prev[j as int].transient_id@ == prev[a].transient_id@);
                                    }
                                }
                            } else {
                                assert(prev[a].transient_id@ == prev[b].transient_id@);
                            }
                        }
                    }
                },
                None => {
                    proof {
                        let prev = items@.subrange(0, i as int);
                        let next = items@.subrange(0, i + 1);
                        assert forall|a: int, b: int|
                            0 <= a < b < next.len() && (#[trigger] next[a]).transient_id@ == (#[trigger] next[b]).transient_id@
                        implies next[a].destination@ == next[b].destination@ && next[a].lxmf_data@ == next[b].lxmf_data@
                            && next[a].stamp@ == next[b].stamp@ by {
                            if b < i as int {
                                assert(prev[a].transient_id@ == prev[b].transient_id@);
                            }
                        }
                    }
                    let state = self.opt_text_query(
                        "SELECT state FROM standard_lxmf_propagation_items WHERE transient_id = ?1",
                        &[blob_arg(&item.transient_id)],
                    )?;
                    proof {
                        assert(first_of_id(items@, i as int));
                        lemma_new_items_prefix(items@, stored, state is Some, i as int);
                        stored = stored.push(state is Some);
                        assert(new_item(items@, stored, i as int) == (state is None));
                    }
                    let kind: u8 = match state {
                        None => {
                            if net_stored_bytes > usize::MAX - item.stored_size {
                                return Err(invalid("standard propagation ingest byte overflow"));
                            }
                            net_stored_bytes = net_stored_bytes + item.stored_size;
                            if net_payload_bytes > usize::MAX - item.lxmf_data.len() {
                                return Err(invalid("standard propagation payload byte overflow"));
                            }
                            net_payload_bytes = net_payload_bytes + item.lxmf_data.len();
                            new_count = new_count + 1;
                            0
                        },
                        Some(s) => if str_eq(s.as_str(), "queued") {
                            1
                        } else if str_eq(s.as_str(), "acknowledged") || str_eq(s.as_str(), "expired") {
                            2
                        } else {
                            return Err(invalid("invalid stored standard propagation item state"));
                        },
                    };
                    firsts.push(i);
                    kinds.push(kind);
                },
            }
            proof {
                let next = items@.subrange(0, i + 1);
                assert forall|k: int| 0 <= k < next.len() implies item_valid(#[trigger] next[k]) by {
                    if k < i {
                        assert(next[k] == items@.subrange(0, i as int)[k]);
                    }
                }
                assert forall|x: int| 0 <= x < i + 1 && #[trigger] new_item(items@, stored, x) implies exists|m: int| 0 <= m < firsts@.len()
                    && #[trigger] firsts@[m] == x && kinds@[m] == 0 by {
                    if x < i {
                        assert(new_item(items@, stored_before, x));
                        let m = choose|m: int| 0 <= m < firsts_before.len() && #[trigger] firsts_before[m] == x && kinds_before[m] == 0;
                        assert(firsts@[m] == x && kinds@[m] == 0);
                    } else {
                        let m = firsts@.len() - 1;
                        assert(firsts@[m] == x && kinds@[m] == 0);
                    }
                }
            }
            i = i + 1;
        }
        proof {
            assert(items@.subrange(0, items@.len() as int) =~= items@);
        }
        let ghost before_stats = self@;
        let stats = self.propagation_stats_in()?;
        let ghost stats_at: int = before_stats.len() as int;
        let ghost after_stats = self@;
        let exceeds = ingest_exceeds_capacity(stats, new_count, net_stored_bytes, request.policy);
        let ghost final_stored = stored;
        proof {
            assert(exceeds == ingest_over_capacity(stats,
                new_items_count(request.items@, final_stored, request.items@.len() as int) as usize,
                new_items_bytes(request.items@, final_stored, request.items@.len() as int) as usize, request.policy));
        }
        if exceeds {
            match request.source_peer {
                Some(peer) => {
                    self.upsert_observed_peer(&peer, now)?;
                    let attempt_ref = match &attempt_id {
                        Some(a) => Some(a),
                        None => None,
                    };
                    self.record_failure_in("capacity", None, now, Some(&peer), None, attempt_ref)?;
                },
                None => {},
            }
            match attempt_id {
                Some(a) => {
                    let fail_args = [blob_arg(&a), int_arg(now)];
                    assert(crate::sql::args_view(fail_args@) =~= seq![ArgView::Blob(a@), ArgView::Int(now)]);
                    self.exec(ATTEMPT_CAPACITY_FAILURE_SQL, &fail_args)?;
                },
                None => {},
            }
            proof {
                assert(self@[stats_at] == after_stats[stats_at]);
            }
            return Ok(StandardPropagationIngestOutcome::CapacityRejected);
        }
        let mut n: usize = 0;
        while n < firsts.len()
            invariant
                crate::store::extends(after_stats, self@),
                crate::store::extends(old(self)@, self@),
                n <= firsts.len(),
                firsts@.len() == kinds@.len(),
                items == request.items,
                forall|m: int| 0 <= m < n && kinds@[m] == 0 && firsts@[m] < items@.len() ==> exists|j: int| after_stats.len() <= j < self@.len()
                    && #[trigger] item_inserted(self@[j], items@[#[trigger] firsts@[m] as int]),
            decreases firsts.len() - n,
        {
            let ghost before = self@;
            if kinds[n] == 0 && firsts[n] < items.len() {
                let item = &items[firsts[n]];
                let stored_size = usize_to_i64(item.stored_size, "stored size")?;
                let item_args = [
                    blob_arg(&item.transient_id),
                    blob_arg(&item.destination),
                    blob_arg(item.lxmf_data.as_slice()),
                    blob_arg(&item.stamp),
                    int_arg(item.stamp_value as i64),
                    int_arg(item.received_at),
                    int_arg(item.expires_at),
                    SqlArg::Int(stored_size),
                ];
                assert(crate::sql::args_view(item_args@) =~= item_insert_args(*item));
                self.exec(INGEST_ITEM_SQL, &item_args)?;
                assert(item_inserted(self@.last(), items@[firsts@[n as int] as int]));
            }
            proof {
                assert forall|m: int| 0 <= m < n + 1 && kinds@[m] == 0 && firsts@[m] < items@.len() implies exists|j: int| after_stats.len() <= j < self@.len()
                    && #[trigger] item_inserted(self@[j], items@[#[trigger] firsts@[m] as int]) by {
                    if m < n {
                        let j = choose|j: int| after_stats.len() <= j < before.len()
                            && #[trigger] item_inserted(before[j], items@[firsts@[m] as int]);
                        assert(self@[j] == before[j]);
                    } else {
                        assert(item_inserted(self@[self@.len() - 1], items@[firsts@[m] as int]));
                    }
                }
            }
            n = n + 1;
        }
        let ghost inserted = self@;
        match request.source_peer {
            Some(peer) => {
                if new_count > 0 {
                    self.upsert_observed_peer(&peer, now)?;
                }
                let mut k: usize = 0;
                while k < firsts.len()
                    invariant
                        crate::store::extends(after_stats, self@),
                        crate::store::extends(old(self)@, self@),
                        crate::store::extends(inserted, self@),
                        k <= firsts.len(),
                        firsts@.len() == kinds@.len(),
                    decreases firsts.len() - k,
                {
                    if firsts[k] < items.len() && kinds[k] != 2 {
                        let id = &items[firsts[k]].transient_id;
                        self.exec(
                            "INSERT INTO standard_lxmf_propagation_peer_items
                             (peer, transient_id, disposition, updated_at)
                             VALUES (?1, ?2, 'handled', ?3)
                             ON CONFLICT(peer, transient_id) DO UPDATE SET
                                 disposition = 'handled', updated_at = excluded.updated_at",
                            &[blob_arg(&peer), blob_arg(id), int_arg(now)],
                        )?;
                        if kinds[k] == 0 {
                            self.exec(
                                "INSERT INTO standard_lxmf_propagation_peer_items
                                 (peer, transient_id, disposition, updated_at)
                                 SELECT identity_hash, ?1, 'unhandled', ?2
                                 FROM standard_lxmf_propagation_peers
                                 WHERE enabled = 1 AND identity_hash != ?3
                                 ON CONFLICT(peer, transient_id) DO NOTHING",
                                &[blob_arg(id), int_arg(now), blob_arg(&peer)],
                            )?;
                        }
                    }
                    k = k + 1;
                }
                if new_count > 0 {
                    self.exec(
                        "UPDATE standard_lxmf_propagation_peers
                         SET accepted_count = accepted_count + ?2,
                             accepted_bytes = accepted_bytes + ?3,
                             last_seen_at = MAX(last_seen_at, ?4), backoff_count = 0, retry_at = NULL
                         WHERE identity_hash = ?1",
                        &[
                            blob_arg(&peer),
                            SqlArg::Int(usize_to_i64(new_count, "accepted count")?),
                            SqlArg::Int(usize_to_i64(net_payload_bytes, "accepted payload bytes")?),
                            int_arg(now),
                        ],
                    )?;
                }
                match attempt_id {
                    Some(a) => {
                        self.record_ingest_attempt(request, &peer, &a, firsts.as_slice(), net_payload_bytes)?;
                    },
                    None => {},
                }
            },
            None => {
                if attempt_id.is_some() {
                    return Err(invalid("tracked standard propagation ingest requires source peer"));
                }
                let mut k: usize = 0;
                while k < firsts.len()
                    invariant
                        crate::store::extends(after_stats, self@),
                        crate::store::extends(old(self)@, self@),
                        crate::store::extends(inserted, self@),
                        k <= firsts.len(),
                        firsts@.len() == kinds@.len(),
                    decreases firsts.len() - k,
                {
                    if firsts[k] < items.len() && kinds[k] == 0 {
                        self.exec(
                            "INSERT INTO standard_lxmf_propagation_peer_items
                             (peer, transient_id, disposition, updated_at)
                             SELECT identity_hash, ?1, 'unhandled', ?2
                             FROM standard_lxmf_propagation_peers WHERE enabled = 1
                             ON CONFLICT(peer, transient_id) DO NOTHING",
                            &[blob_arg(&items[firsts[k]].transient_id), int_arg(now)],
                        )?;
                    }
                    k = k + 1;
                }
            },
        }
        proof {
            assert(self@[stats_at] == after_stats[stats_at]);
            assert forall|x: int| 0 <= x < items@.len() && #[trigger] new_item(items@, final_stored, x) implies exists|j: int|
                old(self)@.len() <= j < self@.len() && #[trigger] item_inserted(self@[j], items@[x]) by {
                let m = choose|m: int| 0 <= m < firsts@.len() && #[trigger] firsts@[m] == x && kinds@[m] == 0;
                let j = choose|j: int| after_stats.len() <= j < inserted.len()
                    && #[trigger] item_inserted(inserted[j], items@[firsts@[m] as int]);
                assert(self@[j] == inserted[j]);
            }
            assert(!ingest_over_capacity(stats,
                new_items_count(request.items@, final_stored, request.items@.len() as int) as usize,
                new_items_bytes(request.items@, final_stored, request.items@.len() as int) as usize, request.policy));
        }
        Ok(StandardPropagationIngestOutcome::Accepted)
    }

    /// Moves a tracked ingress attempt to its transfer stage, records what it
    /// accepted, and completes it when asked and nothing it wanted is missing.
    fn record_ingest_attempt(
        &mut self,
        request: &StandardPropagationIngestRequest,
        peer: &[u8; 16],
        attempt_id: &[u8; 16],
        firsts: &[usize],
        net_payload_bytes: usize,
    ) -> (r: Result<(), StoreError>)
        ensures
            crate::store::extends(old(self)@, final(self)@),
    {
        let now = request.now;
        let items = request.items;
        let changed = self.exec(
            "UPDATE standard_lxmf_propagation_attempts
             SET stage = 'transfer', updated_at = ?2,
                 failure_code = NULL, failure_detail = NULL
             WHERE attempt_id = ?1 AND peer = ?3 AND state = 'running'",
            &[blob_arg(attempt_id), int_arg(now), blob_arg(peer)],
        )?;
        if changed != 1 {
            return Err(invalid("standard propagation attempt is not running for source"));
        }
        let mut k: usize = 0;
        while k < firsts.len()
            invariant
                crate::store::extends(old(self)@, self@),
                k <= firsts.len(),
            decreases firsts.len() - k,
        {
            if firsts[k] < items.len() {
                self.exec(
                    "INSERT OR IGNORE INTO standard_lxmf_propagation_attempt_items
                     (attempt_id, transient_id, role) VALUES (?1, ?2, 'accepted')",
                    &[blob_arg(attempt_id), blob_arg(&items[firsts[k]].transient_id)],
                )?;
            }
            k = k + 1;
        }
        let accepted_count = self.int_query(
            "SELECT COUNT(*) FROM standard_lxmf_propagation_attempt_items
             WHERE attempt_id = ?1 AND role = 'accepted'",
            &[blob_arg(attempt_id)],
        )?;
        self.exec(
            "UPDATE standard_lxmf_propagation_attempts
             SET accepted_count = ?2, accepted_bytes = accepted_bytes + ?3
             WHERE attempt_id = ?1",
            &[blob_arg(attempt_id), int_arg(accepted_count), SqlArg::Int(usize_to_i64(net_payload_bytes, "accepted payload bytes")?)],
        )?;
        if request.protocol == StandardPropagationProtocolStatus::Invalid {
            self.record_failure_in("invalid_stamp", None, now, Some(peer), None, Some(attempt_id))?;
        }
        let completing = match request.attempt {
            StandardPropagationAttemptStatus::Complete(_) => true,
            _ => false,
        };
        if completing {
            let missing = self.bool_query(
                "SELECT EXISTS(
                     SELECT 1 FROM standard_lxmf_propagation_attempt_items wanted
                     WHERE wanted.attempt_id = ?1 AND wanted.role = 'wanted'
                       AND NOT EXISTS(
                           SELECT 1 FROM standard_lxmf_propagation_attempt_items accepted
                           WHERE accepted.attempt_id = wanted.attempt_id
                             AND accepted.transient_id = wanted.transient_id
                             AND accepted.role = 'accepted'
                       )
                 )",
                &[blob_arg(attempt_id)],
            )?;
            if missing {
                return Err(invalid("standard propagation completion has pending items"));
            }
            let accepted_bytes = self.int_query(
                "SELECT accepted_bytes FROM standard_lxmf_propagation_attempts
                 WHERE attempt_id = ?1",
                &[blob_arg(attempt_id)],
            )?;
            self.exec(
                "UPDATE standard_lxmf_propagation_attempts
                 SET state = 'completed', stage = 'complete', updated_at = ?2
                 WHERE attempt_id = ?1",
                &[blob_arg(attempt_id), int_arg(now)],
            )?;
            self.exec(
                "INSERT INTO standard_lxmf_propagation_checkpoints
                 (peer, direction, completed_stage, item_count, byte_count, last_attempt, updated_at)
                 VALUES (?1, 'ingress', 'complete', ?2, ?3, ?4, ?5)
                 ON CONFLICT(peer, direction) DO UPDATE SET
                     completed_stage = excluded.completed_stage,
                     item_count = excluded.item_count,
                     byte_count = excluded.byte_count,
                     last_attempt = excluded.last_attempt,
                     updated_at = excluded.updated_at",
                &[blob_arg(peer), int_arg(accepted_count), int_arg(accepted_bytes), blob_arg(attempt_id), int_arg(now)],
            )?;
        }
        Ok(())
    }
}

impl MessagesStore {
    // ── Downloads out of the queue ──────────────────────────────────────

    /// Serves a peer's download: acknowledges the `haves` it reports for the
    /// recipient, lists the recipient's queue when asked for an inventory,
    /// and returns the wanted payloads that fit the response limit, in the
    /// order `plan_get_payloads` takes them. The attempt is named by the
    /// request id, the peer, the operation and every id involved, in order.
    pub fn standard_propagation_get(
        &mut self,
        request: StandardPropagationGetRequest<'_>,
    ) -> (r: Result<StandardPropagationGetResult, StoreError>)
        ensures
            r matches Ok(res) ==> get_result_ok(request, res),
            r matches Ok(res) ==> exists|a0: int, d: Seq<[u8; 32]>, p0: int, sizes: Seq<Option<usize>>, datas: Seq<Seq<u8>>|
                #![trigger get_reads(final(self)@, request, a0, d, p0, sizes, datas)]
                old(self)@.len() < a0 && get_reads(final(self)@, request, a0, d, p0, sizes, datas)
                && byte_views(res.payloads@) == taken_payloads(opt_ids(request.wants), sizes, datas,
                    request.response_limit, opt_ids(request.wants).len() as int),
            r is Ok ==> crate::store::succeeded_atomically(old(self)@, final(self)@),
            r is Err ==> crate::store::failed_cleanly(old(self)@, final(self)@),
    {
        self.begin_immediate()?;
        let done = self.get_in(&request);
        let ghost stepped = self@;
        let out = self.finish(done);
        proof {
            if out is Ok {
                let (a0, d, p0, sizes, datas) = choose|a0: int, d: Seq<[u8; 32]>, p0: int, sizes: Seq<Option<usize>>, datas: Seq<Seq<u8>>|
                    #![trigger get_reads(stepped, request, a0, d, p0, sizes, datas)]
                    old(self)@.len() < a0 && get_reads(stepped, request, a0, d, p0, sizes, datas)
                    && byte_views(out->Ok_0.payloads@) == taken_payloads(opt_ids(request.wants), sizes, datas,
                        request.response_limit, opt_ids(request.wants).len() as int);
                lemma_get_reads_extend(stepped, self@, request, a0, d, p0, sizes, datas);
            }
        }
        out
    }

    fn get_in(&mut self, request: &StandardPropagationGetRequest) -> (r: Result<StandardPropagationGetResult, StoreError>)
        ensures
            r matches Ok(res) ==> get_result_ok(*request, res),
            r matches Ok(res) ==> exists|a0: int, d: Seq<[u8; 32]>, p0: int, sizes: Seq<Option<usize>>, datas: Seq<Seq<u8>>|
                #![trigger get_reads(final(self)@, *request, a0, d, p0, sizes, datas)]
                old(self)@.len() <= a0 && get_reads(final(self)@, *request, a0, d, p0, sizes, datas)
                && byte_views(res.payloads@) == taken_payloads(opt_ids(request.wants), sizes, datas,
                    request.response_limit, opt_ids(request.wants).len() as int),
    {
        let now = request.now;
        let peer = &request.peer;
        let recipient = &request.recipient;
        let operation = get_operation(request.inventory, request.haves.is_some());
        self.expire_propagation(now)?;
        self.reconcile_deadlines_in(now)?;
        self.prune_propagation(now)?;
        self.upsert_observed_peer(peer, now)?;
        let wants = ids_or_empty(request.wants);
        let haves = ids_or_empty(request.haves);
        let mut accepted: Vec<[u8; 32]> = Vec::new();
        let mut accepted_bytes: usize = 0;
        let distinct_haves = extend_sorted(Vec::new(), haves);
        let ghost a0: int = self@.len() as int;
        let mut h: usize = 0;
        while h < distinct_haves.len()
            invariant
                h <= distinct_haves.len(),
                0 <= a0,
                self@.len() == a0 + h,
                recipient@ == request.recipient@,
                now == request.now,
                forall|k: int| 0 <= k < h ==> ack_call(#[trigger] self@[a0 + k], distinct_haves@[k]@, request.recipient@, request.now),
            decreases distinct_haves.len() - h,
        {
            let ack_args = [blob_arg(&distinct_haves[h]), blob_arg(recipient), int_arg(now)];
            assert(crate::sql::args_view(ack_args@) =~= seq![
                ArgView::Blob(distinct_haves@[h as int]@),
                ArgView::Blob(request.recipient@),
                ArgView::Int(request.now),
            ]);
            let ghost before = self@;
            let changed = self.exec(GET_ACK_SQL, &ack_args)?;
            proof {
                assert forall|k: int| 0 <= k < h + 1 implies ack_call(#[trigger] self@[a0 + k], distinct_haves@[k]@, request.recipient@, request.now) by {
                    if k < h {
                        assert(self@[a0 + k] == before[a0 + k]);
                    }
                }
            }
            if changed == 1 {
                accepted.push(distinct_haves[h]);
            }
            h = h + 1;
        }
        let ghost acked = self@;
        let inventory_ids: Option<Vec<[u8; 32]>> = if request.inventory {
            let rows = self.rows(
                "SELECT transient_id FROM standard_lxmf_propagation_items
                 WHERE destination = ?1 AND state = 'queued'
                 ORDER BY stored_size, transient_id",
                &[blob_arg(recipient)],
            )?;
            let mut ids: Vec<[u8; 32]> = Vec::new();
            let mut k: usize = 0;
            while k < rows.len()
                invariant
                    k <= rows.len(),
                decreases rows.len() - k,
            {
                let id = crate::sql::col_array::<32>(rows[k].as_slice(), 0)?;
                ids.push(id);
                accepted.push(id);
                k = k + 1;
            }
            Some(ids)
        } else {
            None
        };
        let mut sizes: Vec<Option<usize>> = Vec::new();
        let mut datas: Vec<Vec<u8>> = Vec::new();
        let ghost p0: int = self@.len() as int;
        let mut w: usize = 0;
        while w < wants.len()
            invariant
                w <= wants.len(),
                sizes@.len() == w,
                datas@.len() == w,
                acked.len() <= p0,
                self@.len() == p0 + w,
                crate::store::extends(acked, self@),
                recipient@ == request.recipient@,
                forall|k: int| 0 <= k < w ==> payload_read(#[trigger] self@[p0 + k], wants@[k]@, request.recipient@, sizes@[k], datas@[k]@),
            decreases wants.len() - w,
        {
            let want_args = [blob_arg(&wants[w]), blob_arg(recipient)];
            assert(crate::sql::args_view(want_args@) =~= seq![
                ArgView::Blob(wants@[w as int]@),
                ArgView::Blob(request.recipient@),
            ]);
            let ghost before = self@;
            let row = self.first_row(GET_PAYLOAD_SQL, &want_args)?;
            match row {
                Some(row) => {
                    let data = col_blob(row.as_slice(), 0)?;
                    let stored_size = i64_to_usize(col_int(row.as_slice(), 1)?, "get stored size")?;
                    sizes.push(Some(stored_size));
                    datas.push(data);
                },
                None => {
                    sizes.push(None);
                    datas.push(Vec::new());
                },
            }
            proof {
                assert forall|k: int| 0 <= k < w + 1 implies payload_read(#[trigger] self@[p0 + k], wants@[k]@, request.recipient@, sizes@[k], datas@[k]@) by {
                    if k < w {
                        assert(self@[p0 + k] == before[p0 + k]);
                    }
                }
            }
            w = w + 1;
        }
        let ghost paid = self@;
        let taken = plan_get_payloads(wants, sizes.as_slice(), request.response_limit);
        let ghost data_views = byte_views(datas@);
        let mut payloads: Vec<Vec<u8>> = Vec::new();
        let mut t: usize = 0;
        while t < taken.len()
            invariant
                t <= taken.len(),
                taken@.len() == wants@.len(),
                datas@.len() == wants@.len(),
                sizes@.len() == wants@.len(),
                data_views == byte_views(datas@),
                forall|i: int| 0 <= i < wants@.len() ==> taken@[i] == get_takes(wants@, sizes@, request.response_limit, i),
                payloads@.len() <= t,
                byte_views(payloads@) == taken_payloads(wants@, sizes@, data_views, request.response_limit, t as int),
            decreases taken.len() - t,
        {
            let ghost before = payloads@;
            if taken[t] {
                accepted.push(wants[t]);
                accepted_bytes = accepted_bytes.saturating_add(datas[t].len());
                let copy = datas[t].clone();
                assert(copy@ =~= datas@[t as int]@);
                payloads.push(copy);
                assert(byte_views(payloads@) =~= byte_views(before).push(data_views[t as int]));
            } else {
                assert(payloads@ == before);
            }
            t = t + 1;
        }
        let stats = self.propagation_stats_in()?;
        if stats.queued_count > request.policy.queue_max_count || stats.stored_bytes > request.policy.queue_max_bytes {
            return Err(invalid("standard propagation queue exceeds capacity during get"));
        }
        let offered_partial = extend_sorted(extend_sorted(Vec::new(), wants), haves);
        let inventory_slice: &[[u8; 32]] = match &inventory_ids {
            Some(ids) => ids.as_slice(),
            None => {
                let empty: &[[u8; 32]] = &[];
                empty
            },
        };
        let offered_ids = extend_sorted(offered_partial, inventory_slice);
        let accepted_ids = extend_sorted(Vec::new(), accepted.as_slice());
        let attempt_id = crate::propagation::generated_get_attempt(
            &request.request_id,
            peer,
            op_bytes(operation),
            offered_ids.as_slice(),
        );
        let attempt_exists = self.bool_query(
            "SELECT EXISTS(SELECT 1 FROM standard_lxmf_propagation_attempts WHERE attempt_id = ?1)",
            &[blob_arg(&attempt_id)],
        )?;
        let attempt_count = i64_to_usize(
            self.int_query("SELECT COUNT(*) FROM standard_lxmf_propagation_attempts", &[])?,
            "attempt count",
        )?;
        if !attempt_exists && attempt_count >= MAX_ATTEMPTS {
            return Err(invalid("standard propagation attempt capacity exhausted"));
        }
        let offered_count = if offered_ids.len() >= accepted_ids.len() {
            offered_ids.len()
        } else {
            accepted_ids.len()
        };
        let wanted_count = if request.inventory {
            0
        } else {
            accepted_ids.len()
        };
        let direction = match operation {
            StandardPropagationGetOperation::Sync => "sync",
            _ => "egress",
        };
        self.exec(
            "INSERT INTO standard_lxmf_propagation_attempts
             (attempt_id, correlation_id, peer, direction, stage, state, started_at, updated_at,
              deadline_at, offered_count, wanted_count, accepted_count, accepted_bytes)
             VALUES (?1, ?2, ?3, ?4, 'get', 'completed', ?5, ?5, NULL, ?6, ?7, ?8, ?9)
             ON CONFLICT(attempt_id) DO UPDATE SET
                 updated_at = excluded.updated_at, state = 'completed', stage = 'get',
                 offered_count = excluded.offered_count, wanted_count = excluded.wanted_count,
                 accepted_count = excluded.accepted_count,
                 accepted_bytes = excluded.accepted_bytes,
                 failure_code = NULL, failure_detail = NULL",
            &[
                blob_arg(&attempt_id),
                blob_arg(&request.request_id),
                blob_arg(peer),
                text_arg(direction),
                int_arg(now),
                SqlArg::Int(usize_to_i64(offered_count, "get offered count")?),
                SqlArg::Int(usize_to_i64(wanted_count, "get wanted count")?),
                SqlArg::Int(usize_to_i64(accepted_ids.len(), "get accepted count")?),
                SqlArg::Int(usize_to_i64(accepted_bytes, "get accepted bytes")?),
            ],
        )?;
        self.exec(
            "INSERT INTO standard_lxmf_propagation_attempt_operations(attempt_id, operation)
             VALUES (?1, ?2)
             ON CONFLICT(attempt_id) DO UPDATE SET operation = excluded.operation",
            &[blob_arg(&attempt_id), text_arg(operation.as_str())],
        )?;
        self.exec(
            "INSERT INTO standard_lxmf_propagation_checkpoints
             (peer, direction, completed_stage, item_count, byte_count, last_attempt, updated_at)
             VALUES (?1, ?2, 'get', ?3, ?4, ?5, ?6)
             ON CONFLICT(peer, direction) DO UPDATE SET
                 completed_stage = excluded.completed_stage,
                 item_count = excluded.item_count,
                 byte_count = excluded.byte_count,
                 last_attempt = excluded.last_attempt,
                 updated_at = excluded.updated_at",
            &[
                blob_arg(peer),
                text_arg(direction),
                SqlArg::Int(usize_to_i64(accepted_ids.len(), "get checkpoint count")?),
                SqlArg::Int(usize_to_i64(accepted_bytes, "get checkpoint bytes")?),
                blob_arg(&attempt_id),
                int_arg(now),
            ],
        )?;
        let res = StandardPropagationGetResult { inventory: inventory_ids, payloads, attempt_id };
        proof {
            lemma_get_reads(acked, paid, self@, *request, a0, distinct_haves@, p0, sizes@, datas@);
            assert(get_reads(self@, *request, a0, distinct_haves@, p0, sizes@, data_views));
        }
        proof {
            assert(byte_views(res.payloads@) == taken_payloads(opt_ids(request.wants), sizes@, data_views,
                request.response_limit, opt_ids(request.wants).len() as int));
            assert(res.inventory is Some ==> opt_ids_of(res.inventory) == inventory_slice@);
            assert(res.inventory is None ==> inventory_slice@ =~= opt_ids_of(res.inventory));
        }
        Ok(res)
    }
}

/// The byte views of a list of byte vectors.
pub open spec fn byte_views(v: Seq<Vec<u8>>) -> Seq<Seq<u8>> {
    v.map_values(|b: Vec<u8>| b@)
}

/// The payloads, in want order, of the first `n` wants that the download
/// plan takes, given each want's stored size and data.
pub open spec fn taken_payloads(
    wants: Seq<[u8; 32]>,
    sizes: Seq<Option<usize>>,
    datas: Seq<Seq<u8>>,
    limit: usize,
    n: int,
) -> Seq<Seq<u8>>
    decreases n,
{
    if n <= 0 {
        Seq::empty()
    } else {
        let before = taken_payloads(wants, sizes, datas, limit, n - 1);
        if get_takes(wants, sizes, limit, n - 1) {
            before.push(datas[n - 1])
        } else {
            before
        }
    }
}

/// The ids of an optional owned list.
pub open spec fn opt_ids_of(o: Option<Vec<[u8; 32]>>) -> Seq<[u8; 32]> {
    match o {
        Some(ids) => ids@,
        None => Seq::empty(),
    }
}

/// What a download returns: an inventory exactly when one was asked for, no
/// more payloads than wants, and the attempt named by the request id, the
/// peer, the operation's name and the strictly increasing enumeration of
/// every wanted, reported and inventoried id.
pub open spec fn get_result_ok(request: StandardPropagationGetRequest, res: StandardPropagationGetResult) -> bool {
    &&& (res.inventory is Some <==> request.inventory)
    &&& res.payloads@.len() <= opt_ids(request.wants).len()
    &&& exists|sizes: Seq<Option<usize>>, datas: Seq<Seq<u8>>|
        #![trigger taken_payloads(opt_ids(request.wants), sizes, datas, request.response_limit, opt_ids(request.wants).len() as int)]
        sizes.len() == opt_ids(request.wants).len() && datas.len() == opt_ids(request.wants).len()
        && byte_views(res.payloads@) == taken_payloads(opt_ids(request.wants), sizes, datas, request.response_limit, opt_ids(request.wants).len() as int)
    &&& exists|ids: Seq<[u8; 32]>|
        #![trigger get_attempt_id(request.request_id, request.peer, operation_name_bytes(get_operation_of(request.inventory, request.haves is Some)), ids)]
        strictly_sorted(ids)
        && res.attempt_id@ == get_attempt_id(request.request_id, request.peer, operation_name_bytes(get_operation_of(request.inventory, request.haves is Some)), ids)
        && forall|x: [u8; 32]| has_id(ids, x) <==> (has_id(opt_ids(request.wants), x) || has_id(opt_ids(request.haves), x) || has_id(opt_ids_of(res.inventory), x))
}

impl MessagesStore {
    // ── Queue views ─────────────────────────────────────────────────────

    /// Expires and returns the queue's size, which must be within the policy.
    pub fn standard_propagation_stats(
        &mut self,
        now: i64,
        policy: StandardPropagationPolicy,
    ) -> (r: Result<StandardPropagationStats, StoreError>)
        ensures
            r matches Ok(s) ==> s.queued_count <= policy.queue_max_count && s.stored_bytes <= policy.queue_max_bytes,
            r is Ok ==> crate::store::succeeded_atomically(old(self)@, final(self)@),
            r is Err ==> crate::store::failed_cleanly(old(self)@, final(self)@),
    {
        self.begin_immediate()?;
        let done = self.stats_step(now, policy);
        self.finish(done)
    }

    fn stats_step(&mut self, now: i64, policy: StandardPropagationPolicy) -> (r: Result<StandardPropagationStats, StoreError>)
        ensures
            r matches Ok(s) ==> s.queued_count <= policy.queue_max_count && s.stored_bytes <= policy.queue_max_bytes,
    {
        self.expire_propagation(now)?;
        let stats = self.propagation_stats_in()?;
        if stats.queued_count > policy.queue_max_count || stats.stored_bytes > policy.queue_max_bytes {
            return Err(invalid("standard propagation queue exceeds capacity"));
        }
        Ok(stats)
    }

    /// Every queued item, ordered by transient id; the queue must be within
    /// the policy.
    pub fn standard_propagation_snapshot(
        &mut self,
        now: i64,
        policy: StandardPropagationPolicy,
    ) -> (r: Result<Vec<StandardPropagationItem>, StoreError>)
        ensures
            r matches Ok(items) ==> exists|j: int| old(self)@.len() <= j < final(self)@.len()
                && snapshot_read(#[trigger] final(self)@[j], items@),
            r is Ok ==> crate::store::succeeded_atomically(old(self)@, final(self)@),
            r is Err ==> crate::store::failed_cleanly(old(self)@, final(self)@),
    {
        self.begin_immediate()?;
        let done = self.snapshot_step(now, policy);
        let ghost stepped = self@;
        let out = self.finish(done);
        proof {
            if out is Ok {
                let j = choose|j: int| old(self)@.len() <= j < stepped.len() && snapshot_read(#[trigger] stepped[j], out->Ok_0@);
                assert(self@[j] == stepped[j]);
            }
        }
        out
    }

    fn snapshot_step(&mut self, now: i64, policy: StandardPropagationPolicy) -> (r: Result<Vec<StandardPropagationItem>, StoreError>)
        ensures
            r matches Ok(items) ==> exists|j: int| old(self)@.len() <= j < final(self)@.len()
                && snapshot_read(#[trigger] final(self)@[j], items@),
    {
        self.expire_propagation(now)?;
        let no_args: [SqlArg; 0] = [];
        assert(crate::sql::args_view(no_args@) =~= Seq::<ArgView>::empty());
        let ghost j: int = self@.len() as int;
        let rows = self.rows(SNAPSHOT_SQL, &no_args)?;
        let ghost read = self@;
        let mut items: Vec<StandardPropagationItem> = Vec::new();
        let mut i: usize = 0;
        while i < rows.len()
            invariant
                i <= rows.len(),
                items@.len() == i,
                forall|k: int| 0 <= k < i ==> item_from(rows@[k]@, #[trigger] items@[k]),
            decreases rows.len() - i,
        {
            items.push(item_row(rows[i].as_slice())?);
            i = i + 1;
        }
        let stats = self.propagation_stats_in()?;
        if stats.queued_count > policy.queue_max_count || stats.stored_bytes > policy.queue_max_bytes {
            return Err(invalid("standard propagation snapshot exceeds capacity"));
        }
        proof {
            assert(self@[j] == read[j]);
            assert forall|k: int| 0 <= k < items@.len() implies item_from(crate::sql::rows_view(rows@)[k], #[trigger] items@[k]) by {
                assert(crate::sql::rows_view(rows@)[k] == rows@[k]@);
            }
            assert(snapshot_read(self@[j], items@));
        }
        Ok(items)
    }

    /// A bounded picture of the propagation state at `now`: queue counts
    /// within the policy, the selection, and the newest peers, attempts,
    /// checkpoints and failures, each list cut at its limit and flagged when
    /// there were more.
    pub fn standard_propagation_observation(
        &mut self,
        now: i64,
        policy: StandardPropagationPolicy,
    ) -> (r: Result<StandardPropagationObservation, StoreError>)
        ensures
            r matches Ok(o) ==> observation_ok(o, now, policy),
            r matches Ok(o) ==> final(self)@.len() >= 5 && observation_reads(final(self)@.drop_last(), o),
            r is Ok ==> crate::store::succeeded_atomically(old(self)@, final(self)@),
            r is Err ==> crate::store::failed_cleanly(old(self)@, final(self)@),
    {
        self.begin_immediate()?;
        let done = self.observation_step(now, policy);
        self.finish(done)
    }

    fn observation_step(&mut self, now: i64, policy: StandardPropagationPolicy) -> (r: Result<StandardPropagationObservation, StoreError>)
        ensures
            r matches Ok(o) ==> observation_ok(o, now, policy),
            r matches Ok(o) ==> final(self)@.len() >= 4 && observation_reads(final(self)@, o),
    {
        self.expire_propagation(now)?;
        self.reconcile_deadlines_in(now)?;
        self.prune_propagation(now)?;
        let queue_row = crate::propagation_store::first_row_or_none(self.first_row(
            "SELECT
                 COALESCE(SUM(CASE WHEN state = 'queued' THEN 1 ELSE 0 END), 0),
                 COALESCE(SUM(CASE WHEN state = 'queued' THEN stored_size ELSE 0 END), 0),
                 COALESCE(SUM(CASE WHEN state = 'acknowledged' THEN 1 ELSE 0 END), 0),
                 COALESCE(SUM(CASE WHEN state = 'expired' THEN 1 ELSE 0 END), 0)
             FROM standard_lxmf_propagation_items",
            &[],
        )?)?;
        let queue = queue_observation_row(queue_row.as_slice())?;
        if queue.queued_count > policy.queue_max_count || queue.queued_bytes > policy.queue_max_bytes {
            return Err(invalid("standard propagation observation exceeds configured capacity"));
        }
        let selection = match self.first_row(
            "SELECT selected_peer, mode, selected_at
             FROM standard_lxmf_propagation_selection WHERE singleton = 1",
            &[],
        )? {
            Some(row) => Some(selection_row(row.as_slice())?),
            None => None,
        };
        let peer_args = [int_arg((STANDARD_PROPAGATION_OBSERVATION_PEER_LIMIT + 1) as i64)];
        assert(peer_args@ == seq![SqlArg::Int(129)]);
        let peer_read = self.rows(OBSERVATION_PEER_SQL, &peer_args);
        assert(self@.last() == crate::store::query_call(OBSERVATION_PEER_SQL@, seq![SqlArg::Int(129)], peer_read));
        let peer_rows = peer_read?;
        let ghost peer_rows_trace = self@;
        let mut peers: Vec<crate::propagation::StandardPropagationPeerObservation> = Vec::new();
        let mut i: usize = 0;
        while i < peer_rows.len() && i < STANDARD_PROPAGATION_OBSERVATION_PEER_LIMIT
            invariant
                i <= peer_rows.len(),
                i <= STANDARD_PROPAGATION_OBSERVATION_PEER_LIMIT,
                peers@.len() == i,
                forall|k: int| 0 <= k < i ==> crate::propagation_rows::peer_observation_from(peer_rows@[k]@, #[trigger] peers@[k]),
            decreases peer_rows.len() - i,
        {
            peers.push(peer_observation_row(peer_rows[i].as_slice())?);
            i = i + 1;
        }
        let peers_truncated = peer_rows.len() > STANDARD_PROPAGATION_OBSERVATION_PEER_LIMIT;
        proof {
            lemma_list_read(
                peer_rows_trace.last(),
                OBSERVATION_PEER_SQL@,
                STANDARD_PROPAGATION_OBSERVATION_PEER_LIMIT,
                peer_rows,
                peers@.len(),
                peers_truncated,
            );
        }
        if peers_truncated {
            let _ = peer_observation_row(peer_rows[STANDARD_PROPAGATION_OBSERVATION_PEER_LIMIT].as_slice())?;
        }
        let attempt_args = [int_arg((STANDARD_PROPAGATION_OBSERVATION_ATTEMPT_LIMIT + 1) as i64)];
        assert(attempt_args@ == seq![SqlArg::Int(257)]);
        let attempt_read = self.rows(OBSERVATION_ATTEMPT_SQL, &attempt_args);
        assert(self@.last() == crate::store::query_call(OBSERVATION_ATTEMPT_SQL@, seq![SqlArg::Int(257)], attempt_read));
        let attempt_rows = attempt_read?;
        let ghost attempt_rows_trace = self@;
        let mut attempts: Vec<crate::propagation::StandardPropagationAttemptObservation> = Vec::new();
        let mut a: usize = 0;
        while a < attempt_rows.len() && a < STANDARD_PROPAGATION_OBSERVATION_ATTEMPT_LIMIT
            invariant
                a <= attempt_rows.len(),
                a <= STANDARD_PROPAGATION_OBSERVATION_ATTEMPT_LIMIT,
                attempts@.len() == a,
                forall|k: int| 0 <= k < a ==> crate::propagation_rows::attempt_observation_from(attempt_rows@[k]@, #[trigger] attempts@[k]),
            decreases attempt_rows.len() - a,
        {
            attempts.push(attempt_observation_row(attempt_rows[a].as_slice())?);
            a = a + 1;
        }
        let attempts_truncated = attempt_rows.len() > STANDARD_PROPAGATION_OBSERVATION_ATTEMPT_LIMIT;
        proof {
            lemma_list_read(
                attempt_rows_trace.last(),
                OBSERVATION_ATTEMPT_SQL@,
                STANDARD_PROPAGATION_OBSERVATION_ATTEMPT_LIMIT,
                attempt_rows,
                attempts@.len(),
                attempts_truncated,
            );
        }
        if attempts_truncated {
            let _ = attempt_observation_row(attempt_rows[STANDARD_PROPAGATION_OBSERVATION_ATTEMPT_LIMIT].as_slice())?;
        }
        let checkpoint_args = [int_arg((STANDARD_PROPAGATION_OBSERVATION_CHECKPOINT_LIMIT + 1) as i64)];
        assert(checkpoint_args@ == seq![SqlArg::Int(129)]);
        let checkpoint_read = self.rows(OBSERVATION_CHECKPOINT_SQL, &checkpoint_args);
        assert(self@.last() == crate::store::query_call(OBSERVATION_CHECKPOINT_SQL@, seq![SqlArg::Int(129)], checkpoint_read));
        let checkpoint_rows = checkpoint_read?;
        let ghost checkpoint_rows_trace = self@;
        let mut checkpoints: Vec<crate::propagation::StandardPropagationCheckpointObservation> = Vec::new();
        let mut c: usize = 0;
        while c < checkpoint_rows.len() && c < STANDARD_PROPAGATION_OBSERVATION_CHECKPOINT_LIMIT
            invariant
                c <= checkpoint_rows.len(),
                c <= STANDARD_PROPAGATION_OBSERVATION_CHECKPOINT_LIMIT,
                checkpoints@.len() == c,
                forall|k: int| 0 <= k < c ==> crate::propagation_rows::checkpoint_observation_from(checkpoint_rows@[k]@, #[trigger] checkpoints@[k]),
            decreases checkpoint_rows.len() - c,
        {
            checkpoints.push(checkpoint_observation_row(checkpoint_rows[c].as_slice())?);
            c = c + 1;
        }
        let checkpoints_truncated = checkpoint_rows.len() > STANDARD_PROPAGATION_OBSERVATION_CHECKPOINT_LIMIT;
        proof {
            lemma_list_read(
                checkpoint_rows_trace.last(),
                OBSERVATION_CHECKPOINT_SQL@,
                STANDARD_PROPAGATION_OBSERVATION_CHECKPOINT_LIMIT,
                checkpoint_rows,
                checkpoints@.len(),
                checkpoints_truncated,
            );
        }
        if checkpoints_truncated {
            let _ = checkpoint_observation_row(checkpoint_rows[STANDARD_PROPAGATION_OBSERVATION_CHECKPOINT_LIMIT].as_slice())?;
        }
        let failure_args = [int_arg((STANDARD_PROPAGATION_OBSERVATION_FAILURE_LIMIT + 1) as i64)];
        assert(failure_args@ == seq![SqlArg::Int(129)]);
        let failure_read = self.rows(OBSERVATION_FAILURE_SQL, &failure_args);
        assert(self@.last() == crate::store::query_call(OBSERVATION_FAILURE_SQL@, seq![SqlArg::Int(129)], failure_read));
        let failure_rows = failure_read?;
        let ghost failure_rows_trace = self@;
        let mut failures: Vec<crate::propagation::StandardPropagationFailureObservation> = Vec::new();
        let mut f: usize = 0;
        while f < failure_rows.len() && f < STANDARD_PROPAGATION_OBSERVATION_FAILURE_LIMIT
            invariant
                f <= failure_rows.len(),
                f <= STANDARD_PROPAGATION_OBSERVATION_FAILURE_LIMIT,
                failures@.len() == f,
                forall|k: int| 0 <= k < f ==> crate::propagation_rows::failure_observation_from(failure_rows@[k]@, #[trigger] failures@[k]),
            decreases failure_rows.len() - f,
        {
            failures.push(failure_observation_row(failure_rows[f].as_slice())?);
            f = f + 1;
        }
        let failures_truncated = failure_rows.len() > STANDARD_PROPAGATION_OBSERVATION_FAILURE_LIMIT;
        proof {
            lemma_list_read(
                failure_rows_trace.last(),
                OBSERVATION_FAILURE_SQL@,
                STANDARD_PROPAGATION_OBSERVATION_FAILURE_LIMIT,
                failure_rows,
                failures@.len(),
                failures_truncated,
            );
        }
        if failures_truncated {
            let _ = failure_observation_row(failure_rows[STANDARD_PROPAGATION_OBSERVATION_FAILURE_LIMIT].as_slice())?;
        }
        proof {
            let t = self@;
            let n = t.len();
            assert(t == peer_rows_trace.push(attempt_rows_trace.last()).push(checkpoint_rows_trace.last()).push(
                failure_rows_trace.last(),
            ));
            assert(t[n - 4] == peer_rows_trace.last());
            assert(t[n - 3] == attempt_rows_trace.last());
            assert(t[n - 2] == checkpoint_rows_trace.last());
            assert(t[n - 1] == failure_rows_trace.last());
            assert forall|k: int| 0 <= k < peers@.len() implies crate::propagation_rows::peer_observation_from(call_rows(t[n - 4])[k], #[trigger] peers@[k]) by {
                assert(rows_view(peer_rows@)[k] == peer_rows@[k]@);
            }
            assert forall|k: int| 0 <= k < attempts@.len() implies crate::propagation_rows::attempt_observation_from(call_rows(t[n - 3])[k], #[trigger] attempts@[k]) by {
                assert(rows_view(attempt_rows@)[k] == attempt_rows@[k]@);
            }
            assert forall|k: int| 0 <= k < checkpoints@.len() implies crate::propagation_rows::checkpoint_observation_from(call_rows(t[n - 2])[k], #[trigger] checkpoints@[k]) by {
                assert(rows_view(checkpoint_rows@)[k] == checkpoint_rows@[k]@);
            }
            assert forall|k: int| 0 <= k < failures@.len() implies crate::propagation_rows::failure_observation_from(call_rows(t[n - 1])[k], #[trigger] failures@[k]) by {
                assert(rows_view(failure_rows@)[k] == failure_rows@[k]@);
            }
        }
        Ok(StandardPropagationObservation {
            observed_at: now,
            queue,
            selection,
            peers,
            attempts,
            checkpoints,
            failures,
            peers_truncated,
            attempts_truncated,
            checkpoints_truncated,
            failures_truncated,
        })
    }
}

/// The observation query of peers, newest first.
pub const OBSERVATION_PEER_SQL: &'static str = "SELECT identity_hash, propagation_destination, origin, enabled,
                    transfer_limit_kb, sync_limit_kb, stamp_cost, stamp_flexibility,
                    peering_cost, first_seen_at, last_seen_at, retry_at, backoff_count,
                    offered_count, wanted_count, accepted_count, accepted_bytes, failure_count
             FROM standard_lxmf_propagation_peers
             ORDER BY CASE WHEN identity_hash = (
                     SELECT selected_peer FROM standard_lxmf_propagation_selection
                     WHERE singleton = 1
                 ) THEN 0 ELSE 1 END,
                 last_seen_at DESC, identity_hash ASC LIMIT ?1";

/// The observation query of attempts, newest first.
pub const OBSERVATION_ATTEMPT_SQL: &'static str = "SELECT a.attempt_id, a.correlation_id, a.peer, a.direction,
                    COALESCE(o.operation, a.stage), a.state, a.started_at,
                    updated_at, deadline_at, offered_count, wanted_count, accepted_count,
                    accepted_bytes, failure_code
             FROM standard_lxmf_propagation_attempts a
             LEFT JOIN standard_lxmf_propagation_attempt_operations o
               ON o.attempt_id = a.attempt_id
             ORDER BY a.updated_at DESC, a.attempt_id ASC LIMIT ?1";

/// The observation query of checkpoints, newest first.
pub const OBSERVATION_CHECKPOINT_SQL: &'static str = "SELECT c.peer, c.direction, COALESCE(o.operation, c.completed_stage),
                    c.item_count, c.byte_count, c.last_attempt, c.updated_at
             FROM standard_lxmf_propagation_checkpoints c
             LEFT JOIN standard_lxmf_propagation_attempt_operations o
               ON o.attempt_id = c.last_attempt
             ORDER BY c.updated_at DESC, c.peer ASC, c.direction ASC LIMIT ?1";

/// The observation query of failures, newest first.
pub const OBSERVATION_FAILURE_SQL: &'static str = "SELECT code, occurred_at, peer, attempt_id
             FROM standard_lxmf_propagation_failures
             ORDER BY occurred_at DESC, failure_id DESC LIMIT ?1";

/// Whether `call` read `sql` for at most `limit + 1` rows, of which a list
/// of `len` items kept the first `limit`, flagged `cut` when more came back.
pub open spec fn list_read(call: SqlCall, sql: Seq<char>, limit: usize, len: nat, cut: bool) -> bool {
    &&& call matches SqlCall::Query(q, a, Some(rows))
    &&& q == sql
    &&& a == seq![ArgView::Int((limit + 1) as i64)]
    &&& len == (if rows.len() <= limit { rows.len() } else { limit as nat })
    &&& cut == (rows.len() > limit)
}

proof fn lemma_list_read(call: SqlCall, sql: Seq<char>, limit: usize, rows: Vec<Vec<SqlValue>>, len: nat, cut: bool)
    requires
        limit < 1000,
        call == crate::store::query_call(sql, seq![SqlArg::Int((limit + 1) as i64)], Ok(rows)),
        len == (if rows@.len() <= limit { rows@.len() } else { limit as nat }),
        cut == (rows@.len() > limit),
    ensures
        list_read(call, sql, limit, len, cut),
{
    assert(crate::sql::args_view(seq![SqlArg::Int((limit + 1) as i64)]) =~= seq![ArgView::Int((limit + 1) as i64)]);
    assert(rows_view(rows@).len() == rows@.len());
}

/// The last four calls of `t` are the reads of peers, attempts, checkpoints
/// and failures, each cut to its limit as the observation's lists are.
pub open spec fn observation_reads(t: Seq<SqlCall>, o: StandardPropagationObservation) -> bool {
    let n = t.len();
    &&& list_read(t[n - 4], OBSERVATION_PEER_SQL@, STANDARD_PROPAGATION_OBSERVATION_PEER_LIMIT, o.peers@.len(), o.peers_truncated)
    &&& list_read(t[n - 3], OBSERVATION_ATTEMPT_SQL@, STANDARD_PROPAGATION_OBSERVATION_ATTEMPT_LIMIT, o.attempts@.len(), o.attempts_truncated)
    &&& list_read(t[n - 2], OBSERVATION_CHECKPOINT_SQL@, STANDARD_PROPAGATION_OBSERVATION_CHECKPOINT_LIMIT, o.checkpoints@.len(), o.checkpoints_truncated)
    &&& list_read(t[n - 1], OBSERVATION_FAILURE_SQL@, STANDARD_PROPAGATION_OBSERVATION_FAILURE_LIMIT, o.failures@.len(), o.failures_truncated)
    &&& forall|k: int| 0 <= k < o.peers@.len() ==> crate::propagation_rows::peer_observation_from(call_rows(t[n - 4])[k], #[trigger] o.peers@[k])
    &&& forall|k: int| 0 <= k < o.attempts@.len() ==> crate::propagation_rows::attempt_observation_from(call_rows(t[n - 3])[k], #[trigger] o.attempts@[k])
    &&& forall|k: int| 0 <= k < o.checkpoints@.len() ==> crate::propagation_rows::checkpoint_observation_from(call_rows(t[n - 2])[k], #[trigger] o.checkpoints@[k])
    &&& forall|k: int| 0 <= k < o.failures@.len() ==> crate::propagation_rows::failure_observation_from(call_rows(t[n - 1])[k], #[trigger] o.failures@[k])
}

/// The rows a query returned; none for any other call.
pub open spec fn call_rows(call: SqlCall) -> Seq<Seq<SqlValue>> {
    match call {
        SqlCall::Query(_, _, Some(rows)) => rows,
        _ => Seq::empty(),
    }
}

/// What an observation promises: taken at `now`, a queue within the policy,
/// and each list within its limit, full when flagged as cut.
pub open spec fn observation_ok(o: StandardPropagationObservation, now: i64, policy: StandardPropagationPolicy) -> bool {
    &&& o.observed_at == now
    &&& o.queue.queued_count <= policy.queue_max_count
    &&& o.queue.queued_bytes <= policy.queue_max_bytes
    &&& o.peers@.len() <= STANDARD_PROPAGATION_OBSERVATION_PEER_LIMIT
    &&& o.attempts@.len() <= STANDARD_PROPAGATION_OBSERVATION_ATTEMPT_LIMIT
    &&& o.checkpoints@.len() <= STANDARD_PROPAGATION_OBSERVATION_CHECKPOINT_LIMIT
    &&& o.failures@.len() <= STANDARD_PROPAGATION_OBSERVATION_FAILURE_LIMIT
    &&& (o.peers_truncated ==> o.peers@.len() == STANDARD_PROPAGATION_OBSERVATION_PEER_LIMIT)
    &&& (o.attempts_truncated ==> o.attempts@.len() == STANDARD_PROPAGATION_OBSERVATION_ATTEMPT_LIMIT)
    &&& (o.checkpoints_truncated ==> o.checkpoints@.len() == STANDARD_PROPAGATION_OBSERVATION_CHECKPOINT_LIMIT)
    &&& (o.failures_truncated ==> o.failures@.len() == STANDARD_PROPAGATION_OBSERVATION_FAILURE_LIMIT)
}

/// Whether a selection mode is one the store accepts.
pub open spec fn selection_mode_ok(mode: Seq<char>) -> bool {
    mode == "automatic"@ || mode == "manual"@ || mode == "disabled"@
}

/// Whether a role is one a client attempt may begin with.
pub open spec fn begin_role_ok(role: Seq<char>) -> bool {
    role == "inventory"@ || role == "offered"@ || role == "accepted"@
}

/// Whether a role is one a client attempt may complete with.
pub open spec fn complete_role_ok(role: Seq<char>) -> bool {
    role == "inventory"@ || role == "accepted"@ || role == "returned"@
}

/// The smaller of two sizes.
pub open spec fn min_usize(a: usize, b: usize) -> usize {
    if a <= b { a } else { b }
}

fn smaller(a: usize, b: usize) -> (r: usize)
    ensures
        r == min_usize(a, b),
{
    if a <= b { a } else { b }
}

impl MessagesStore {
    // ── Selection, checkpoints, failures ────────────────────────────────

    /// Selects the propagation peer and mode: `automatic`, `manual` or
    /// `disabled`; any other mode is refused.
    pub fn standard_propagation_set_selection(
        &mut self,
        peer: Option<[u8; 16]>,
        mode: &str,
        now: i64,
    ) -> (r: Result<(), StoreError>)
        ensures
            !selection_mode_ok(mode@) ==> (r matches Err(e) && e is InvalidParameter),
            !selection_mode_ok(mode@) ==> final(self)@ == old(self)@,
            r is Ok ==> crate::store::succeeded_atomically(old(self)@, final(self)@),
            r is Err ==> crate::store::failed_cleanly(old(self)@, final(self)@),
    {
        if !(str_eq(mode, "automatic") || str_eq(mode, "manual") || str_eq(mode, "disabled")) {
            return Err(invalid("invalid standard propagation selection mode"));
        }
        self.begin_immediate()?;
        let done = self.set_selection_step(peer, mode, now);
        self.finish(done)
    }

    fn set_selection_step(&mut self, peer: Option<[u8; 16]>, mode: &str, now: i64) -> (r: Result<(), StoreError>) {
        self.expire_propagation(now)?;
        let peer_arg = match &peer {
            Some(p) => {
                self.upsert_observed_peer(p, now)?;
                blob_arg(p)
            },
            None => SqlArg::Null,
        };
        self.exec(
            "INSERT INTO standard_lxmf_propagation_selection(singleton, selected_peer, mode, selected_at)
             VALUES (1, ?1, ?2, ?3)
             ON CONFLICT(singleton) DO UPDATE SET selected_peer = excluded.selected_peer,
                 mode = excluded.mode, selected_at = excluded.selected_at",
            &[peer_arg, text_arg(mode), int_arg(now)],
        )?;
        Ok(())
    }

    /// The current selection, if one was made.
    pub fn standard_propagation_selection(&mut self) -> (r: Result<Option<crate::propagation::StandardPropagationSelection>, StoreError>) {
        match self.first_row(
            "SELECT selected_peer, mode, selected_at
             FROM standard_lxmf_propagation_selection WHERE singleton = 1",
            &[],
        )? {
            Some(row) => Ok(Some(selection_row(row.as_slice())?)),
            None => Ok(None),
        }
    }

    /// The checkpoint of `peer` in `direction`, if any.
    pub fn standard_propagation_checkpoint(
        &mut self,
        peer: [u8; 16],
        direction: &str,
    ) -> (r: Result<Option<crate::propagation::StandardPropagationCheckpoint>, StoreError>)
        ensures
            r matches Ok(Some(c)) ==> c.peer == peer && c.direction@ == direction@,
    {
        match self.first_row(
            "SELECT completed_stage, cursor, digest, item_count, byte_count,
                    last_attempt, updated_at
             FROM standard_lxmf_propagation_checkpoints
             WHERE peer = ?1 AND direction = ?2",
            &[blob_arg(&peer), text_arg(direction)],
        )? {
            Some(row) => Ok(Some(crate::propagation_rows::checkpoint_row(row.as_slice(), peer, direction)?)),
            None => Ok(None),
        }
    }

    /// Fails the running attempt of `peer`, checkpoints where it stood and
    /// records the failure; nothing happens when no such attempt runs.
    pub fn standard_propagation_record_attempt_failure(
        &mut self,
        attempt_id: [u8; 16],
        peer: [u8; 16],
        code: &str,
        detail: Option<&str>,
        now: i64,
    ) -> (r: Result<(), StoreError>)
        ensures
            r is Ok ==> exists|j: int, found: bool| old(self)@.len() <= j < final(self)@.len()
                && #[trigger] running_attempt_read(final(self)@[j], attempt_id@, peer@, found)
                && (!found ==> j == final(self)@.len() - 2),
            r is Ok ==> crate::store::succeeded_atomically(old(self)@, final(self)@),
            r is Err ==> crate::store::failed_cleanly(old(self)@, final(self)@),
    {
        self.begin_immediate()?;
        let done = self.record_attempt_failure_step(&attempt_id, &peer, code, detail, now);
        let ghost stepped = self@;
        let out = self.finish(done);
        proof {
            if out is Ok {
                let (j, found) = choose|j: int, found: bool| old(self)@.len() <= j < stepped.len()
                    && #[trigger] running_attempt_read(stepped[j], attempt_id@, peer@, found)
                    && (!found ==> j == stepped.len() - 1);
                assert(self@[j] == stepped[j]);
            }
        }
        out
    }

    fn record_attempt_failure_step(
        &mut self,
        attempt_id: &[u8; 16],
        peer: &[u8; 16],
        code: &str,
        detail: Option<&str>,
        now: i64,
    ) -> (r: Result<(), StoreError>)
        ensures
            r is Ok ==> exists|j: int, found: bool| old(self)@.len() <= j < final(self)@.len()
                && #[trigger] running_attempt_read(final(self)@[j], attempt_id@, peer@, found)
                && (!found ==> j == final(self)@.len() - 1),
    {
        self.expire_propagation(now)?;
        self.upsert_observed_peer(peer, now)?;
        let read_args = [blob_arg(attempt_id), blob_arg(peer)];
        assert(crate::sql::args_view(read_args@) =~= seq![ArgView::Blob(attempt_id@), ArgView::Blob(peer@)]);
        let ghost j: int = self@.len() as int;
        let found = self.first_row(RUNNING_ATTEMPT_SQL, &read_args)?;
        let ghost read = self@;
        assert(running_attempt_read(read[j], attempt_id@, peer@, found is Some));
        let row = match found {
            Some(row) => row,
            None => return Ok(()),
        };
        let direction = col_text(row.as_slice(), 0)?;
        let stage = col_text(row.as_slice(), 1)?;
        let accepted_count = col_int(row.as_slice(), 2)?;
        let accepted_bytes = col_int(row.as_slice(), 3)?;
        let changed = self.exec(
            "UPDATE standard_lxmf_propagation_attempts
             SET state = 'failed', stage = 'transfer', updated_at = ?2,
                 failure_code = ?3, failure_detail = NULL
             WHERE attempt_id = ?1 AND peer = ?4 AND state = 'running'",
            &[blob_arg(attempt_id), int_arg(now), text_arg(code), blob_arg(peer)],
        )?;
        if changed != 1 {
            return Err(invalid("standard propagation attempt failure race"));
        }
        self.exec(
            "INSERT INTO standard_lxmf_propagation_checkpoints
             (peer, direction, completed_stage, item_count, byte_count, last_attempt, updated_at)
             VALUES (?1, ?2, ?3, ?4, ?5, ?6, ?7)
             ON CONFLICT(peer, direction) DO UPDATE SET
                 completed_stage = excluded.completed_stage,
                 item_count = excluded.item_count,
                 byte_count = excluded.byte_count,
                 last_attempt = excluded.last_attempt,
                 updated_at = excluded.updated_at
             WHERE excluded.updated_at >= standard_lxmf_propagation_checkpoints.updated_at",
            &[
                blob_arg(peer),
                text_arg(direction.as_str()),
                text_arg(stage.as_str()),
                int_arg(accepted_count),
                int_arg(accepted_bytes),
                blob_arg(attempt_id),
                int_arg(now),
            ],
        )?;
        self.record_failure_in(code, detail, now, Some(peer), None, Some(attempt_id))?;
        self.prune_propagation(now)?;
        assert(self@[j] == read[j]);
        Ok(())
    }

    /// Interrupts a running attempt; tells whether one was.
    pub fn standard_propagation_interrupt_attempt(&mut self, attempt_id: [u8; 16], now: i64) -> (r: Result<bool, StoreError>)
        ensures
            r is Ok ==> crate::store::succeeded_atomically(old(self)@, final(self)@),
            r is Err ==> crate::store::failed_cleanly(old(self)@, final(self)@),
    {
        self.begin_immediate()?;
        let done = self.interrupt_step(&attempt_id, now);
        self.finish(done)
    }

    fn interrupt_step(&mut self, attempt_id: &[u8; 16], now: i64) -> (r: Result<bool, StoreError>) {
        self.expire_propagation(now)?;
        let changed = self.exec(
            "UPDATE standard_lxmf_propagation_attempts
             SET state = 'interrupted', updated_at = ?2, failure_code = 'interrupted'
             WHERE attempt_id = ?1 AND state = 'running'",
            &[blob_arg(attempt_id), int_arg(now)],
        )?;
        Ok(changed > 0)
    }

    /// The newest failures, at most `limit` and never more than are kept.
    pub fn standard_propagation_failures(&mut self, limit: usize) -> (r: Result<Vec<crate::propagation::StandardPropagationFailure>, StoreError>)
        ensures
            r matches Ok(v) ==> v@.len() <= min_usize(limit, MAX_FAILURES),
    {
        let limit = smaller(limit, MAX_FAILURES);
        let rows = self.rows(
            "SELECT code, detail, occurred_at, peer, transient_id, attempt_id
             FROM standard_lxmf_propagation_failures
             ORDER BY occurred_at DESC, failure_id DESC LIMIT ?1",
            &[int_arg(limit as i64)],
        )?;
        let mut out: Vec<crate::propagation::StandardPropagationFailure> = Vec::new();
        let mut i: usize = 0;
        while i < rows.len() && i < limit
            invariant
                i <= rows.len(),
                i <= limit,
                out@.len() == i,
            decreases rows.len() - i,
        {
            out.push(crate::propagation_rows::failure_row(rows[i].as_slice())?);
            i = i + 1;
        }
        Ok(out)
    }

    /// The selected peer when selection is enabled and the peer is enabled
    /// with a propagation destination.
    pub fn standard_propagation_selected_peer(&mut self) -> (r: Result<Option<StandardPropagationPeer>, StoreError>)
        ensures
            r matches Ok(Some(p)) ==> p.propagation_destination is Some,
    {
        match self.first_row(
            "SELECT p.identity_hash, p.propagation_destination, p.origin, p.enabled,
                    p.transfer_limit_kb, p.sync_limit_kb, p.stamp_cost,
                    p.stamp_flexibility, p.peering_cost, p.last_seen_at
             FROM standard_lxmf_propagation_selection s
             JOIN standard_lxmf_propagation_peers p ON p.identity_hash = s.selected_peer
             WHERE s.singleton = 1 AND s.mode != 'disabled' AND p.enabled = 1
               AND p.propagation_destination IS NOT NULL",
            &[],
        )? {
            Some(row) => Ok(Some(crate::propagation_rows::selected_peer_row(row.as_slice())?)),
            None => Ok(None),
        }
    }

    // ── Outbound jobs ───────────────────────────────────────────────────

    /// Materializes a prepared outbound job: a spooled job with its
    /// transient id, ciphertext and stamp replaces the preparation of the
    /// same message, whose route must still be resumable. Spooling the same
    /// content again succeeds without change; other content conflicts.
    pub fn standard_propagation_spool_outbound(
        &mut self,
        job: &crate::propagation::StandardPropagationClientJob,
    ) -> (r: Result<(), StoreError>)
        ensures
            (job.state@ != "spooled"@ || job.canonical_wire is Some) ==> (r matches Err(e) && e is InvalidParameter),
            (job.state@ != "spooled"@ || job.canonical_wire is Some) ==> final(self)@ == old(self)@,
            r is Ok ==> crate::store::succeeded_atomically(old(self)@, final(self)@),
            r is Err ==> crate::store::failed_cleanly(old(self)@, final(self)@),
    {
        if !str_eq(job.state.as_str(), "spooled") || job.canonical_wire.is_some() {
            return Err(invalid("materialization requires a spooled propagation job"));
        }
        self.begin_immediate()?;
        let done = self.spool_outbound_step(job);
        self.finish(done)
    }

    fn spool_outbound_step(&mut self, job: &crate::propagation::StandardPropagationClientJob) -> (r: Result<(), StoreError>) {
        let route_active = self.bool_query(
            "SELECT EXISTS(SELECT 1 FROM messages m JOIN outbound_routes r ON r.message_id = m.id
             WHERE m.id = ?1 AND r.actual_method = 'propagated'
               AND r.state IN ('queued','sending'))",
            &[text_arg(job.message_id.as_str())],
        )?;
        if !route_active {
            return Err(invalid("outbound propagation route is not resumable"));
        }
        let row = match self.first_row(
            "SELECT state, transient_id, lxmf_data, stamp
             FROM standard_lxmf_propagation_client_jobs WHERE message_id = ?1",
            &[text_arg(job.message_id.as_str())],
        )? {
            Some(row) => row,
            None => return Err(invalid("outbound propagation preparation is missing")),
        };
        let state = col_text(row.as_slice(), 0)?;
        let transient = crate::sql::col_opt_blob(row.as_slice(), 1)?;
        let data = crate::sql::col_opt_blob(row.as_slice(), 2)?;
        let stamp = crate::sql::col_opt_blob(row.as_slice(), 3)?;
        if !str_eq(state.as_str(), "preparing") {
            let job_transient: Option<&[u8]> = match &job.transient_id {
                Some(t) => Some(t.as_slice()),
                None => None,
            };
            let job_stamp: Option<&[u8]> = match &job.stamp {
                Some(s) => Some(s.as_slice()),
                None => None,
            };
            if str_eq(state.as_str(), "spooled") && opt_bytes_same(&transient, job_transient)
                && opt_bytes_same(&data, crate::store::opt_slice(&job.lxmf_data)) && opt_bytes_same(&stamp, job_stamp) {
                return Ok(());
            } else {
                return Err(invalid("conflicting outbound standard propagation spool"));
            }
        }
        let transient_id = match job.transient_id {
            Some(t) => t,
            None => return Err(invalid("materialized job transient is missing")),
        };
        let lxmf_data = match &job.lxmf_data {
            Some(d) => d,
            None => return Err(invalid("materialized job ciphertext is missing")),
        };
        let job_stamp = match job.stamp {
            Some(s) => s,
            None => return Err(invalid("materialized job stamp is missing")),
        };
        if !crate::propagation_store::check_materialized(lxmf_data.as_slice(), &job.destination, &transient_id) {
            return Err(invalid("invalid materialized standard propagation payload"));
        }
        let changed = self.exec(
            "UPDATE standard_lxmf_propagation_client_jobs
             SET transient_id = ?2, canonical_wire = NULL, lxmf_data = ?3, stamp = ?4,
                 state = 'spooled', updated_at = ?5
             WHERE message_id = ?1 AND state = 'preparing' AND destination = ?6
               AND peer = ?7 AND propagation_destination = ?8 AND stamp_cost = ?9
               AND peering_cost = ?10 AND correlation_id = ?11 AND attempt_id = ?12",
            &[
                text_arg(job.message_id.as_str()),
                blob_arg(&transient_id),
                blob_arg(lxmf_data.as_slice()),
                blob_arg(&job_stamp),
                int_arg(job.updated_at),
                blob_arg(&job.destination),
                blob_arg(&job.peer),
                blob_arg(&job.propagation_destination),
                int_arg(job.stamp_cost as i64),
                int_arg(job.peering_cost as i64),
                blob_arg(&job.correlation_id),
                blob_arg(&job.attempt_id),
            ],
        )?;
        if changed != 1 {
            return Err(invalid("persisted propagation preparation changed during materialization"));
        }
        self.insert_materialized_outbound_children(job, &transient_id)
    }

    /// The outbound job of a message, if any.
    pub fn standard_propagation_client_job(
        &mut self,
        message_id: &str,
    ) -> (r: Result<Option<crate::propagation::StandardPropagationClientJob>, StoreError>) {
        match self.first_row(
            "SELECT message_id, transient_id, destination, canonical_wire, lxmf_data, stamp, peer,
                    propagation_destination, stamp_cost, peering_cost, correlation_id,
                    attempt_id, state,
                    created_at, updated_at
             FROM standard_lxmf_propagation_client_jobs WHERE message_id = ?1",
            &[text_arg(message_id)],
        )? {
            Some(row) => Ok(Some(crate::propagation_rows::client_job_row(row.as_slice())?)),
            None => Ok(None),
        }
    }

    /// Unfinished outbound jobs whose routes are still live at `now_unix_ms`,
    /// oldest first, with their route deadlines; at most `limit` and 64.
    pub fn standard_propagation_recoverable_outbound_jobs(
        &mut self,
        now_unix_ms: i64,
        limit: usize,
    ) -> (r: Result<Vec<(String, i64)>, StoreError>)
        ensures
            r matches Ok(v) ==> v@.len() <= min_usize(limit, 64),
    {
        let limit = smaller(limit, 64);
        let rows = self.rows(
            "SELECT j.message_id, r.deadline_unix_ms
             FROM standard_lxmf_propagation_client_jobs j
             JOIN outbound_routes r ON r.message_id = j.message_id
              WHERE j.state IN ('preparing','spooled','uploading')
               AND r.state IN ('queued','sending') AND r.deadline_unix_ms > ?1
             ORDER BY j.updated_at, j.message_id LIMIT ?2",
            &[int_arg(now_unix_ms), int_arg(limit as i64)],
        )?;
        let mut out: Vec<(String, i64)> = Vec::new();
        let mut i: usize = 0;
        while i < rows.len() && i < limit
            invariant
                i <= rows.len(),
                i <= limit,
                out@.len() == i,
            decreases rows.len() - i,
        {
            let message_id = col_text(rows[i].as_slice(), 0)?;
            let deadline = col_int(rows[i].as_slice(), 1)?;
            out.push((message_id, deadline));
            i = i + 1;
        }
        Ok(out)
    }

    /// The attempt under which an outbound upload continues: its running
    /// attempt, or a new one named by its correlation id and the number of
    /// attempts it has had (see `resume_attempt_id`), whose deadline is at
    /// least `now`.
    pub fn standard_propagation_resume_outbound_attempt(
        &mut self,
        message_id: &str,
        now: i64,
        deadline: i64,
    ) -> (r: Result<[u8; 16], StoreError>)
        ensures
            r is Ok ==> crate::store::succeeded_atomically(old(self)@, final(self)@),
            r is Err ==> crate::store::failed_cleanly(old(self)@, final(self)@),
    {
        self.begin_immediate()?;
        let done = self.resume_step(message_id, now, deadline);
        self.finish(done)
    }

    fn resume_step(&mut self, message_id: &str, now: i64, deadline: i64) -> (r: Result<[u8; 16], StoreError>) {
        let row = crate::propagation_store::first_row_or_none(self.first_row(
            "SELECT j.correlation_id, j.attempt_id, j.peer, j.transient_id, a.state
             FROM standard_lxmf_propagation_client_jobs j
             JOIN outbound_routes r ON r.message_id = j.message_id
             JOIN standard_lxmf_propagation_attempts a ON a.attempt_id = j.attempt_id
             WHERE j.message_id = ?1 AND j.state IN ('spooled','uploading')
               AND r.state IN ('queued','sending')",
            &[text_arg(message_id)],
        )?)?;
        let row = row.as_slice();
        let correlation_id = crate::sql::col_array::<16>(row, 0)?;
        let current_attempt = crate::sql::col_array::<16>(row, 1)?;
        let peer = crate::sql::col_array::<16>(row, 2)?;
        let transient_id = crate::sql::col_array::<32>(row, 3)?;
        let state = col_text(row, 4)?;
        if str_eq(state.as_str(), "running") {
            return Ok(current_attempt);
        }
        let sequence = self.int_query(
            "SELECT COUNT(*) FROM standard_lxmf_propagation_attempts WHERE correlation_id = ?1",
            &[blob_arg(&correlation_id)],
        )?;
        let attempt_id = crate::propagation_plan::resumed_attempt(&correlation_id, sequence);
        let deadline_at = if deadline >= now { deadline } else { now };
        self.exec(
            "INSERT INTO standard_lxmf_propagation_attempts
             (attempt_id, correlation_id, peer, direction, stage, state, started_at, updated_at,
              deadline_at, offered_count, wanted_count, accepted_count, accepted_bytes)
             VALUES (?1, ?2, ?3, 'egress', 'offer', 'running', ?4, ?4, ?5, 1, 0, 0, 0)",
            &[blob_arg(&attempt_id), blob_arg(&correlation_id), blob_arg(&peer), int_arg(now), int_arg(deadline_at)],
        )?;
        self.exec(
            "UPDATE standard_lxmf_propagation_client_jobs
             SET attempt_id = ?2, updated_at = ?3 WHERE message_id = ?1",
            &[text_arg(message_id), blob_arg(&attempt_id), int_arg(now)],
        )?;
        self.exec(
            "UPDATE standard_lxmf_propagation_message_links
             SET attempt_id = ?2, updated_at = ?3
             WHERE message_id = ?1 AND relation = 'outbound' AND state = 'spooled'",
            &[text_arg(message_id), blob_arg(&attempt_id), int_arg(now)],
        )?;
        self.exec(
            "INSERT INTO standard_lxmf_propagation_client_attempt_items
             (attempt_id, transient_id, role, created_at) VALUES (?1, ?2, 'offered', ?3)",
            &[blob_arg(&attempt_id), blob_arg(&transient_id), int_arg(now)],
        )?;
        Ok(attempt_id)
    }

    /// Marks an uploading or spooled job accepted by the node, with its link
    /// and running attempt; tells whether a job changed.
    pub fn standard_propagation_mark_upload_accepted(&mut self, message_id: &str, now: i64) -> (r: Result<bool, StoreError>)
        ensures
            r is Ok ==> crate::store::succeeded_atomically(old(self)@, final(self)@),
            r is Err ==> crate::store::failed_cleanly(old(self)@, final(self)@),
    {
        self.begin_immediate()?;
        let done = self.mark_upload_accepted_step(message_id, now);
        self.finish(done)
    }

    fn mark_upload_accepted_step(&mut self, message_id: &str, now: i64) -> (r: Result<bool, StoreError>) {
        let changed = self.exec(
            "UPDATE standard_lxmf_propagation_client_jobs SET state = 'accepted', updated_at = ?2
             WHERE message_id = ?1 AND state IN ('spooled','uploading')",
            &[text_arg(message_id), int_arg(now)],
        )?;
        if changed > 0 {
            self.exec(
                "UPDATE standard_lxmf_propagation_message_links
                 SET state = 'accepted', updated_at = ?2
                 WHERE message_id = ?1 AND relation = 'outbound' AND state = 'spooled'",
                &[text_arg(message_id), int_arg(now)],
            )?;
            self.exec(
                "UPDATE standard_lxmf_propagation_attempts
                 SET stage = 'complete', state = 'completed', updated_at = ?2,
                     wanted_count = 1, accepted_count = 1,
                     accepted_bytes = (SELECT length(lxmf_data)
                                       FROM standard_lxmf_propagation_client_jobs
                                       WHERE message_id = ?1),
                     failure_code = NULL, failure_detail = NULL
                 WHERE attempt_id = (SELECT attempt_id
                                     FROM standard_lxmf_propagation_client_jobs
                                     WHERE message_id = ?1) AND state = 'running'",
                &[text_arg(message_id), int_arg(now)],
            )?;
        }
        Ok(changed > 0)
    }

    // ── Inbound links ───────────────────────────────────────────────────

    /// Links an inbound message to its transient id, pending acknowledgement.
    pub fn standard_propagation_link_inbound(
        &mut self,
        message_id: &str,
        transient_id: [u8; 32],
        attempt_id: [u8; 16],
        peer: [u8; 16],
        now: i64,
    ) -> (r: Result<(), StoreError>)
        ensures
            r is Ok ==> crate::store::succeeded_atomically(old(self)@, final(self)@),
            r is Err ==> crate::store::failed_cleanly(old(self)@, final(self)@),
    {
        self.begin_immediate()?;
        let done = self.link_inbound_in(message_id, &transient_id, &attempt_id, &peer, now);
        self.finish(done)
    }

    /// The transient ids still to acknowledge to `peer`, oldest first; at
    /// most `limit` and 1024.
    pub fn standard_propagation_pending_haves(&mut self, peer: [u8; 16], limit: usize) -> (r: Result<Vec<[u8; 32]>, StoreError>)
        ensures
            r matches Ok(v) ==> v@.len() <= min_usize(limit, MAX_BATCH_ITEMS),
    {
        let limit = smaller(limit, MAX_BATCH_ITEMS);
        let rows = self.rows(
            "SELECT transient_id FROM standard_lxmf_propagation_message_links
             WHERE relation = 'inbound' AND state = 'pending_ack' AND peer = ?1
             ORDER BY updated_at, transient_id LIMIT ?2",
            &[blob_arg(&peer), int_arg(limit as i64)],
        )?;
        let mut out: Vec<[u8; 32]> = Vec::new();
        let mut i: usize = 0;
        while i < rows.len() && i < limit
            invariant
                i <= rows.len(),
                i <= limit,
                out@.len() == i,
            decreases rows.len() - i,
        {
            out.push(crate::sql::col_array::<32>(rows[i].as_slice(), 0)?);
            i = i + 1;
        }
        Ok(out)
    }

    /// Marks the first 1024 of `transient_ids` acknowledged to `peer`, and
    /// records them accepted under `attempt_id`; returns how many links changed.
    pub fn standard_propagation_mark_haves_acknowledged(
        &mut self,
        peer: [u8; 16],
        transient_ids: &[[u8; 32]],
        attempt_id: [u8; 16],
        now: i64,
    ) -> (r: Result<usize, StoreError>)
        ensures
            r is Ok ==> crate::store::succeeded_atomically(old(self)@, final(self)@),
            r is Err ==> crate::store::failed_cleanly(old(self)@, final(self)@),
    {
        self.begin_immediate()?;
        let done = self.mark_haves_step(&peer, transient_ids, &attempt_id, now);
        self.finish(done)
    }

    fn mark_haves_step(&mut self, peer: &[u8; 16], transient_ids: &[[u8; 32]], attempt_id: &[u8; 16], now: i64) -> (r: Result<usize, StoreError>) {
        let mut changed: usize = 0;
        let mut i: usize = 0;
        while i < transient_ids.len() && i < MAX_BATCH_ITEMS
            invariant
                i <= transient_ids.len(),
            decreases transient_ids.len() - i,
        {
            let n = self.exec(
                "UPDATE standard_lxmf_propagation_message_links
                 SET state = 'acknowledged', updated_at = ?2
                 WHERE transient_id = ?1 AND peer = ?3
                   AND relation = 'inbound' AND state = 'pending_ack'",
                &[blob_arg(&transient_ids[i]), int_arg(now), blob_arg(peer)],
            )?;
            changed = changed.saturating_add(n);
            self.exec(
                "INSERT OR IGNORE INTO standard_lxmf_propagation_client_attempt_items
                 (attempt_id, transient_id, role, created_at) VALUES (?1, ?2, 'accepted', ?3)",
                &[blob_arg(attempt_id), blob_arg(&transient_ids[i]), int_arg(now)],
            )?;
            i = i + 1;
        }
        Ok(changed)
    }

    // ── Client attempts ─────────────────────────────────────────────────

    /// Starts a sync attempt of this node against `peer` over up to 1024 ids
    /// in a role of `inventory`, `offered` or `accepted`; others are refused.
    pub fn standard_propagation_begin_client_attempt(
        &mut self,
        attempt_id: [u8; 16],
        peer: [u8; 16],
        operation: StandardPropagationGetOperation,
        ids: &[[u8; 32]],
        role: &str,
        now: i64,
        deadline: i64,
    ) -> (r: Result<(), StoreError>)
        ensures
            (ids@.len() > MAX_BATCH_ITEMS || !begin_role_ok(role@)) ==> (r matches Err(e) && e is InvalidParameter),
            (ids@.len() > MAX_BATCH_ITEMS || !begin_role_ok(role@)) ==> final(self)@ == old(self)@,
            r is Ok ==> crate::store::succeeded_atomically(old(self)@, final(self)@),
            r is Err ==> crate::store::failed_cleanly(old(self)@, final(self)@),
    {
        if ids.len() > MAX_BATCH_ITEMS || !(str_eq(role, "inventory") || str_eq(role, "offered") || str_eq(role, "accepted")) {
            return Err(invalid("invalid standard propagation client attempt items"));
        }
        self.begin_immediate()?;
        let done = self.begin_client_attempt_step(&attempt_id, &peer, operation, ids, role, now, deadline);
        self.finish(done)
    }

    fn begin_client_attempt_step(
        &mut self,
        attempt_id: &[u8; 16],
        peer: &[u8; 16],
        operation: StandardPropagationGetOperation,
        ids: &[[u8; 32]],
        role: &str,
        now: i64,
        deadline: i64,
    ) -> (r: Result<(), StoreError>)
        requires
            ids@.len() <= MAX_BATCH_ITEMS,
    {
        self.upsert_observed_peer(peer, now)?;
        self.exec(
            "INSERT INTO standard_lxmf_propagation_attempts
             (attempt_id, correlation_id, peer, direction, stage, state, started_at, updated_at,
              deadline_at, offered_count, wanted_count, accepted_count, accepted_bytes)
             VALUES (?1, ?1, ?2, 'sync', 'get', 'running', ?3, ?3, ?4, ?5, 0, 0, 0)",
            &[blob_arg(attempt_id), blob_arg(peer), int_arg(now), int_arg(deadline), int_arg(ids.len() as i64)],
        )?;
        self.exec(
            "INSERT INTO standard_lxmf_propagation_attempt_operations(attempt_id, operation)
             VALUES (?1, ?2)",
            &[blob_arg(attempt_id), text_arg(operation.as_str())],
        )?;
        let mut i: usize = 0;
        while i < ids.len()
            invariant
                i <= ids.len(),
            decreases ids.len() - i,
        {
            self.exec(
                "INSERT INTO standard_lxmf_propagation_client_attempt_items
                 (attempt_id, transient_id, role, created_at) VALUES (?1, ?2, ?3, ?4)",
                &[blob_arg(attempt_id), blob_arg(&ids[i]), text_arg(role), int_arg(now)],
            )?;
            self.exec(
                "INSERT OR IGNORE INTO standard_lxmf_propagation_attempt_items
                 (attempt_id, transient_id, role) VALUES (?1, ?2, 'offered')",
                &[blob_arg(attempt_id), blob_arg(&ids[i])],
            )?;
            i = i + 1;
        }
        Ok(())
    }

    /// Completes this node's running sync attempt with up to 1024 ids in a
    /// role of `inventory`, `accepted` or `returned`, and checkpoints it.
    pub fn standard_propagation_complete_client_attempt(
        &mut self,
        attempt_id: [u8; 16],
        peer: [u8; 16],
        ids: &[[u8; 32]],
        role: &str,
        accepted_bytes: usize,
        now: i64,
    ) -> (r: Result<(), StoreError>)
        ensures
            (ids@.len() > MAX_BATCH_ITEMS || !complete_role_ok(role@)) ==> (r matches Err(e) && e is InvalidParameter),
            (ids@.len() > MAX_BATCH_ITEMS || !complete_role_ok(role@)) ==> final(self)@ == old(self)@,
            r is Ok ==> crate::store::succeeded_atomically(old(self)@, final(self)@),
            r is Err ==> crate::store::failed_cleanly(old(self)@, final(self)@),
    {
        if ids.len() > MAX_BATCH_ITEMS || !(str_eq(role, "inventory") || str_eq(role, "accepted") || str_eq(role, "returned")) {
            return Err(invalid("invalid completed standard propagation client attempt"));
        }
        self.begin_immediate()?;
        let done = self.complete_client_attempt_step(&attempt_id, &peer, ids, role, accepted_bytes, now);
        self.finish(done)
    }

    fn complete_client_attempt_step(
        &mut self,
        attempt_id: &[u8; 16],
        peer: &[u8; 16],
        ids: &[[u8; 32]],
        role: &str,
        accepted_bytes: usize,
        now: i64,
    ) -> (r: Result<(), StoreError>)
        requires
            ids@.len() <= MAX_BATCH_ITEMS,
    {
        let mut i: usize = 0;
        while i < ids.len()
            invariant
                i <= ids.len(),
            decreases ids.len() - i,
        {
            self.exec(
                "INSERT OR IGNORE INTO standard_lxmf_propagation_client_attempt_items
                 (attempt_id, transient_id, role, created_at) VALUES (?1, ?2, ?3, ?4)",
                &[blob_arg(attempt_id), blob_arg(&ids[i]), text_arg(role), int_arg(now)],
            )?;
            i = i + 1;
        }
        let bytes = usize_to_i64(accepted_bytes, "completed client bytes")?;
        let changed = self.exec(
            "UPDATE standard_lxmf_propagation_attempts
             SET stage = 'complete', state = 'completed', updated_at = ?3,
                 offered_count = MAX(offered_count, ?4), accepted_count = ?4,
                 accepted_bytes = ?5, failure_code = NULL, failure_detail = NULL
             WHERE attempt_id = ?1 AND peer = ?2 AND state = 'running'",
            &[blob_arg(attempt_id), blob_arg(peer), int_arg(now), int_arg(ids.len() as i64), int_arg(bytes)],
        )?;
        if changed != 1 {
            return Err(invalid("standard propagation client attempt is not running"));
        }
        self.exec(
            "INSERT INTO standard_lxmf_propagation_checkpoints
             (peer, direction, completed_stage, item_count, byte_count, last_attempt, updated_at)
             VALUES (?1, 'sync', 'complete', ?2, ?3, ?4, ?5)
             ON CONFLICT(peer, direction) DO UPDATE SET completed_stage = 'complete',
                 item_count = excluded.item_count, byte_count = excluded.byte_count,
                 last_attempt = excluded.last_attempt, updated_at = excluded.updated_at",
            &[blob_arg(peer), int_arg(ids.len() as i64), int_arg(bytes), blob_arg(attempt_id), int_arg(now)],
        )?;
        Ok(())
    }

    /// The newest links of a message to transient ids; at most `limit` and 64.
    pub fn standard_propagation_links_for_message(
        &mut self,
        message_id: &str,
        limit: usize,
    ) -> (r: Result<Vec<crate::propagation::StandardPropagationMessageLink>, StoreError>)
        ensures
            r matches Ok(v) ==> v@.len() <= min_usize(limit, 64),
    {
        let limit = smaller(limit, 64);
        let rows = self.rows(
            "SELECT message_id, transient_id, relation, attempt_id, peer, state, created_at, updated_at
             FROM standard_lxmf_propagation_message_links WHERE message_id = ?1
             ORDER BY updated_at DESC, transient_id LIMIT ?2",
            &[text_arg(message_id), int_arg(limit as i64)],
        )?;
        let mut out: Vec<crate::propagation::StandardPropagationMessageLink> = Vec::new();
        let mut i: usize = 0;
        while i < rows.len() && i < limit
            invariant
                i <= rows.len(),
                i <= limit,
                out@.len() == i,
            decreases rows.len() - i,
        {
            out.push(crate::propagation_rows::message_link_row(rows[i].as_slice())?);
            i = i + 1;
        }
        Ok(out)
    }

    /// The message a transient id is linked to, if any.
    pub fn standard_propagation_message_for_transient(&mut self, transient_id: [u8; 32]) -> (r: Result<Option<String>, StoreError>) {
        match self.first_row(
            "SELECT message_id FROM standard_lxmf_propagation_message_links WHERE transient_id = ?1",
            &[blob_arg(&transient_id)],
        )? {
            Some(row) => Ok(Some(col_text(row.as_slice(), 0)?)),
            None => Ok(None),
        }
    }
}

/// Whether stored optional bytes equal the given optional bytes.
fn opt_bytes_same(stored: &Option<Vec<u8>>, given: Option<&[u8]>) -> (r: bool)
    ensures
        r == (crate::text::opt_bytes(*stored) == match given {
            Some(g) => Some(g@),
            None => None::<Seq<u8>>,
        }),
{
    match (stored, given) {
        (Some(s), Some(g)) => bytes_eq(s.as_slice(), g),
        (None, None) => true,
        _ => false,
    }
}

/// Whether a queued item read back is intact: data beginning with its
/// destination and hashing to its transient id, a full stamp, and a stored
/// size of data and stamp.
pub open spec fn queued_intact(transient: [u8; 32], destination: [u8; 16], data: Seq<u8>, stamp: Seq<u8>, stored_size: usize) -> bool {
    &&& data.len() >= 16
    &&& crate::outside::sha256(data) == transient@
    &&& data.subrange(0, 16) == destination@
    &&& stamp.len() == 32
    &&& stored_size == crate::propagation::sat_add(data.len() as usize, stamp.len() as usize)
}

/// `queued_intact` computed.
pub fn queued_item_intact(transient: &[u8; 32], destination: &[u8; 16], data: &[u8], stamp: &[u8], stored_size: usize) -> (r: bool)
    ensures
        r == queued_intact(*transient, *destination, data@, stamp@, stored_size),
{
    if data.len() < 16 || stamp.len() != 32 || stored_size != data.len().saturating_add(stamp.len()) {
        return false;
    }
    let digest = crate::outside::sha256_digest(data);
    if !id_eq(&digest, transient) {
        return false;
    }
    let mut i: usize = 0;
    while i < 16
        invariant
            i <= 16,
            data@.len() >= 16,
            destination@.len() == 16,
            forall|j: int| 0 <= j < i ==> data@[j] == destination@[j],
        decreases 16 - i,
    {
        if data[i] != destination[i] {
            return false;
        }
        i = i + 1;
    }
    assert(data@.subrange(0, 16) =~= destination@);
    true
}

/// The read of whether an offered id is stored already.
pub const OFFER_STORED_SQL: &'static str = "SELECT EXISTS(SELECT 1 FROM standard_lxmf_propagation_items WHERE transient_id = ?1)";

/// Whether `call` asked whether `id` is stored and `b` is its answer.
pub open spec fn stored_read(call: SqlCall, id: Seq<u8>, b: bool) -> bool {
    &&& call matches SqlCall::Query(q, a, Some(_))
    &&& q == OFFER_STORED_SQL@
    &&& a == seq![ArgView::Blob(id)]
    &&& crate::store::query_int(call) is Some
    &&& b == (crate::store::query_int(call)->0 != 0)
}

/// Whether `t` holds, from position `j`, the read of the queue's figures
/// `stats` and then, one per offered id in order, the read of whether it is
/// stored, answered by `stored`.
pub open spec fn offer_reads(
    t: Seq<SqlCall>,
    j: int,
    offered: Seq<[u8; 32]>,
    stored: Seq<bool>,
    stats: StandardPropagationStats,
) -> bool {
    &&& 0 <= j
    &&& j + stored.len() < t.len()
    &&& crate::propagation_store::stats_read(t[j], stats)
    &&& forall|k: int| 0 <= k < stored.len() ==> stored_read(#[trigger] t[j + 1 + k], offered[k]@, stored[k])
}

proof fn lemma_offer_reads_extend(
    before: Seq<SqlCall>,
    after: Seq<SqlCall>,
    j: int,
    offered: Seq<[u8; 32]>,
    stored: Seq<bool>,
    stats: StandardPropagationStats,
)
    requires
        offer_reads(before, j, offered, stored, stats),
        crate::store::extends(before, after),
    ensures
        offer_reads(after, j, offered, stored, stats),
{
    assert(after[j] == before[j]);
    assert forall|k: int| 0 <= k < stored.len() implies stored_read(#[trigger] after[j + 1 + k], offered[k]@, stored[k]) by {
        assert(after[j + 1 + k] == before[j + 1 + k]);
    }
}

/// The statement that acknowledges a reported id for its recipient.
pub const GET_ACK_SQL: &'static str = "UPDATE standard_lxmf_propagation_items
                 SET state = 'acknowledged', lxmf_data = NULL, stamp = NULL,
                      stored_size = 0, terminal_at = ?3
                 WHERE transient_id = ?1 AND destination = ?2 AND state = 'queued'";

/// The read of a wanted item's payload and size for its recipient.
pub const GET_PAYLOAD_SQL: &'static str = "SELECT lxmf_data, stored_size FROM standard_lxmf_propagation_items
                 WHERE transient_id = ?1 AND destination = ?2 AND state = 'queued'";

/// Whether `call` acknowledged `id` for `recipient` at `now`.
pub open spec fn ack_call(call: SqlCall, id: Seq<u8>, recipient: Seq<u8>, now: i64) -> bool {
    &&& call matches SqlCall::Execute(q, a, Some(_))
    &&& q == GET_ACK_SQL@
    &&& a == seq![ArgView::Blob(id), ArgView::Blob(recipient), ArgView::Int(now)]
}

/// Whether `call` read the payload of `id` for `recipient`, and `size` and
/// `data` are what it found: nothing when no queued item matched, else the
/// stored size and bytes of the item.
pub open spec fn payload_read(call: SqlCall, id: Seq<u8>, recipient: Seq<u8>, size: Option<usize>, data: Seq<u8>) -> bool {
    &&& call matches SqlCall::Query(q, a, Some(rows))
    &&& q == GET_PAYLOAD_SQL@
    &&& a == seq![ArgView::Blob(id), ArgView::Blob(recipient)]
    &&& match size {
        None => rows.len() == 0 && data.len() == 0,
        Some(n) => rows.len() > 0 && rows[0].len() > 1 && crate::sql::opt_blob_col(rows[0], 0) == Some(data)
            && rows[0][1] == SqlValue::Int(n as i64),
    }
}

/// Whether `t` holds, from `a0`, the acknowledgement for the recipient of
/// each of `d`, the distinct reported ids, and from `p0`, one per want in
/// order, the read that found `sizes` and `datas`.
pub open spec fn get_reads(
    t: Seq<SqlCall>,
    request: StandardPropagationGetRequest,
    a0: int,
    d: Seq<[u8; 32]>,
    p0: int,
    sizes: Seq<Option<usize>>,
    datas: Seq<Seq<u8>>,
) -> bool {
    &&& 0 <= a0
    &&& a0 + d.len() <= p0
    &&& p0 + sizes.len() <= t.len()
    &&& forall|x: [u8; 32]| has_id(d, x) <==> has_id(opt_ids(request.haves), x)
    &&& forall|k: int| 0 <= k < d.len() ==> ack_call(#[trigger] t[a0 + k], d[k]@, request.recipient@, request.now)
    &&& sizes.len() == opt_ids(request.wants).len()
    &&& datas.len() == sizes.len()
    &&& forall|k: int| 0 <= k < sizes.len() ==> payload_read(#[trigger] t[p0 + k], opt_ids(request.wants)[k]@, request.recipient@, sizes[k], datas[k])
}

proof fn lemma_get_reads_extend(
    before: Seq<SqlCall>,
    after: Seq<SqlCall>,
    request: StandardPropagationGetRequest,
    a0: int,
    d: Seq<[u8; 32]>,
    p0: int,
    sizes: Seq<Option<usize>>,
    datas: Seq<Seq<u8>>,
)
    requires
        get_reads(before, request, a0, d, p0, sizes, datas),
        crate::store::extends(before, after),
    ensures
        get_reads(after, request, a0, d, p0, sizes, datas),
{
    assert forall|k: int| 0 <= k < d.len() implies ack_call(#[trigger] after[a0 + k], d[k]@, request.recipient@, request.now) by {
        assert(after[a0 + k] == before[a0 + k]);
    }
    assert forall|k: int| 0 <= k < sizes.len() implies payload_read(#[trigger] after[p0 + k], opt_ids(request.wants)[k]@, request.recipient@, sizes[k], datas[k]) by {
        assert(after[p0 + k] == before[p0 + k]);
    }
}

proof fn lemma_get_reads(
    acked: Seq<SqlCall>,
    paid: Seq<SqlCall>,
    t: Seq<SqlCall>,
    request: StandardPropagationGetRequest,
    a0: int,
    d: Seq<[u8; 32]>,
    p0: int,
    sizes: Seq<Option<usize>>,
    datas: Seq<Vec<u8>>,
)
    requires
        0 <= a0,
        a0 + d.len() <= acked.len(),
        acked.len() <= p0,
        p0 + sizes.len() <= paid.len(),
        crate::store::extends(acked, paid),
        crate::store::extends(paid, t),
        forall|x: [u8; 32]| has_id(d, x) <==> has_id(opt_ids(request.haves), x),
        forall|k: int| 0 <= k < d.len() ==> ack_call(#[trigger] acked[a0 + k], d[k]@, request.recipient@, request.now),
        sizes.len() == opt_ids(request.wants).len(),
        datas.len() == sizes.len(),
        forall|k: int| 0 <= k < sizes.len() ==> payload_read(#[trigger] paid[p0 + k], opt_ids(request.wants)[k]@, request.recipient@, sizes[k], datas[k]@),
    ensures
        get_reads(t, request, a0, d, p0, sizes, byte_views(datas)),
{
    assert forall|k: int| 0 <= k < d.len() implies ack_call(#[trigger] t[a0 + k], d[k]@, request.recipient@, request.now) by {
        assert(paid[a0 + k] == acked[a0 + k]);
        assert(t[a0 + k] == paid[a0 + k]);
    }
    assert forall|k: int| 0 <= k < sizes.len() implies payload_read(#[trigger] t[p0 + k], opt_ids(request.wants)[k]@, request.recipient@, sizes[k], byte_views(datas)[k]) by {
        assert(t[p0 + k] == paid[p0 + k]);
        assert(byte_views(datas)[k] == datas[k]@);
    }
}

/// Whether, among the calls `after` adds to `before`, one read the queue's
/// figures and found `stats`.
pub open spec fn stats_read_in(before: Seq<SqlCall>, after: Seq<SqlCall>, stats: StandardPropagationStats) -> bool {
    exists|j: int| before.len() <= j < after.len() && stats_read(#[trigger] after[j], stats)
}

/// The read of every queued item, by transient id.
pub const SNAPSHOT_SQL: &'static str = "SELECT transient_id, destination, lxmf_data, stamp, stamp_value,
                    received_at, expires_at, stored_size
             FROM standard_lxmf_propagation_items WHERE state = 'queued'
             ORDER BY transient_id";

/// Whether `call` read the queued items and `items` are the rows it
/// returned, one for one and in order.
pub open spec fn snapshot_read(call: SqlCall, items: Seq<StandardPropagationItem>) -> bool {
    &&& call matches SqlCall::Query(q, a, Some(rows))
    &&& q == SNAPSHOT_SQL@
    &&& a == Seq::<ArgView>::empty()
    &&& items.len() == rows.len()
    &&& forall|k: int| 0 <= k < items.len() ==> item_from(rows[k], #[trigger] items[k])
}

/// The read of a running attempt of a peer.
pub const RUNNING_ATTEMPT_SQL: &'static str = "SELECT direction, stage, accepted_count, accepted_bytes
             FROM standard_lxmf_propagation_attempts
             WHERE attempt_id = ?1 AND peer = ?2 AND state = 'running'";

/// Whether `call` looked for the running attempt `attempt` of `peer`, and
/// `found` says whether there was one.
pub open spec fn running_attempt_read(call: SqlCall, attempt: Seq<u8>, peer: Seq<u8>, found: bool) -> bool {
    &&& call matches SqlCall::Query(q, a, Some(rows))
    &&& q == RUNNING_ATTEMPT_SQL@
    &&& a == seq![ArgView::Blob(attempt), ArgView::Blob(peer)]
    &&& found == (rows.len() > 0)
}

/// The statement that queues a new item.
pub const INGEST_ITEM_SQL: &'static str = "INSERT INTO standard_lxmf_propagation_items
                     (transient_id, destination, lxmf_data, stamp, stamp_value, received_at,
                      expires_at, stored_size, state, terminal_at)
                     VALUES (?1, ?2, ?3, ?4, ?5, ?6, ?7, ?8, 'queued', NULL)";

/// The parameters with which an item is queued.
pub open spec fn item_insert_args(item: StandardPropagationItem) -> Seq<ArgView> {
    seq![
        ArgView::Blob(item.transient_id@),
        ArgView::Blob(item.destination@),
        ArgView::Blob(item.lxmf_data@),
        ArgView::Blob(item.stamp@),
        ArgView::Int(item.stamp_value as i64),
        ArgView::Int(item.received_at),
        ArgView::Int(item.expires_at),
        ArgView::Int(item.stored_size as i64),
    ]
}

/// Whether `call` queued `item` without error.
pub open spec fn item_inserted(call: SqlCall, item: StandardPropagationItem) -> bool {
    &&& call matches SqlCall::Execute(q, a, Some(_))
    &&& q == INGEST_ITEM_SQL@
    &&& a == item_insert_args(item)
}

/// Whether every item of `items` new to the queue was queued by a call of
/// `t` from position `from` on.
pub open spec fn new_items_inserted(t: Seq<SqlCall>, from: int, items: Seq<StandardPropagationItem>, stored: Seq<bool>) -> bool {
    forall|x: int| 0 <= x < items.len() && #[trigger] new_item(items, stored, x) ==> exists|j: int| from <= j < t.len()
        && #[trigger] item_inserted(t[j], items[x])
}

proof fn lemma_new_items_inserted_widen(
    before: Seq<SqlCall>,
    after: Seq<SqlCall>,
    from: int,
    outer: int,
    items: Seq<StandardPropagationItem>,
    stored: Seq<bool>,
)
    requires
        0 <= outer <= from,
        new_items_inserted(before, from, items, stored),
        crate::store::extends(before, after),
    ensures
        new_items_inserted(after, outer, items, stored),
{
    assert forall|x: int| 0 <= x < items.len() && #[trigger] new_item(items, stored, x) implies exists|j: int| outer <= j < after.len()
        && #[trigger] item_inserted(after[j], items[x]) by {
        let j = choose|j: int| from <= j < before.len() && #[trigger] item_inserted(before[j], items[x]);
        assert(after[j] == before[j]);
    }
}

/// The statement that fails a tracked attempt for capacity.
pub const ATTEMPT_CAPACITY_FAILURE_SQL: &'static str = "UPDATE standard_lxmf_propagation_attempts
                         SET state = 'failed', stage = 'transfer', updated_at = ?2,
                             failure_code = 'capacity' WHERE attempt_id = ?1";

/// Whether the last call of `t`, for a tracked attempt, failed it for
/// capacity at `now`.
pub open spec fn capacity_failure_recorded(t: Seq<SqlCall>, attempt: StandardPropagationAttemptStatus, now: i64) -> bool {
    match attempt {
        StandardPropagationAttemptStatus::Untracked => true,
        StandardPropagationAttemptStatus::Partial(a) | StandardPropagationAttemptStatus::Complete(a) => {
            &&& t.len() > 0
            &&& t.last() matches SqlCall::Execute(q, args, Some(_))
            &&& q == ATTEMPT_CAPACITY_FAILURE_SQL@
            &&& args == seq![ArgView::Blob(a@), ArgView::Int(now)]
        },
    }
}

/// The statement that records an offer refused for capacity as a failed
/// attempt.
pub const OFFER_CAPACITY_ATTEMPT_SQL: &'static str = "INSERT INTO standard_lxmf_propagation_attempts
                 (attempt_id, correlation_id, peer, direction, stage, state, started_at, updated_at,
                  deadline_at, offered_count, wanted_count, failure_code)
                 VALUES (?1, ?2, ?3, 'ingress', 'offer', 'failed', ?4, ?4, ?5, ?6, 0, 'capacity')
                 ON CONFLICT(attempt_id) DO UPDATE SET state = 'failed', stage = 'offer',
                     updated_at = excluded.updated_at, failure_code = 'capacity', failure_detail = NULL";

/// The parameters with which a refused offer's attempt `attempt` is kept.
pub open spec fn capacity_attempt_args(request: StandardPropagationOfferRequest, attempt: [u8; 16]) -> Seq<ArgView> {
    seq![
        ArgView::Blob(attempt@),
        ArgView::Blob(request.request_id@),
        ArgView::Blob(request.peer@),
        ArgView::Int(request.now),
        ArgView::Int(request.deadline),
        ArgView::Int(request.offered@.len() as i64),
    ]
}

/// Whether `call` recorded the offer as refused for capacity under
/// `attempt`, without error.
pub open spec fn capacity_attempt_recorded(call: SqlCall, request: StandardPropagationOfferRequest, attempt: [u8; 16]) -> bool {
    &&& call matches SqlCall::Execute(q, a, Some(_))
    &&& q == OFFER_CAPACITY_ATTEMPT_SQL@
    &&& a == capacity_attempt_args(request, attempt)
}

/// Whether none of the calls `after` adds to `before` queued an item.
pub open spec fn queues_no_item(before: Seq<SqlCall>, after: Seq<SqlCall>) -> bool {
    forall|i: int, item: StandardPropagationItem| before.len() <= i < after.len() ==> !#[trigger] item_inserted(after[i], item)
}

/// Whether the outcome `o` of an ingest keeps the queue within the
/// policy: refused when the queued items and bytes plus the new ones pass a
/// limit, and, when accepted, within both limits (while the sums fit).
pub open spec fn ingest_within_limits(
    stats: StandardPropagationStats,
    new_count: int,
    new_bytes: int,
    policy: StandardPropagationPolicy,
    o: StandardPropagationIngestOutcome,
) -> bool {
    stats.stored_bytes + new_bytes <= usize::MAX && stats.queued_count + new_count <= usize::MAX ==> {
        &&& stats.stored_bytes + new_bytes > policy.queue_max_bytes ==> o == StandardPropagationIngestOutcome::CapacityRejected
        &&& stats.queued_count + new_count > policy.queue_max_count ==> o == StandardPropagationIngestOutcome::CapacityRejected
        &&& o == StandardPropagationIngestOutcome::Accepted ==> stats.stored_bytes + new_bytes <= policy.queue_max_bytes
            && stats.queued_count + new_count <= policy.queue_max_count
    }
}

proof fn lemma_new_items_nonneg(items: Seq<StandardPropagationItem>, stored: Seq<bool>, n: int)
    ensures
        0 <= new_items_count(items, stored, n),
        0 <= new_items_bytes(items, stored, n),
    decreases n,
{
    if n > 0 {
        lemma_new_items_nonneg(items, stored, n - 1);
    }
}

} // verus!
