//! Properties of the storage rules that hold across operations and inputs.
use vstd::prelude::*;
use crate::conversations::search_pattern_of;
use crate::lifecycle::{delete_conflicts, progress_percent, terminal_state};
use crate::limits::{has_unescaped_wildcard, lemma_like_escape_literal, like_escaped, like_unescaped};
use crate::outside::{hex_digit, spec_hex_encode};
use crate::propagation::{
    get_attempt_id, get_operation_of, get_takes, has_id, ingest_over_capacity, StandardPropagationGetRequest,
    StandardPropagationGetResult, StandardPropagationOfferRequest, StandardPropagationPolicy, StandardPropagationStats,
};
use crate::propagation_plan::{offer_refused, offer_same, offer_unknown, offer_wanted};
use crate::propagation::{get_spent, offer_pick};
use crate::lifecycle::terminal_state as route_terminal;
use crate::lifecycle::route_admits;
use crate::outbound_store::finish_decided;
use crate::sql::SqlCall;
use crate::sql::{int_of, SqlValue};
use crate::ticket_store::{latest_ticket, valid_ticket_row};
use crate::propagation_ops::{get_result_ok, operation_name_bytes, opt_ids, opt_ids_of};
use crate::propagation_plan::{id_lt, lemma_bytes_gt_irrefl, lemma_bytes_gt_trans, strictly_sorted};
use crate::text::{all_lower_hex, ascii_lower, ascii_lower_char, is_lower_hex_char};

verus! {

/// A search finds its query literally: the pattern is the query escaped and
/// wrapped in `%`, and the escaped query has no wildcard of its own and
/// stands for exactly the query.
pub proof fn search_is_literal(query: Seq<char>)
    ensures
        search_pattern_of(query) == seq!['%'] + like_escaped(query) + seq!['%'],
        like_unescaped(like_escaped(query)) == query,
        !has_unescaped_wildcard(like_escaped(query)),
{
    lemma_like_escape_literal(query);
}

/// A message whose delivery has ended can always be deleted, whatever
/// method carried it.
pub proof fn ended_delivery_never_blocks_delete(state: Seq<char>, method: Option<Seq<char>>)
    requires
        terminal_state(state),
    ensures
        !delete_conflicts(Some(state), method),
{
}

/// A message handed to a propagation node can be deleted; one whose
/// delivery is otherwise still in progress cannot.
pub proof fn live_delivery_blocks_delete(state: Seq<char>, method: Option<Seq<char>>)
    requires
        !terminal_state(state),
    ensures
        delete_conflicts(Some(state), method) <==> !(state == "sent"@ && method == Some("propagated"@)),
{
}

/// Delivery progress is a percentage: zero when nothing is known or moved,
/// full once everything arrived, never above 100.
pub proof fn progress_is_a_percentage(transferred: int, total: int)
    requires
        0 <= transferred,
        0 <= total,
    ensures
        0 <= progress_percent(transferred, total) <= 100,
        total == 0 ==> progress_percent(transferred, total) == 0,
        transferred == 0 ==> progress_percent(transferred, total) == 0,
        0 < total <= transferred ==> progress_percent(transferred, total) == 100,
{
    if total > 0 {
        assert(transferred * 100 / total >= 0) by (nonlinear_arith)
            requires
                transferred >= 0,
                total > 0,
        ;
        if transferred == 0 {
            assert(0int * 100 / total == 0) by (nonlinear_arith)
                requires
                    total > 0,
            ;
        }
        if transferred >= total {
            assert(transferred * 100 / total >= 100) by (nonlinear_arith)
                requires
                    transferred >= total,
                    total > 0,
            ;
        }
    }
}

proof fn lemma_hex_encode_shape(bytes: Seq<u8>)
    ensures
        spec_hex_encode(bytes).len() == 2 * bytes.len(),
        all_lower_hex(spec_hex_encode(bytes)),
    decreases bytes.len(),
{
    if bytes.len() > 0 {
        lemma_hex_encode_shape(bytes.drop_first());
        let head = seq![hex_digit(bytes[0] as int / 16), hex_digit(bytes[0] as int % 16)];
        let rest = spec_hex_encode(bytes.drop_first());
        assert(spec_hex_encode(bytes) == head + rest);
        assert forall|i: int| 0 <= i < (head + rest).len() implies is_lower_hex_char(#[trigger] (head + rest)[i]) by {
            if i >= 2 {
                assert((head + rest)[i] == rest[i - 2]);
            } else {
                let v = if i == 0 { bytes[0] as int / 16 } else { bytes[0] as int % 16 };
                assert(0 <= v < 16);
                assert((head + rest)[i] == hex_digit(v));
            }
        }
    }
}

/// Hex encoding writes two lowercase digits per byte.
pub proof fn hex_encoding_is_lowercase_pairs(bytes: Seq<u8>)
    ensures
        spec_hex_encode(bytes).len() == 2 * bytes.len(),
        all_lower_hex(spec_hex_encode(bytes)),
{
    lemma_hex_encode_shape(bytes);
}

#[verifier::spinoff_prover]
proof fn lemma_sorted_unique(a: Seq<[u8; 32]>, b: Seq<[u8; 32]>)
    requires
        strictly_sorted(a),
        strictly_sorted(b),
        forall|x: [u8; 32]| has_id(a, x) <==> has_id(b, x),
    ensures
        a == b,
    decreases a.len() + b.len(),
{
    if a.len() == 0 {
        if b.len() > 0 {
            assert(has_id(b, b[0]));
        }
        assert(b =~= a);
    } else if b.len() == 0 {
        assert(has_id(a, a[0]));
    } else {
        assert(has_id(a, a[0]));
        assert(has_id(b, b[0]));
        let i = choose|j: int| 0 <= j < b.len() && (#[trigger] b[j])@ == a[0]@;
        let k = choose|j: int| 0 <= j < a.len() && (#[trigger] a[j])@ == b[0]@;
        assert(a[0]@ == b[0]@) by {
            if i > 0 {
                assert(id_lt(b[0], b[i]));
                if k > 0 {
                    assert(id_lt(a[0], a[k]));
                    lemma_bytes_gt_trans(a[0]@, b[0]@, a[0]@);
                    lemma_bytes_gt_irrefl(a[0]@);
                } else {
                    lemma_bytes_gt_irrefl(a[0]@);
                }
            }
        }
        assert(a[0] =~= b[0]);
        let a1 = a.drop_first();
        let b1 = b.drop_first();
        assert forall|x: [u8; 32]| has_id(a1, x) <==> has_id(b1, x) by {
            if has_id(a1, x) {
                let j = choose|j: int| 0 <= j < a1.len() && (#[trigger] a1[j])@ == x@;
                assert(a[j + 1] == a1[j]);
                assert(has_id(a, x));
                let m = choose|m: int| 0 <= m < b.len() && (#[trigger] b[m])@ == x@;
                if m == 0 {
                    assert(id_lt(a[0], a[j + 1]));
                    lemma_bytes_gt_irrefl(a[0]@);
                } else {
                    assert(b1[m - 1] == b[m]);
                }
            }
            if has_id(b1, x) {
                let j = choose|j: int| 0 <= j < b1.len() && (#[trigger] b1[j])@ == x@;
                assert(b[j + 1] == b1[j]);
                assert(has_id(b, x));
                let m = choose|m: int| 0 <= m < a.len() && (#[trigger] a[m])@ == x@;
                if m == 0 {
                    assert(id_lt(b[0], b[j + 1]));
                    lemma_bytes_gt_irrefl(b[0]@);
                } else {
                    assert(a1[m - 1] == a[m]);
                }
            }
        }
        assert(strictly_sorted(a1)) by {
            assert forall|i: int, j: int| 0 <= i < j < a1.len() implies id_lt(#[trigger] a1[i], #[trigger] a1[j]) by {
                assert(a1[i] == a[i + 1] && a1[j] == a[j + 1]);
            }
        }
        assert(strictly_sorted(b1)) by {
            assert forall|i: int, j: int| 0 <= i < j < b1.len() implies id_lt(#[trigger] b1[i], #[trigger] b1[j]) by {
                assert(b1[i] == b[i + 1] && b1[j] == b[j + 1]);
            }
        }
        lemma_sorted_unique(a1, b1);
        assert(a =~= b) by {
            assert(a1 == b1);
            assert(a.len() == b.len());
            assert forall|i: int| 0 <= i < a.len() implies a[i] == b[i] by {
                if i == 0 {
                    assert(a[0] == b[0]);
                } else {
                    assert(a[i] == a1[i - 1]);
                    assert(b[i] == b1[i - 1]);
                }
            }
        }
    }
}

/// Two strictly increasing lists of transient ids with the same ids are the
/// same list: a set of ids has exactly one such enumeration.
pub proof fn sorted_ids_are_unique(a: Seq<[u8; 32]>, b: Seq<[u8; 32]>)
    requires
        strictly_sorted(a),
        strictly_sorted(b),
        forall|x: [u8; 32]| has_id(a, x) <==> has_id(b, x),
    ensures
        a == b,
{
    lemma_sorted_unique(a, b);
}

/// A download's attempt is named by the set of ids it involves, not by the
/// order in which they were asked for: two results of one request that
/// inventoried the same ids name the same attempt.
pub proof fn download_attempt_names_its_ids(
    request: StandardPropagationGetRequest,
    first: StandardPropagationGetResult,
    second: StandardPropagationGetResult,
)
    requires
        get_result_ok(request, first),
        get_result_ok(request, second),
        forall|x: [u8; 32]| has_id(opt_ids_of(first.inventory), x) <==> has_id(opt_ids_of(second.inventory), x),
    ensures
        first.attempt_id@ == second.attempt_id@,
{
    let op = operation_name_bytes(get_operation_of(request.inventory, request.haves is Some));
    let a = choose|ids: Seq<[u8; 32]>|
        #![trigger get_attempt_id(request.request_id, request.peer, op, ids)]
        strictly_sorted(ids) && first.attempt_id@ == get_attempt_id(request.request_id, request.peer, op, ids)
            && forall|x: [u8; 32]| has_id(ids, x) <==> (has_id(opt_ids(request.wants), x) || has_id(
            opt_ids(request.haves),
            x,
        ) || has_id(opt_ids_of(first.inventory), x));
    let b = choose|ids: Seq<[u8; 32]>|
        #![trigger get_attempt_id(request.request_id, request.peer, op, ids)]
        strictly_sorted(ids) && second.attempt_id@ == get_attempt_id(request.request_id, request.peer, op, ids)
            && forall|x: [u8; 32]| has_id(ids, x) <==> (has_id(opt_ids(request.wants), x) || has_id(
            opt_ids(request.haves),
            x,
        ) || has_id(opt_ids_of(second.inventory), x));
    lemma_sorted_unique(a, b);
}

/// Roster identities are kept in ASCII lowercase, and lowercasing again
/// changes nothing: an entry stored under a normalized key is found, and
/// removed, under any ASCII casing of it.
pub proof fn roster_keys_are_stable(identity: Seq<char>)
    ensures
        ascii_lower(ascii_lower(identity)) == ascii_lower(identity),
{
    assert forall|i: int| 0 <= i < identity.len() implies #[trigger] ascii_lower_char(ascii_lower_char(identity[i]))
        == ascii_lower_char(identity[i]) by {
        let c = identity[i];
        if 'A' <= c && c <= 'Z' {
            let l = ((c as u32) + 32) as char;
            assert('a' <= l && l <= 'z');
        }
    }
    assert(ascii_lower(ascii_lower(identity)) =~= ascii_lower(identity));
}

/// An offer that carries an id the queue neither holds nor fetches is refused
/// for capacity once what is queued and what is pending fill the count
/// limit, or what is queued fills the byte limit. Otherwise it wants at most
/// as many such ids as the count limit leaves after the queued and pending
/// ones, besides the ids this link already asked for.
pub proof fn offer_respects_queue_capacity(
    req: StandardPropagationOfferRequest,
    stored: Seq<bool>,
    stats: StandardPropagationStats,
)
    ensures
        offer_unknown(req, stored).len() > 0 && stats.queued_count + req.pending_count >= req.policy.queue_max_count
            ==> offer_refused(req, stored, stats),
        offer_unknown(req, stored).len() > 0 && stats.stored_bytes >= req.policy.queue_max_bytes
            ==> offer_refused(req, stored, stats),
        offer_refused(req, stored, stats) ==> offer_wanted(req, stored, stats).len() == 0,
        !offer_refused(req, stored, stats) ==> offer_wanted(req, stored, stats).len() <= offer_same(req, stored).len()
            + if stats.queued_count + req.pending_count < req.policy.queue_max_count {
            req.policy.queue_max_count - stats.queued_count - req.pending_count
        } else {
            0
        },
{
}

/// An ingest is refused for capacity exactly when the queue's count plus the
/// new items, or its stored bytes plus theirs, would pass the policy's
/// limits; so an accepted ingest never takes the queue past either limit.
/// (The sums are taken as they saturate, so this holds while they fit.)
pub proof fn ingest_respects_queue_capacity(
    stats: StandardPropagationStats,
    new_count: usize,
    new_bytes: usize,
    policy: StandardPropagationPolicy,
)
    requires
        stats.stored_bytes + new_bytes <= usize::MAX,
        stats.queued_count + new_count <= usize::MAX,
    ensures
        stats.stored_bytes + new_bytes > policy.queue_max_bytes ==> ingest_over_capacity(stats, new_count, new_bytes, policy),
        stats.queued_count + new_count > policy.queue_max_count ==> ingest_over_capacity(stats, new_count, new_bytes, policy),
        !ingest_over_capacity(stats, new_count, new_bytes, policy) ==> stats.stored_bytes + new_bytes
            <= policy.queue_max_bytes && stats.queued_count + new_count <= policy.queue_max_count,
{
}

/// A download takes each wanted id at most once: of two wants of the same
/// transient id, at most one is returned, so no payload appears twice.
pub proof fn download_returns_each_id_once(
    wants: Seq<[u8; 32]>,
    sizes: Seq<Option<usize>>,
    limit: usize,
    i: int,
    j: int,
)
    requires
        0 <= i < j < wants.len(),
        wants[i]@ == wants[j]@,
    ensures
        !(get_takes(wants, sizes, limit, i) && get_takes(wants, sizes, limit, j)),
{
    assert(get_takes(wants, sizes, limit, j) ==> !crate::propagation::repeated_before(wants, j));
    assert(crate::propagation::repeated_before(wants, j)) by {
        assert(wants[i]@ == wants[j]@);
    }
}

/// A route that is queued or sending always moves to `sent`, whatever the
/// receipts.
pub proof fn live_route_moves_to_sent(current: Seq<char>, stored_receipt: Seq<char>, receipt: Seq<char>)
    requires
        current == "queued"@ || current == "sending"@,
    ensures
        route_admits(current, stored_receipt, "sent"@, receipt),
{
}

/// The active ticket is the valid one that expires last: among the rows
/// read, the chosen one holds a ticket of the peer in the direction that is
/// still valid, and no valid ticket expires after it; none is chosen only
/// when no row holds a valid ticket.
pub proof fn active_ticket_expires_last(
    rows: Seq<Seq<SqlValue>>,
    peer: Seq<char>,
    direction: Seq<char>,
    now: i64,
    n: int,
)
    requires
        0 <= n <= rows.len(),
    ensures
        latest_ticket(rows, peer, direction, now, n) matches Some(k) ==> 0 <= k < n && valid_ticket_row(
            rows[k],
            peer,
            direction,
            now,
        ) && forall|j: int| 0 <= j < n && valid_ticket_row(#[trigger] rows[j], peer, direction, now) ==> int_of(
            rows[j][2],
        ) <= int_of(rows[k][2]),
        latest_ticket(rows, peer, direction, now, n) is None ==> forall|j: int| 0 <= j < n ==> !valid_ticket_row(
            #[trigger] rows[j],
            peer,
            direction,
            now,
        ),
    decreases n,
{
    if n > 0 {
        active_ticket_expires_last(rows, peer, direction, now, n - 1);
    }
}

/// Finishing a delivery as `sent` succeeds on a route that was read as
/// queued or sending: the finish reports true.
pub proof fn finish_sent_on_live_route(
    call: SqlCall,
    message_id: Seq<char>,
    receipt: Seq<char>,
    b: bool,
    rows: Seq<Seq<SqlValue>>,
)
    requires
        finish_decided(call, message_id, "sent"@, receipt, b),
        call matches SqlCall::Query(_, _, Some(r)) && r == rows,
        rows.len() > 0,
        crate::sql::text_value(rows[0][0]) == Some("queued"@) || crate::sql::text_value(rows[0][0]) == Some("sending"@),
        crate::sql::text_value(rows[0][1]) is Some,
    ensures
        b,
{
    live_route_moves_to_sent(
        crate::sql::text_value(rows[0][0])->0,
        crate::sql::text_value(rows[0][1])->0,
        receipt,
    );
}

proof fn lemma_pick_members(
    offered: Seq<[u8; 32]>,
    stored: Seq<bool>,
    same: Seq<[u8; 32]>,
    elsewhere: Seq<[u8; 32]>,
    pending: bool,
    n: int,
)
    requires
        0 <= n <= offered.len(),
        stored.len() == offered.len(),
    ensures
        forall|k: int| 0 <= k < offer_pick(offered, stored, same, elsewhere, pending, n).len() ==> exists|i: int|
            0 <= i < n && offered[i] == #[trigger] offer_pick(offered, stored, same, elsewhere, pending, n)[k]
                && !stored[i] && !has_id(elsewhere, offered[i]) && has_id(same, offered[i]) == pending,
    decreases n,
{
    if n > 0 {
        lemma_pick_members(offered, stored, same, elsewhere, pending, n - 1);
        let prev = offer_pick(offered, stored, same, elsewhere, pending, n - 1);
        let cur = offer_pick(offered, stored, same, elsewhere, pending, n);
        assert forall|k: int| 0 <= k < cur.len() implies exists|i: int|
            0 <= i < n && offered[i] == #[trigger] cur[k] && !stored[i] && !has_id(elsewhere, offered[i])
                && has_id(same, offered[i]) == pending by {
            if k < prev.len() {
                assert(cur[k] == prev[k]);
                let i = choose|i: int| 0 <= i < n - 1 && offered[i] == #[trigger] prev[k] && !stored[i]
                    && !has_id(elsewhere, offered[i]) && has_id(same, offered[i]) == pending;
                assert(offered[i] == cur[k]);
            } else {
                assert(cur[k] == offered[n - 1]);
            }
        }
    }
}

/// An offer wants only ids it offered that the queue does not hold and no
/// other link is fetching.
pub proof fn offer_wants_only_missing_ids(
    req: StandardPropagationOfferRequest,
    stored: Seq<bool>,
    stats: StandardPropagationStats,
    k: int,
)
    requires
        stored.len() == req.offered@.len(),
        0 <= k < offer_wanted(req, stored, stats).len(),
    ensures
        exists|i: int| 0 <= i < req.offered@.len() && req.offered@[i] == #[trigger] offer_wanted(req, stored, stats)[k]
            && !stored[i] && !has_id(req.pending_elsewhere@, req.offered@[i]),
{
    let n = req.offered@.len() as int;
    let same = offer_same(req, stored);
    let unknown = offer_unknown(req, stored);
    let w = offer_wanted(req, stored, stats);
    lemma_pick_members(req.offered@, stored, req.same_link_pending@, req.pending_elsewhere@, true, n);
    lemma_pick_members(req.offered@, stored, req.same_link_pending@, req.pending_elsewhere@, false, n);
    if k < same.len() {
        assert(w[k] == same[k]);
        let i = choose|i: int| 0 <= i < n && req.offered@[i] == #[trigger] same[k] && !stored[i]
            && !has_id(req.pending_elsewhere@, req.offered@[i]) && has_id(req.same_link_pending@, req.offered@[i]) == true;
        assert(req.offered@[i] == w[k]);
    } else {
        let u = k - same.len();
        assert(w[k] == unknown[u]);
        let i = choose|i: int| 0 <= i < n && req.offered@[i] == #[trigger] unknown[u] && !stored[i]
            && !has_id(req.pending_elsewhere@, req.offered@[i]) && has_id(req.same_link_pending@, req.offered@[i]) == false;
        assert(req.offered@[i] == w[k]);
    }
}

/// A download returns a want only when its item is queued for the
/// recipient, and what it returns stays within the response limit.
pub proof fn download_returns_only_queued_within_limit(
    wants: Seq<[u8; 32]>,
    sizes: Seq<Option<usize>>,
    limit: usize,
    i: int,
)
    requires
        0 <= i < wants.len(),
        sizes.len() == wants.len(),
        get_takes(wants, sizes, limit, i),
    ensures
        sizes[i] is Some,
        get_spent(wants, sizes, limit, i + 1) <= limit,
{
}

/// A sent route moves to `sent` again only with a different receipt, and
/// any route that has not ended moves to any state other than `sent`.
pub proof fn route_moves_besides_first_send(current: Seq<char>, stored_receipt: Seq<char>, next: Seq<char>, receipt: Seq<char>)
    ensures
        current == "sent"@ && next == "sent"@ ==> (route_admits(current, stored_receipt, next, receipt)
            <==> stored_receipt != receipt),
        next != "sent"@ && !route_terminal(current) ==> route_admits(current, stored_receipt, next, receipt),
        route_terminal(current) ==> !route_admits(current, stored_receipt, next, receipt),
{
    if route_terminal(current) {
        crate::lifecycle::lemma_terminal_absorbing(current, stored_receipt, next, receipt);
    }
    reveal_strlit("sent");
    reveal_strlit("queued");
    reveal_strlit("sending");
    assert("sent"@.len() != "queued"@.len() && "sent"@.len() != "sending"@.len());
}

} // verus!
