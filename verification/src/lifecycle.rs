//! Decisions about outbound delivery state and the outcomes of mutations.
use vstd::prelude::*;
use crate::records::{
    ContactRecord, ConversationMutationOutcome, ConversationSummary, MessageMutationOutcome,
    MutationDisposition,
};
use crate::text::{owned, str_eq};

verus! {

/// Whether an outbound route state is terminal: nothing moves it again.
pub open spec fn terminal_state(s: Seq<char>) -> bool {
    s == "delivered"@ || s == "failed"@ || s == "cancelled"@ || s == "expired"@ || s
        == "rejected"@
}

/// `terminal_state` computed.
pub fn is_terminal_state(state: &str) -> (r: bool)
    ensures
        r == terminal_state(state@),
{
    str_eq(state, "delivered") || str_eq(state, "failed") || str_eq(state, "cancelled") || str_eq(
        state,
        "expired",
    ) || str_eq(state, "rejected")
}

/// Whether a route in state `current`, whose message holds receipt status
/// `stored_receipt` (empty when none), may move to `next` with receipt
/// `receipt`: to `sent` from queued or sending, or again from sent with a new
/// receipt; to any other state from any state that is not terminal.
pub open spec fn route_admits(current: Seq<char>, stored_receipt: Seq<char>, next: Seq<char>, receipt: Seq<char>) -> bool {
    if next == "sent"@ {
        current == "queued"@ || current == "sending"@ || (current == "sent"@ && stored_receipt != receipt)
    } else {
        !terminal_state(current)
    }
}

/// Whether some route state and stored receipt admit the move to `next`
/// with `receipt`.
pub open spec fn route_move_admitted(next: Seq<char>, receipt: Seq<char>) -> bool {
    exists|current: Seq<char>, stored_receipt: Seq<char>| #[trigger] route_admits(current, stored_receipt, next, receipt)
        && !terminal_state(current)
}

/// `route_admits` computed.
pub fn route_admits_move(current: &str, stored_receipt: &str, next: &str, receipt: &str) -> (r: bool)
    ensures
        r == route_admits(current@, stored_receipt@, next@, receipt@),
{
    if str_eq(next, "sent") {
        str_eq(current, "queued") || str_eq(current, "sending") || (str_eq(current, "sent") && !str_eq(
            stored_receipt,
            receipt,
        ))
    } else {
        !is_terminal_state(current)
    }
}

/// A terminal route state admits no move: delivered, failed, cancelled,
/// expired and rejected routes stay as they are.
pub proof fn lemma_terminal_absorbing(current: Seq<char>, stored_receipt: Seq<char>, next: Seq<char>, receipt: Seq<char>)
    requires
        terminal_state(current),
    ensures
        !route_admits(current, stored_receipt, next, receipt),
{
    reveal_strlit("delivered");
    reveal_strlit("failed");
    reveal_strlit("cancelled");
    reveal_strlit("expired");
    reveal_strlit("rejected");
    reveal_strlit("queued");
    reveal_strlit("sending");
    reveal_strlit("sent");
    if next == "sent"@ {
        assert(current.len() != "sent"@.len());
        if current == "failed"@ {
            assert(current[0] != "queued"@[0]);
        } else if current == "expired"@ {
            assert(current[0] != "sending"@[0]);
        }
        assert(current != "queued"@ && current != "sending"@);
    }
}

/// Whether a message whose route is in `state`, sent by `method`, may not be
/// deleted yet: its delivery is still in progress. A message without a route,
/// a terminal one, and one handed to a propagation node are deletable.
pub open spec fn delete_conflicts(state: Option<Seq<char>>, method: Option<Seq<char>>) -> bool {
    match state {
        Some(s) => !terminal_state(s) && !(s == "sent"@ && method == Some("propagated"@)),
        None => false,
    }
}

/// `delete_conflicts` computed.
pub fn delete_is_blocked(state: &Option<String>, method: &Option<String>) -> (r: bool)
    ensures
        r == delete_conflicts(crate::text::opt_view(*state), crate::text::opt_view(*method)),
{
    match state {
        Some(s) => {
            let propagated_sent = str_eq(s.as_str(), "sent") && match method {
                Some(m) => str_eq(m.as_str(), "propagated"),
                None => false,
            };
            !is_terminal_state(s.as_str()) && !propagated_sent
        },
        None => false,
    }
}

/// The outcome of deleting one message, given what the store found: no
/// message, a message whose delivery blocks deletion, or the number of rows
/// the delete removed.
pub open spec fn message_delete_outcome_spec(
    found: Option<(Option<Seq<char>>, Option<Seq<char>>)>,
    deleted: nat,
    out: MessageMutationOutcome,
) -> bool {
    match found {
        None => out.disposition == MutationDisposition::NotFound && out.affected_count == 0
            && out.terminal_state is None,
        Some((state, method)) => if delete_conflicts(state, method) {
            out.disposition == MutationDisposition::TerminalConflict && out.affected_count == 0
                && crate::text::opt_view(out.terminal_state) == state
        } else {
            out.disposition == MutationDisposition::Applied && out.affected_count == deleted
                && out.terminal_state is None
        },
    }
}

/// The mark-read outcome for a conversation that exists or not, after
/// `updated` unread messages were marked read.
pub open spec fn mark_read_outcome_spec(
    exists: bool,
    updated: nat,
    summary: Option<ConversationSummary>,
    out: ConversationMutationOutcome,
) -> bool {
    &&& out.terminal_state is None
    &&& if !exists {
        out.disposition == MutationDisposition::NotFound && out.affected_count == 0
            && out.summary is None
    } else {
        &&& out.affected_count == updated
        &&& out.summary == summary
        &&& (out.disposition == MutationDisposition::Unchanged) == (updated == 0)
        &&& (out.disposition == MutationDisposition::Applied) == (updated > 0)
    }
}

/// Builds the mark-read outcome.
pub fn mark_read_outcome_of(exists: bool, updated: usize, summary: Option<ConversationSummary>) -> (out:
    ConversationMutationOutcome)
    ensures
        mark_read_outcome_spec(exists, updated as nat, summary, out),
{
    if !exists {
        return ConversationMutationOutcome {
            disposition: MutationDisposition::NotFound,
            affected_count: 0,
            summary: None,
            terminal_state: None,
        };
    }
    ConversationMutationOutcome {
        disposition: if updated == 0 {
            MutationDisposition::Unchanged
        } else {
            MutationDisposition::Applied
        },
        affected_count: updated as u64,
        summary,
        terminal_state: None,
    }
}

/// The flag outcome: `NotFound` without messages, `Unchanged` when the flag
/// already holds `value`, else `Applied` with one affected conversation.
pub open spec fn flag_outcome_spec(
    exists: bool,
    current: bool,
    value: bool,
    summary: Option<ConversationSummary>,
    out: ConversationMutationOutcome,
) -> bool {
    &&& out.terminal_state is None
    &&& if !exists {
        out.disposition == MutationDisposition::NotFound && out.affected_count == 0
            && out.summary is None
    } else if current == value {
        out.disposition == MutationDisposition::Unchanged && out.affected_count == 0
            && out.summary == summary
    } else {
        out.disposition == MutationDisposition::Applied && out.affected_count == 1
            && out.summary == summary
    }
}

/// The contact outcome: `Unchanged` when the stored alias and notes already
/// match, else `Created` or `Updated` by whether a contact existed.
pub open spec fn contact_outcome_kind(
    existing: Option<ContactRecord>,
    alias: Option<Seq<char>>,
    notes: Option<Seq<char>>,
) -> MutationDisposition {
    match existing {
        Some(c) => if crate::text::opt_view(c.alias) == alias && crate::text::opt_view(c.notes)
            == notes {
            MutationDisposition::Unchanged
        } else {
            MutationDisposition::Updated
        },
        None => MutationDisposition::Created,
    }
}

/// Whether two optional strings hold the same text.
pub fn opt_str_eq(a: &Option<String>, b: Option<&str>) -> (r: bool)
    ensures
        r == (crate::text::opt_view(*a) == match b {
            Some(s) => Some(s@),
            None => None::<Seq<char>>,
        }),
{
    match (a, b) {
        (Some(x), Some(y)) => str_eq(x.as_str(), y),
        (None, None) => true,
        _ => false,
    }
}

/// The kind under which delivery evidence of a representation is stored.
pub open spec fn stored_evidence_kind(kind: Seq<char>) -> Option<Seq<char>> {
    if kind == "packet"@ {
        Some("packet_receipt"@)
    } else if kind == "resource"@ {
        Some("resource_completion"@)
    } else {
        None
    }
}

/// `stored_evidence_kind` computed.
pub fn evidence_kind_for(kind: &str) -> (r: Option<String>)
    ensures
        crate::text::opt_view(r) == stored_evidence_kind(kind@),
{
    if str_eq(kind, "packet") {
        Some(owned("packet_receipt"))
    } else if str_eq(kind, "resource") {
        Some(owned("resource_completion"))
    } else {
        None
    }
}

/// The state that exact delivery evidence takes when its message ends in `state`.
pub open spec fn exact_evidence_state(state: Seq<char>) -> Seq<char> {
    if state == "delivered"@ {
        "completed"@
    } else if state == "cancelled"@ {
        "cancelled"@
    } else {
        "failed"@
    }
}

/// `exact_evidence_state` computed.
pub fn exact_evidence_state_for(state: &str) -> (r: String)
    ensures
        r@ == exact_evidence_state(state@),
{
    if str_eq(state, "delivered") {
        owned("completed")
    } else if str_eq(state, "cancelled") {
        owned("cancelled")
    } else {
        owned("failed")
    }
}

/// What an attachment transfer becomes when its message finishes in `state`:
/// the new transfer state and the error it records, or nothing to change.
pub open spec fn transfer_after_finish(state: Seq<char>, receipt: Seq<char>) -> Option<
    (Seq<char>, Option<Seq<char>>),
> {
    if state == "delivered"@ {
        Some(("completed"@, None))
    } else if state == "failed"@ || state == "expired"@ || state == "rejected"@ {
        Some(("failed"@, Some(receipt)))
    } else if state == "cancelled"@ {
        Some(("cancelled"@, Some(receipt)))
    } else {
        None
    }
}

/// `transfer_after_finish` computed.
pub fn transfer_after_finish_for(state: &str, receipt: &str) -> (r: Option<(String, Option<String>)>)
    ensures
        match (r, transfer_after_finish(state@, receipt@)) {
            (Some((s, e)), Some((ss, se))) => s@ == ss && crate::text::opt_view(e) == se,
            (None, None) => true,
            _ => false,
        },
{
    if str_eq(state, "delivered") {
        Some((owned("completed"), None))
    } else if str_eq(state, "failed") || str_eq(state, "expired") || str_eq(state, "rejected") {
        Some((owned("failed"), Some(owned(receipt))))
    } else if str_eq(state, "cancelled") {
        Some((owned("cancelled"), Some(owned(receipt))))
    } else {
        None
    }
}

/// Percent of a resource transferred, rounded down and capped at 100; zero
/// when the total is zero.
pub open spec fn progress_percent(transferred: int, total: int) -> int {
    if total == 0 {
        0
    } else if transferred * 100 / total > 100 {
        100
    } else {
        transferred * 100 / total
    }
}

/// `progress_percent` of two non-negative counts.
pub fn delivery_progress(transferred: i64, total: i64) -> (r: i64)
    requires
        0 <= transferred,
        0 <= total,
    ensures
        r == progress_percent(transferred as int, total as int),
        0 <= r <= 100,
{
    if total == 0 {
        return 0;
    }
    let t = transferred as u128;
    let scaled: u128 = t * 100;
    let p = scaled / (total as u128);
    if p > 100 {
        100
    } else {
        p as i64
    }
}

} // verus!
