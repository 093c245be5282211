//! Reading message-store records from the rows SQLite returns: each reader
//! accepts exactly the rows whose columns have the record's types and
//! ranges, and copies every column into its field.
use vstd::prelude::*;
use crate::error::StoreError;
use crate::outside::{
    hex_encode, json_reserialize, json_reserialized, json_string_array_parsed, parse_json_string_array,
    spec_hex_encode,
};
use crate::records::{
    AnnounceRecord, CanonicalInboundRecord, ContactRecord, ConversationDraft, ConversationSummary,
    LxmfTicketRecord, MessageAttachmentRecord, MessageDeliveryEvidenceRecord, MessageRecord,
    OutboundAttemptRecord, OutboundRouteRecord, PropagationInventoryRecord,
};
use crate::sql::{
    blob_of, col_array, col_blob, col_bool, col_int, col_opt_blob, col_opt_int, col_opt_real, col_opt_text,
    col_opt_u32, col_opt_u64, col_opt_u8, col_real, col_text, col_u32, int_of, is_blob_col, is_blob_len_col,
    is_int_col, is_opt_blob_col, is_opt_int_col, is_opt_real_col, is_opt_text_col, is_opt_u32_col,
    is_opt_u64_col, is_opt_u8_col, is_real_col, is_text_col, is_u32_col, opt16, opt_blob_col, opt_blob_view,
    opt_int_col, opt_int_view, opt_real_col, opt_text_col, opt_u32_int, opt_u64_int, opt_u8_int, text_value,
    SqlValue,
};
use crate::text::{concat, opt_bytes, opt_view, str_eq, string_from_utf8, views};

verus! {

// ── Messages ────────────────────────────────────────────────────────────

/// The JSON fields a message row holds: the stored text reserialized, or
/// nothing when it is absent or not JSON.
pub open spec fn stored_fields(text: Option<Seq<char>>) -> Option<Seq<char>> {
    match text {
        Some(t) => json_reserialized(t),
        None => None,
    }
}

/// Whether a row `id, source, destination, title, content, timestamp,
/// direction, fields, receipt_status, read` reads as a message.
pub open spec fn message_row_ok(row: Seq<SqlValue>) -> bool {
    &&& is_text_col(row, 0)
    &&& is_text_col(row, 1)
    &&& is_text_col(row, 2)
    &&& is_text_col(row, 3)
    &&& is_text_col(row, 4)
    &&& is_int_col(row, 5)
    &&& is_text_col(row, 6)
    &&& is_opt_text_col(row, 7)
    &&& is_opt_text_col(row, 8)
    &&& is_int_col(row, 9)
}

/// Whether `m` holds the columns of `row`.
pub open spec fn message_from(row: Seq<SqlValue>, m: MessageRecord) -> bool {
    &&& Some(m.id@) == text_value(row[0])
    &&& Some(m.source@) == text_value(row[1])
    &&& Some(m.destination@) == text_value(row[2])
    &&& Some(m.title@) == text_value(row[3])
    &&& Some(m.content@) == text_value(row[4])
    &&& row[5] == SqlValue::Int(m.timestamp)
    &&& Some(m.direction@) == text_value(row[6])
    &&& opt_view(m.fields) == stored_fields(opt_text_col(row, 7))
    &&& opt_view(m.receipt_status) == opt_text_col(row, 8)
    &&& m.read == (int_of(row[9]) != 0)
}

/// The message a row holds.
pub fn message_row(row: &[SqlValue]) -> (r: Result<MessageRecord, StoreError>)
    ensures
        r is Ok <==> message_row_ok(row@),
        r matches Ok(m) ==> message_from(row@, m),
{
    let id = col_text(row, 0)?;
    let source = col_text(row, 1)?;
    let destination = col_text(row, 2)?;
    let title = col_text(row, 3)?;
    let content = col_text(row, 4)?;
    let timestamp = col_int(row, 5)?;
    let direction = col_text(row, 6)?;
    let fields_text = col_opt_text(row, 7)?;
    let receipt_status = col_opt_text(row, 8)?;
    let read = col_bool(row, 9)?;
    let fields = match &fields_text {
        Some(t) => json_reserialize(t.as_str()),
        None => None,
    };
    Ok(MessageRecord {
        id,
        source,
        destination,
        title,
        content,
        timestamp,
        direction,
        fields,
        receipt_status,
        read,
    })
}

// ── Outbound routes and attempts ────────────────────────────────────────

/// Whether a ten-column route row reads as a route.
pub open spec fn route_row_ok(row: Seq<SqlValue>) -> bool {
    &&& is_text_col(row, 0)
    &&& is_text_col(row, 1)
    &&& is_text_col(row, 2)
    &&& is_text_col(row, 3)
    &&& is_opt_text_col(row, 4)
    &&& is_text_col(row, 5)
    &&& is_opt_text_col(row, 6)
    &&& is_int_col(row, 7)
    &&& is_text_col(row, 8)
    &&& is_u32_col(row, 9)
}

/// Whether `r` holds the columns of `row`.
pub open spec fn route_from(row: Seq<SqlValue>, r: OutboundRouteRecord) -> bool {
    &&& Some(r.message_id@) == text_value(row[0])
    &&& Some(r.requested_method@) == text_value(row[1])
    &&& Some(r.actual_method@) == text_value(row[2])
    &&& Some(r.representation@) == text_value(row[3])
    &&& opt_view(r.fallback_reason) == opt_text_col(row, 4)
    &&& Some(r.correlation_id@) == text_value(row[5])
    &&& opt_view(r.retry_of) == opt_text_col(row, 6)
    &&& row[7] == SqlValue::Int(r.deadline_unix_ms)
    &&& Some(r.state@) == text_value(row[8])
    &&& r.attempt_count == int_of(row[9])
}

/// The route a row holds.
pub fn route_row(row: &[SqlValue]) -> (r: Result<OutboundRouteRecord, StoreError>)
    ensures
        r is Ok <==> route_row_ok(row@),
        r matches Ok(x) ==> route_from(row@, x),
{
    let message_id = col_text(row, 0)?;
    let requested_method = col_text(row, 1)?;
    let actual_method = col_text(row, 2)?;
    let representation = col_text(row, 3)?;
    let fallback_reason = col_opt_text(row, 4)?;
    let correlation_id = col_text(row, 5)?;
    let retry_of = col_opt_text(row, 6)?;
    let deadline_unix_ms = col_int(row, 7)?;
    let state = col_text(row, 8)?;
    let attempt_count = col_u32(row, 9)?;
    Ok(OutboundRouteRecord {
        message_id,
        requested_method,
        actual_method,
        representation,
        fallback_reason,
        correlation_id,
        retry_of,
        deadline_unix_ms,
        state,
        attempt_count,
    })
}

/// Whether a five-column attempt row reads as an attempt.
pub open spec fn attempt_row_ok(row: Seq<SqlValue>) -> bool {
    &&& is_text_col(row, 0)
    &&& is_u32_col(row, 1)
    &&& is_int_col(row, 2)
    &&& is_int_col(row, 3)
    &&& is_text_col(row, 4)
}

/// Whether `a` holds the columns of `row`.
pub open spec fn attempt_from(row: Seq<SqlValue>, a: OutboundAttemptRecord) -> bool {
    &&& Some(a.message_id@) == text_value(row[0])
    &&& a.attempt_number == int_of(row[1])
    &&& row[2] == SqlValue::Int(a.started_unix_ms)
    &&& row[3] == SqlValue::Int(a.deadline_unix_ms)
    &&& Some(a.state@) == text_value(row[4])
}

/// The attempt a row holds.
pub fn attempt_row(row: &[SqlValue]) -> (r: Result<OutboundAttemptRecord, StoreError>)
    ensures
        r is Ok <==> attempt_row_ok(row@),
        r matches Ok(a) ==> attempt_from(row@, a),
{
    let message_id = col_text(row, 0)?;
    let attempt_number = col_u32(row, 1)?;
    let started_unix_ms = col_int(row, 2)?;
    let deadline_unix_ms = col_int(row, 3)?;
    let state = col_text(row, 4)?;
    Ok(OutboundAttemptRecord { message_id, attempt_number, started_unix_ms, deadline_unix_ms, state })
}

/// Whether a thirteen-column evidence row reads as delivery evidence.
pub open spec fn evidence_row_ok(row: Seq<SqlValue>) -> bool {
    &&& is_text_col(row, 0)
    &&& is_text_col(row, 1)
    &&& is_text_col(row, 2)
    &&& is_text_col(row, 3)
    &&& is_text_col(row, 4)
    &&& is_opt_text_col(row, 5)
    &&& is_opt_u32_col(row, 6)
    &&& is_opt_text_col(row, 7)
    &&& is_int_col(row, 8)
    &&& is_opt_int_col(row, 9)
    &&& is_opt_u64_col(row, 10)
    &&& is_opt_u64_col(row, 11)
    &&& is_opt_u8_col(row, 12)
}

/// Whether `e` holds the columns of `row`.
pub open spec fn evidence_from(row: Seq<SqlValue>, e: MessageDeliveryEvidenceRecord) -> bool {
    &&& Some(e.message_id@) == text_value(row[0])
    &&& Some(e.kind@) == text_value(row[1])
    &&& Some(e.evidence_hash@) == text_value(row[2])
    &&& Some(e.representation@) == text_value(row[3])
    &&& Some(e.state@) == text_value(row[4])
    &&& opt_view(e.outcome) == opt_text_col(row, 5)
    &&& opt_u32_int(e.attempt_number) == opt_int_view(row[6])
    &&& opt_view(e.correlation_id) == opt_text_col(row, 7)
    &&& row[8] == SqlValue::Int(e.observed_at)
    &&& e.terminal_at == opt_int_col(row, 9)
    &&& opt_u64_int(e.transferred_bytes) == opt_int_view(row[10])
    &&& opt_u64_int(e.total_bytes) == opt_int_view(row[11])
    &&& opt_u8_int(e.progress) == opt_int_view(row[12])
}

/// The delivery evidence a row holds.
pub fn evidence_row(row: &[SqlValue]) -> (r: Result<MessageDeliveryEvidenceRecord, StoreError>)
    ensures
        r is Ok <==> evidence_row_ok(row@),
        r matches Ok(e) ==> evidence_from(row@, e),
{
    let message_id = col_text(row, 0)?;
    let kind = col_text(row, 1)?;
    let evidence_hash = col_text(row, 2)?;
    let representation = col_text(row, 3)?;
    let state = col_text(row, 4)?;
    let outcome = col_opt_text(row, 5)?;
    let attempt_number = col_opt_u32(row, 6)?;
    let correlation_id = col_opt_text(row, 7)?;
    let observed_at = col_int(row, 8)?;
    let terminal_at = col_opt_int(row, 9)?;
    let transferred_bytes = col_opt_u64(row, 10)?;
    let total_bytes = col_opt_u64(row, 11)?;
    let progress = col_opt_u8(row, 12)?;
    Ok(MessageDeliveryEvidenceRecord {
        message_id,
        kind,
        evidence_hash,
        representation,
        state,
        outcome,
        attempt_number,
        correlation_id,
        observed_at,
        terminal_at,
        transferred_bytes,
        total_bytes,
        progress,
    })
}

// ── Canonical inbound messages ──────────────────────────────────────────

/// Whether a fourteen-column canonical row reads as a canonical message.
pub open spec fn canonical_row_ok(row: Seq<SqlValue>) -> bool {
    &&& is_text_col(row, 0)
    &&& is_blob_len_col(row, 1, 16)
    &&& is_blob_len_col(row, 2, 16)
    &&& is_blob_col(row, 3)
    &&& is_blob_col(row, 4)
    &&& is_real_col(row, 5)
    &&& is_opt_blob_col(row, 6)
    &&& is_opt_blob_col(row, 7)
    &&& is_opt_blob_col(row, 8)
    &&& is_blob_col(row, 9)
    &&& is_text_col(row, 10)
    &&& is_text_col(row, 11)
    &&& is_opt_u32_col(row, 12)
    &&& is_opt_u32_col(row, 13)
}

/// Whether `c` holds the columns of `row`.
pub open spec fn canonical_from(row: Seq<SqlValue>, c: CanonicalInboundRecord) -> bool {
    &&& Some(c.message_id@) == text_value(row[0])
    &&& c.source@ == blob_of(row[1])
    &&& c.destination@ == blob_of(row[2])
    &&& c.title@ == blob_of(row[3])
    &&& c.content@ == blob_of(row[4])
    &&& row[5] == SqlValue::Real(c.timestamp)
    &&& opt_bytes(c.fields_msgpack) == opt_blob_col(row, 6)
    &&& opt_bytes(c.signature) == opt_blob_col(row, 7)
    &&& opt_bytes(c.stamp) == opt_blob_col(row, 8)
    &&& c.wire@ == blob_of(row[9])
    &&& Some(c.authentication_state@) == text_value(row[10])
    &&& Some(c.stamp_state@) == text_value(row[11])
    &&& opt_u32_int(c.stamp_value) == opt_int_view(row[12])
    &&& opt_u32_int(c.stamp_target) == opt_int_view(row[13])
}

/// The canonical message a row holds.
pub fn canonical_row(row: &[SqlValue]) -> (r: Result<CanonicalInboundRecord, StoreError>)
    ensures
        r is Ok <==> canonical_row_ok(row@),
        r matches Ok(c) ==> canonical_from(row@, c),
{
    let message_id = col_text(row, 0)?;
    let source = col_array::<16>(row, 1)?;
    let destination = col_array::<16>(row, 2)?;
    let title = col_blob(row, 3)?;
    let content = col_blob(row, 4)?;
    let timestamp = col_real(row, 5)?;
    let fields_msgpack = col_opt_blob(row, 6)?;
    let signature = col_opt_blob(row, 7)?;
    let stamp = col_opt_blob(row, 8)?;
    let wire = col_blob(row, 9)?;
    let authentication_state = col_text(row, 10)?;
    let stamp_state = col_text(row, 11)?;
    let stamp_value = col_opt_u32(row, 12)?;
    let stamp_target = col_opt_u32(row, 13)?;
    Ok(CanonicalInboundRecord {
        message_id,
        source,
        destination,
        title,
        content,
        timestamp,
        fields_msgpack,
        signature,
        stamp,
        wire,
        authentication_state,
        stamp_state,
        stamp_value,
        stamp_target,
    })
}

// ── Conversations ───────────────────────────────────────────────────────

/// Whether a seven-column summary row reads as a conversation summary.
pub open spec fn summary_row_ok(row: Seq<SqlValue>) -> bool {
    &&& is_text_col(row, 0)
    &&& is_opt_int_col(row, 1)
    &&& is_opt_text_col(row, 2)
    &&& is_int_col(row, 3)
    &&& is_int_col(row, 4)
    &&& is_int_col(row, 5)
    &&& is_int_col(row, 6)
}

/// Whether `s` holds the columns of `row`; counts are truncated to 32 bits
/// and flags are true when non-zero.
pub open spec fn summary_from(row: Seq<SqlValue>, s: ConversationSummary) -> bool {
    &&& Some(s.peer_hash@) == text_value(row[0])
    &&& s.peer_name is None
    &&& s.last_message_timestamp == opt_int_col(row, 1)
    &&& opt_view(s.last_message_content) == opt_text_col(row, 2)
    &&& s.unread_count == int_of(row[3]) as u32
    &&& s.message_count == int_of(row[4]) as u32
    &&& s.pinned == (int_of(row[5]) != 0)
    &&& s.muted == (int_of(row[6]) != 0)
}

/// The conversation summary a row holds.
pub fn summary_row(row: &[SqlValue]) -> (r: Result<ConversationSummary, StoreError>)
    ensures
        r is Ok <==> summary_row_ok(row@),
        r matches Ok(s) ==> summary_from(row@, s),
{
    let peer_hash = col_text(row, 0)?;
    let last_message_timestamp = col_opt_int(row, 1)?;
    let last_message_content = col_opt_text(row, 2)?;
    let unread = col_int(row, 3)?;
    let total = col_int(row, 4)?;
    let pinned = col_bool(row, 5)?;
    let muted = col_bool(row, 6)?;
    Ok(ConversationSummary {
        peer_hash,
        peer_name: None,
        last_message_timestamp,
        last_message_content,
        unread_count: unread as u32,
        message_count: total as u32,
        pinned,
        muted,
    })
}

/// Whether a `peer_hash, content, updated_at` row reads as a draft: the
/// content must be stored as text.
pub open spec fn draft_row_ok(row: Seq<SqlValue>) -> bool {
    is_text_col(row, 0) && is_text_col(row, 1) && is_int_col(row, 2)
}

/// The draft a row holds.
pub fn draft_row(row: &[SqlValue]) -> (r: Result<ConversationDraft, StoreError>)
    ensures
        r is Ok <==> draft_row_ok(row@),
        r matches Ok(d) ==> Some(d.peer_hash@) == text_value(row@[0]) && Some(d.content@) == text_value(
            row@[1],
        ) && row@[2] == SqlValue::Int(d.updated_at),
{
    let content = if !crate::sql::is_text_value(row, 1) {
        return Err(crate::error::invalid("conversation draft content must be SQLite TEXT"));
    } else {
        match col_text(row, 1) {
            Ok(c) => c,
            Err(_) => return Err(crate::error::invalid("conversation draft is not valid UTF-8")),
        }
    };
    let peer_hash = col_text(row, 0)?;
    let updated_at = col_int(row, 2)?;
    Ok(ConversationDraft { peer_hash, content, updated_at })
}

// ── Attachments ─────────────────────────────────────────────────────────

/// Whether a seventeen-column attachment row reads as an attachment.
pub open spec fn attachment_row_ok(row: Seq<SqlValue>) -> bool {
    &&& is_text_col(row, 0)
    &&& is_int_col(row, 1)
    &&& is_blob_len_col(row, 2, 32)
    &&& is_text_col(row, 3)
    &&& is_int_col(row, 4)
    &&& is_opt_text_col(row, 5)
    &&& is_text_col(row, 6)
    &&& is_text_col(row, 7)
    &&& is_opt_text_col(row, 8)
    &&& is_opt_blob_col(row, 9)
    &&& is_opt_text_col(row, 10)
    &&& is_opt_text_col(row, 11)
    &&& is_opt_text_col(row, 12)
    &&& is_int_col(row, 13)
    &&& is_int_col(row, 14)
    &&& is_int_col(row, 15)
    &&& is_opt_text_col(row, 16)
}

/// A stored count as a `u64`: negative values count as zero.
pub open spec fn count_of(v: i64) -> u64 {
    if v < 0 {
        0
    } else {
        v as u64
    }
}

/// Whether the blob state makes an attachment available: only verified blobs are.
pub open spec fn availability_of(state: Seq<char>) -> Seq<char> {
    if state == "verified"@ {
        "available"@
    } else {
        "unavailable"@
    }
}

/// Whether `a` holds the columns of `row`: the ordinal truncated to a byte,
/// lengths and counts floored at zero, the availability derived from the
/// blob state, which is also the integrity.
pub open spec fn attachment_from(row: Seq<SqlValue>, a: MessageAttachmentRecord) -> bool {
    &&& Some(a.message_id@) == text_value(row[0])
    &&& a.ordinal == int_of(row[1]) as u8
    &&& a.digest@ == blob_of(row[2])
    &&& Some(a.wire_name@) == text_value(row[3])
    &&& a.byte_len == count_of(int_of(row[4]))
    &&& opt_view(a.content_type) == opt_text_col(row, 5)
    &&& Some(a.integrity@) == text_value(row[6])
    &&& a.availability@ == availability_of(a.integrity@)
    &&& Some(a.source@) == text_value(row[7])
    &&& opt_view(a.transfer_id) == opt_text_col(row, 8)
    &&& opt_bytes(a.resource_hash) == opt_blob_col(row, 9)
    &&& opt_view(a.representation) == opt_text_col(row, 10)
    &&& opt_view(a.direction) == opt_text_col(row, 11)
    &&& opt_view(a.transfer_state) == opt_text_col(row, 12)
    &&& a.transferred == count_of(int_of(row[13]))
    &&& a.total == count_of(int_of(row[14]))
    &&& a.checksum_verified == (int_of(row[15]) == 1)
    &&& opt_view(a.transfer_error) == opt_text_col(row, 16)
}

fn count_u64(v: i64) -> (r: u64)
    ensures
        r == count_of(v),
{
    if v < 0 {
        0
    } else {
        v as u64
    }
}

/// The attachment a row holds.
pub fn attachment_row(row: &[SqlValue]) -> (r: Result<MessageAttachmentRecord, StoreError>)
    ensures
        r is Ok <==> attachment_row_ok(row@),
        r matches Ok(a) ==> attachment_from(row@, a),
{
    let message_id = col_text(row, 0)?;
    let ordinal = col_int(row, 1)?;
    let digest = col_array::<32>(row, 2)?;
    let wire_name = col_text(row, 3)?;
    let byte_len = col_int(row, 4)?;
    let content_type = col_opt_text(row, 5)?;
    let state = col_text(row, 6)?;
    let source = col_text(row, 7)?;
    let transfer_id = col_opt_text(row, 8)?;
    let resource_hash = col_opt_blob(row, 9)?;
    let representation = col_opt_text(row, 10)?;
    let direction = col_opt_text(row, 11)?;
    let transfer_state = col_opt_text(row, 12)?;
    let transferred = col_int(row, 13)?;
    let total = col_int(row, 14)?;
    let checksum = col_int(row, 15)?;
    let transfer_error = col_opt_text(row, 16)?;
    let availability = if str_eq(state.as_str(), "verified") {
        crate::text::owned("available")
    } else {
        crate::text::owned("unavailable")
    };
    Ok(MessageAttachmentRecord {
        message_id,
        ordinal: ordinal as u8,
        digest,
        wire_name,
        byte_len: count_u64(byte_len),
        content_type,
        availability,
        integrity: state,
        source,
        transfer_id,
        resource_hash,
        representation,
        direction,
        transfer_state,
        transferred: count_u64(transferred),
        total: count_u64(total),
        checksum_verified: checksum == 1,
        transfer_error,
    })
}

// ── Tickets, announces and the legacy propagation store ─────────────────

/// Whether a `peer, ticket, expires_at, direction` row reads as a ticket.
pub open spec fn ticket_row_ok(row: Seq<SqlValue>) -> bool {
    is_text_col(row, 0) && is_blob_col(row, 1) && is_int_col(row, 2) && is_text_col(row, 3)
}

/// The ticket a row holds.
pub fn ticket_row(row: &[SqlValue]) -> (r: Result<LxmfTicketRecord, StoreError>)
    ensures
        r is Ok <==> ticket_row_ok(row@),
        r matches Ok(t) ==> Some(t.peer@) == text_value(row@[0]) && t.ticket@ == blob_of(row@[1])
            && row@[2] == SqlValue::Int(t.expires_at) && Some(t.direction@) == text_value(row@[3]),
{
    let peer = col_text(row, 0)?;
    let ticket = col_blob(row, 1)?;
    let expires_at = col_int(row, 2)?;
    let direction = col_text(row, 3)?;
    Ok(LxmfTicketRecord { peer, ticket, expires_at, direction })
}

/// The capabilities stored as JSON text: the strings of a JSON array of
/// strings, or none when absent or malformed.
pub open spec fn stored_capabilities(text: Option<Seq<char>>) -> Seq<Seq<char>> {
    match text {
        Some(t) => match json_string_array_parsed(t) {
            Some(items) => items,
            None => Seq::empty(),
        },
        None => Seq::empty(),
    }
}

/// Whether a fifteen-column announce row reads as an announce.
pub open spec fn announce_row_ok(row: Seq<SqlValue>) -> bool {
    &&& is_text_col(row, 0)
    &&& is_text_col(row, 1)
    &&& is_int_col(row, 2)
    &&& is_opt_text_col(row, 3)
    &&& is_opt_text_col(row, 4)
    &&& is_int_col(row, 5)
    &&& is_int_col(row, 6)
    &&& is_opt_text_col(row, 7)
    &&& is_opt_text_col(row, 8)
    &&& is_opt_real_col(row, 9)
    &&& is_opt_real_col(row, 10)
    &&& is_opt_real_col(row, 11)
    &&& is_opt_u32_col(row, 12)
    &&& is_opt_u32_col(row, 13)
    &&& is_opt_u32_col(row, 14)
}

/// Whether `a` holds the columns of `row`.
pub open spec fn announce_from(row: Seq<SqlValue>, a: AnnounceRecord) -> bool {
    &&& Some(a.id@) == text_value(row[0])
    &&& Some(a.peer@) == text_value(row[1])
    &&& row[2] == SqlValue::Int(a.timestamp)
    &&& opt_view(a.name) == opt_text_col(row, 3)
    &&& opt_view(a.name_source) == opt_text_col(row, 4)
    &&& row[5] == SqlValue::Int(a.first_seen)
    &&& a.seen_count == count_of(int_of(row[6]))
    &&& opt_view(a.app_data_hex) == opt_text_col(row, 7)
    &&& views(a.capabilities@) == stored_capabilities(opt_text_col(row, 8))
    &&& a.rssi == opt_real_col(row, 9)
    &&& a.snr == opt_real_col(row, 10)
    &&& a.q == opt_real_col(row, 11)
    &&& opt_u32_int(a.stamp_cost) == opt_int_view(row[12])
    &&& opt_u32_int(a.stamp_cost_flexibility) == opt_int_view(row[13])
    &&& opt_u32_int(a.peering_cost) == opt_int_view(row[14])
}

/// The announce a row holds.
pub fn announce_row(row: &[SqlValue]) -> (r: Result<AnnounceRecord, StoreError>)
    ensures
        r is Ok <==> announce_row_ok(row@),
        r matches Ok(a) ==> announce_from(row@, a),
{
    let capabilities_text = col_opt_text(row, 8)?;
    let seen_count = col_int(row, 6)?;
    let id = col_text(row, 0)?;
    let peer = col_text(row, 1)?;
    let timestamp = col_int(row, 2)?;
    let name = col_opt_text(row, 3)?;
    let name_source = col_opt_text(row, 4)?;
    let first_seen = col_int(row, 5)?;
    let app_data_hex = col_opt_text(row, 7)?;
    let rssi = col_opt_real(row, 9)?;
    let snr = col_opt_real(row, 10)?;
    let q = col_opt_real(row, 11)?;
    let stamp_cost = col_opt_u32(row, 12)?;
    let stamp_cost_flexibility = col_opt_u32(row, 13)?;
    let peering_cost = col_opt_u32(row, 14)?;
    let capabilities = match &capabilities_text {
        Some(t) => match parse_json_string_array(t.as_str()) {
            Some(items) => items,
            None => Vec::new(),
        },
        None => Vec::new(),
    };
    proof {
        if capabilities_text is None || json_string_array_parsed(capabilities_text->0@) is None {
            assert(views(capabilities@) =~= Seq::<Seq<char>>::empty());
        }
    }
    Ok(AnnounceRecord {
        id,
        peer,
        timestamp,
        name,
        name_source,
        first_seen,
        seen_count: count_u64(seen_count),
        app_data_hex,
        capabilities,
        rssi,
        snr,
        q,
        stamp_cost,
        stamp_cost_flexibility,
        peering_cost,
    })
}

/// Whether a six-column inventory row reads as a stored packet.
pub open spec fn inventory_row_ok(row: Seq<SqlValue>) -> bool {
    &&& is_text_col(row, 0)
    &&& is_text_col(row, 1)
    &&& is_opt_text_col(row, 2)
    &&& is_int_col(row, 3)
    &&& is_int_col(row, 4)
    &&& is_int_col(row, 5)
    &&& int_of(row[5]) >= 0
}

/// The inventory entry a row holds.
pub fn inventory_row(row: &[SqlValue]) -> (r: Result<PropagationInventoryRecord, StoreError>)
    ensures
        r is Ok <==> inventory_row_ok(row@),
        r matches Ok(p) ==> Some(p.id@) == text_value(row@[0]) && Some(p.destination_hash@) == text_value(
            row@[1],
        ) && opt_view(p.source_hash) == opt_text_col(row@, 2) && row@[3] == SqlValue::Int(p.received_at)
            && row@[4] == SqlValue::Int(p.expires_at) && p.size_bytes == int_of(row@[5]),
{
    let id = col_text(row, 0)?;
    let destination_hash = col_text(row, 1)?;
    let source_hash = col_opt_text(row, 2)?;
    let received_at = col_int(row, 3)?;
    let expires_at = col_int(row, 4)?;
    let size = col_int(row, 5)?;
    if size < 0 {
        return Err(crate::error::invalid("integer column range"));
    }
    Ok(PropagationInventoryRecord {
        id,
        destination_hash,
        source_hash,
        received_at,
        expires_at,
        size_bytes: size as u64,
    })
}

// ── Contacts as listed ──────────────────────────────────────────────────

/// The peer hash a listed contact shows: its text when stored as valid UTF-8
/// text, otherwise a label naming the stored type and the bytes in hex.
pub open spec fn listed_peer(bytes: Seq<u8>, value_type: Seq<char>) -> Seq<char> {
    if value_type == "text"@ {
        if vstd::utf8::valid_utf8(bytes) {
            vstd::utf8::decode_utf8(bytes)
        } else {
            "legacy-invalid-utf8:"@ + spec_hex_encode(bytes)
        }
    } else {
        "legacy-"@ + value_type + ":"@ + spec_hex_encode(bytes)
    }
}

/// An optional field of a listed contact: its text when stored as valid
/// UTF-8 text, otherwise nothing.
pub open spec fn listed_text(bytes: Option<Seq<u8>>, value_type: Seq<char>) -> Option<Seq<char>> {
    match bytes {
        Some(b) => if value_type == "text"@ && vstd::utf8::valid_utf8(b) {
            Some(vstd::utf8::decode_utf8(b))
        } else {
            None
        },
        None => None,
    }
}

/// Whether a listed contact row — each text column as its bytes and its
/// type name, then the two times — reads as a contact.
pub open spec fn listed_contact_row_ok(row: Seq<SqlValue>) -> bool {
    &&& is_blob_col(row, 0)
    &&& is_text_col(row, 1)
    &&& is_opt_blob_col(row, 2)
    &&& is_text_col(row, 3)
    &&& is_opt_blob_col(row, 4)
    &&& is_text_col(row, 5)
    &&& is_int_col(row, 6)
    &&& is_int_col(row, 7)
}

/// Whether `c` holds the columns of a listed contact row.
pub open spec fn listed_contact_from(row: Seq<SqlValue>, c: ContactRecord) -> bool {
    &&& c.peer_hash@ == listed_peer(blob_of(row[0]), text_value(row[1])->0)
    &&& opt_view(c.alias) == listed_text(opt_blob_col(row, 2), text_value(row[3])->0)
    &&& opt_view(c.notes) == listed_text(opt_blob_col(row, 4), text_value(row[5])->0)
    &&& row[6] == SqlValue::Int(c.created_at)
    &&& row[7] == SqlValue::Int(c.updated_at)
}

fn listed_text_of(bytes: Option<Vec<u8>>, value_type: &str) -> (r: Option<String>)
    ensures
        opt_view(r) == listed_text(opt_bytes(bytes), value_type@),
{
    if !str_eq(value_type, "text") {
        return None;
    }
    match bytes {
        Some(b) => string_from_utf8(b),
        None => None,
    }
}

/// The contact a listed contact row holds.
pub fn listed_contact_row(row: &[SqlValue]) -> (r: Result<ContactRecord, StoreError>)
    ensures
        r is Ok <==> listed_contact_row_ok(row@),
        r matches Ok(c) ==> listed_contact_from(row@, c),
{
    let peer_bytes = col_blob(row, 0)?;
    let peer_type = col_text(row, 1)?;
    let alias_bytes = col_opt_blob(row, 2)?;
    let alias_type = col_text(row, 3)?;
    let notes_bytes = col_opt_blob(row, 4)?;
    let notes_type = col_text(row, 5)?;
    let created_at = col_int(row, 6)?;
    let updated_at = col_int(row, 7)?;
    let peer_hash = if str_eq(peer_type.as_str(), "text") {
        let hex = hex_encode(peer_bytes.as_slice());
        match string_from_utf8(peer_bytes) {
            Some(s) => s,
            None => concat("legacy-invalid-utf8:", hex.as_str()),
        }
    } else {
        let hex = hex_encode(peer_bytes.as_slice());
        let head = concat("legacy-", peer_type.as_str());
        let labelled = concat(head.as_str(), ":");
        concat(labelled.as_str(), hex.as_str())
    };
    let alias = listed_text_of(alias_bytes, alias_type.as_str());
    let notes = listed_text_of(notes_bytes, notes_type.as_str());
    Ok(ContactRecord { peer_hash, alias, notes, created_at, updated_at })
}

} // verus!
