//! Reading standard propagation records from the rows SQLite returns: each
//! reader accepts exactly the rows whose columns have the record's types and
//! ranges, and copies every column into its field.
use vstd::prelude::*;
use crate::error::StoreError;
use crate::propagation::{
    StandardPropagationAttemptObservation, StandardPropagationCheckpoint, StandardPropagationCheckpointObservation,
    StandardPropagationClientJob, StandardPropagationFailure, StandardPropagationFailureObservation,
    StandardPropagationItem, StandardPropagationMessageLink, StandardPropagationPeer,
    StandardPropagationPeerObservation, StandardPropagationQueueObservation, StandardPropagationSelection,
};
use crate::sql::{
    col_array, col_blob, col_bool, col_int, col_opt_array, col_opt_blob, col_opt_int, col_opt_text, col_opt_u32,
    col_opt_usize, col_text, col_u32, col_usize, int_of, is_blob_col, is_blob_len_col, is_int_col, is_opt_blob_col,
    is_opt_blob_len_col, is_opt_int_col, is_opt_text_col, is_opt_u32_col, is_opt_usize_col, is_text_col, is_u32_col,
    is_usize_col, opt16, opt32, opt_blob_view, opt_i64_int, opt_int_view, opt_text_col, opt_u32_int, opt_usize_int,
    text_value, SqlValue,
};
use crate::text::{opt_view, str_eq};

verus! {

/// Whether a peer's stored origin says it was configured.
pub open spec fn configured_origin(origin: Seq<char>) -> bool {
    origin == "configured"@ || origin == "both"@
}

/// `configured_origin` computed.
pub fn is_configured_origin(origin: &str) -> (r: bool)
    ensures
        r == configured_origin(origin@),
{
    str_eq(origin, "configured") || str_eq(origin, "both")
}

// ── Selection ───────────────────────────────────────────────────────────

/// Whether a `selected_peer, mode, selected_at` row reads as a selection.
pub open spec fn selection_row_ok(row: Seq<SqlValue>) -> bool {
    is_opt_blob_len_col(row, 0, 16) && is_text_col(row, 1) && is_int_col(row, 2)
}

/// Whether `s` holds the columns of `row`.
pub open spec fn selection_from(row: Seq<SqlValue>, s: StandardPropagationSelection) -> bool {
    &&& opt16(s.peer) == opt_blob_view(row[0])
    &&& Some(s.mode@) == text_value(row[1])
    &&& row[2] == SqlValue::Int(s.selected_at)
}

/// The selection a row holds.
pub fn selection_row(row: &[SqlValue]) -> (r: Result<StandardPropagationSelection, StoreError>)
    ensures
        r is Ok <==> selection_row_ok(row@),
        r matches Ok(s) ==> selection_from(row@, s),
{
    let peer = col_opt_array::<16>(row, 0)?;
    let mode = col_text(row, 1)?;
    let selected_at = col_int(row, 2)?;
    Ok(StandardPropagationSelection { peer, mode, selected_at })
}

// ── Peers ───────────────────────────────────────────────────────────────

/// Whether an 18-column peer row reads as a peer observation.
pub open spec fn peer_observation_row_ok(row: Seq<SqlValue>) -> bool {
    &&& is_blob_len_col(row, 0, 16)
    &&& is_opt_blob_len_col(row, 1, 16)
    &&& is_text_col(row, 2)
    &&& is_int_col(row, 3)
    &&& is_opt_usize_col(row, 4)
    &&& is_opt_usize_col(row, 5)
    &&& is_opt_u32_col(row, 6)
    &&& is_opt_u32_col(row, 7)
    &&& is_opt_u32_col(row, 8)
    &&& is_int_col(row, 9)
    &&& is_int_col(row, 10)
    &&& is_opt_int_col(row, 11)
    &&& is_usize_col(row, 12)
    &&& is_usize_col(row, 13)
    &&& is_usize_col(row, 14)
    &&& is_usize_col(row, 15)
    &&& is_usize_col(row, 16)
    &&& is_usize_col(row, 17)
}

/// Whether `p` holds the columns of `row`.
pub open spec fn peer_observation_from(row: Seq<SqlValue>, p: StandardPropagationPeerObservation) -> bool {
    &&& Some(p.identity_hash@) == opt_blob_view(row[0])
    &&& opt16(p.propagation_destination) == opt_blob_view(row[1])
    &&& p.configured == configured_origin(text_value(row[2])->0)
    &&& p.enabled == (int_of(row[3]) != 0)
    &&& opt_usize_int(p.transfer_limit_kb) == opt_int_view(row[4])
    &&& opt_usize_int(p.sync_limit_kb) == opt_int_view(row[5])
    &&& opt_u32_int(p.stamp_cost) == opt_int_view(row[6])
    &&& opt_u32_int(p.stamp_flexibility) == opt_int_view(row[7])
    &&& opt_u32_int(p.peering_cost) == opt_int_view(row[8])
    &&& row[9] == SqlValue::Int(p.first_seen_at)
    &&& row[10] == SqlValue::Int(p.last_seen_at)
    &&& opt_i64_int(p.retry_at) == opt_int_view(row[11])
    &&& p.backoff_count == int_of(row[12])
    &&& p.offered_count == int_of(row[13])
    &&& p.wanted_count == int_of(row[14])
    &&& p.accepted_count == int_of(row[15])
    &&& p.accepted_bytes == int_of(row[16])
    &&& p.failure_count == int_of(row[17])
}

/// The peer observation a row holds.
pub fn peer_observation_row(row: &[SqlValue]) -> (r: Result<StandardPropagationPeerObservation, StoreError>)
    ensures
        r is Ok <==> peer_observation_row_ok(row@),
        r matches Ok(p) ==> peer_observation_from(row@, p),
{
    let identity_hash = col_array::<16>(row, 0)?;
    let propagation_destination = col_opt_array::<16>(row, 1)?;
    let origin = col_text(row, 2)?;
    let enabled = col_bool(row, 3)?;
    let transfer_limit_kb = col_opt_usize(row, 4)?;
    let sync_limit_kb = col_opt_usize(row, 5)?;
    let stamp_cost = col_opt_u32(row, 6)?;
    let stamp_flexibility = col_opt_u32(row, 7)?;
    let peering_cost = col_opt_u32(row, 8)?;
    let first_seen_at = col_int(row, 9)?;
    let last_seen_at = col_int(row, 10)?;
    let retry_at = col_opt_int(row, 11)?;
    let backoff_count = col_usize(row, 12)?;
    let offered_count = col_usize(row, 13)?;
    let wanted_count = col_usize(row, 14)?;
    let accepted_count = col_usize(row, 15)?;
    let accepted_bytes = col_usize(row, 16)?;
    let failure_count = col_usize(row, 17)?;
    Ok(StandardPropagationPeerObservation {
        identity_hash,
        propagation_destination,
        configured: is_configured_origin(origin.as_str()),
        enabled,
        transfer_limit_kb,
        sync_limit_kb,
        stamp_cost,
        stamp_flexibility,
        peering_cost,
        first_seen_at,
        last_seen_at,
        retry_at,
        backoff_count,
        offered_count,
        wanted_count,
        accepted_count,
        accepted_bytes,
        failure_count,
    })
}

/// Whether a 10-column selected-peer row reads as a peer.
pub open spec fn selected_peer_row_ok(row: Seq<SqlValue>) -> bool {
    &&& is_blob_len_col(row, 0, 16)
    &&& is_blob_len_col(row, 1, 16)
    &&& is_text_col(row, 2)
    &&& is_int_col(row, 3)
    &&& is_opt_usize_col(row, 4)
    &&& is_opt_usize_col(row, 5)
    &&& is_opt_u32_col(row, 6)
    &&& is_opt_u32_col(row, 7)
    &&& is_opt_u32_col(row, 8)
    &&& is_int_col(row, 9)
}

/// Whether `p` holds the columns of `row`.
pub open spec fn selected_peer_from(row: Seq<SqlValue>, p: StandardPropagationPeer) -> bool {
    &&& Some(p.identity_hash@) == opt_blob_view(row[0])
    &&& opt16(p.propagation_destination) == opt_blob_view(row[1])
    &&& p.configured == configured_origin(text_value(row[2])->0)
    &&& p.enabled == (int_of(row[3]) != 0)
    &&& opt_usize_int(p.transfer_limit_kb) == opt_int_view(row[4])
    &&& opt_usize_int(p.sync_limit_kb) == opt_int_view(row[5])
    &&& opt_u32_int(p.stamp_cost) == opt_int_view(row[6])
    &&& opt_u32_int(p.stamp_flexibility) == opt_int_view(row[7])
    &&& opt_u32_int(p.peering_cost) == opt_int_view(row[8])
    &&& row[9] == SqlValue::Int(p.observed_at)
}

/// The selected peer a row holds.
pub fn selected_peer_row(row: &[SqlValue]) -> (r: Result<StandardPropagationPeer, StoreError>)
    ensures
        r is Ok <==> selected_peer_row_ok(row@),
        r matches Ok(p) ==> selected_peer_from(row@, p),
{
    let identity_hash = col_array::<16>(row, 0)?;
    let destination = col_array::<16>(row, 1)?;
    let origin = col_text(row, 2)?;
    let enabled = col_bool(row, 3)?;
    let transfer_limit_kb = col_opt_usize(row, 4)?;
    let sync_limit_kb = col_opt_usize(row, 5)?;
    let stamp_cost = col_opt_u32(row, 6)?;
    let stamp_flexibility = col_opt_u32(row, 7)?;
    let peering_cost = col_opt_u32(row, 8)?;
    let observed_at = col_int(row, 9)?;
    Ok(StandardPropagationPeer {
        identity_hash,
        propagation_destination: Some(destination),
        configured: is_configured_origin(origin.as_str()),
        enabled,
        transfer_limit_kb,
        sync_limit_kb,
        stamp_cost,
        stamp_flexibility,
        peering_cost,
        observed_at,
    })
}

// ── Attempts, checkpoints, failures ─────────────────────────────────────

/// Whether a 14-column attempt row reads as an attempt observation.
pub open spec fn attempt_observation_row_ok(row: Seq<SqlValue>) -> bool {
    &&& is_blob_len_col(row, 0, 16)
    &&& is_blob_len_col(row, 1, 16)
    &&& is_opt_blob_len_col(row, 2, 16)
    &&& is_text_col(row, 3)
    &&& is_text_col(row, 4)
    &&& is_text_col(row, 5)
    &&& is_int_col(row, 6)
    &&& is_int_col(row, 7)
    &&& is_opt_int_col(row, 8)
    &&& is_usize_col(row, 9)
    &&& is_usize_col(row, 10)
    &&& is_usize_col(row, 11)
    &&& is_usize_col(row, 12)
    &&& is_opt_text_col(row, 13)
}

/// Whether `a` holds the columns of `row`.
pub open spec fn attempt_observation_from(row: Seq<SqlValue>, a: StandardPropagationAttemptObservation) -> bool {
    &&& Some(a.attempt_id@) == opt_blob_view(row[0])
    &&& Some(a.correlation_id@) == opt_blob_view(row[1])
    &&& opt16(a.peer) == opt_blob_view(row[2])
    &&& Some(a.direction@) == text_value(row[3])
    &&& Some(a.stage@) == text_value(row[4])
    &&& Some(a.state@) == text_value(row[5])
    &&& row[6] == SqlValue::Int(a.started_at)
    &&& row[7] == SqlValue::Int(a.updated_at)
    &&& opt_i64_int(a.deadline_at) == opt_int_view(row[8])
    &&& a.offered_count == int_of(row[9])
    &&& a.wanted_count == int_of(row[10])
    &&& a.accepted_count == int_of(row[11])
    &&& a.accepted_bytes == int_of(row[12])
    &&& opt_view(a.failure_code) == opt_text_col(row, 13)
}

/// The attempt observation a row holds.
pub fn attempt_observation_row(row: &[SqlValue]) -> (r: Result<StandardPropagationAttemptObservation, StoreError>)
    ensures
        r is Ok <==> attempt_observation_row_ok(row@),
        r matches Ok(a) ==> attempt_observation_from(row@, a),
{
    let attempt_id = col_array::<16>(row, 0)?;
    let correlation_id = col_array::<16>(row, 1)?;
    let peer = col_opt_array::<16>(row, 2)?;
    let direction = col_text(row, 3)?;
    let stage = col_text(row, 4)?;
    let state = col_text(row, 5)?;
    let started_at = col_int(row, 6)?;
    let updated_at = col_int(row, 7)?;
    let deadline_at = col_opt_int(row, 8)?;
    let offered_count = col_usize(row, 9)?;
    let wanted_count = col_usize(row, 10)?;
    let accepted_count = col_usize(row, 11)?;
    let accepted_bytes = col_usize(row, 12)?;
    let failure_code = col_opt_text(row, 13)?;
    Ok(StandardPropagationAttemptObservation {
        attempt_id,
        correlation_id,
        peer,
        direction,
        stage,
        state,
        started_at,
        updated_at,
        deadline_at,
        offered_count,
        wanted_count,
        accepted_count,
        accepted_bytes,
        failure_code,
    })
}

/// Whether a 7-column checkpoint row reads as a checkpoint observation.
pub open spec fn checkpoint_observation_row_ok(row: Seq<SqlValue>) -> bool {
    &&& is_blob_len_col(row, 0, 16)
    &&& is_text_col(row, 1)
    &&& is_text_col(row, 2)
    &&& is_usize_col(row, 3)
    &&& is_usize_col(row, 4)
    &&& is_opt_blob_len_col(row, 5, 16)
    &&& is_int_col(row, 6)
}

/// Whether `c` holds the columns of `row`.
pub open spec fn checkpoint_observation_from(row: Seq<SqlValue>, c: StandardPropagationCheckpointObservation) -> bool {
    &&& Some(c.peer@) == opt_blob_view(row[0])
    &&& Some(c.direction@) == text_value(row[1])
    &&& Some(c.completed_stage@) == text_value(row[2])
    &&& c.item_count == int_of(row[3])
    &&& c.byte_count == int_of(row[4])
    &&& opt16(c.last_attempt) == opt_blob_view(row[5])
    &&& row[6] == SqlValue::Int(c.updated_at)
}

/// The checkpoint observation a row holds.
pub fn checkpoint_observation_row(row: &[SqlValue]) -> (r: Result<StandardPropagationCheckpointObservation, StoreError>)
    ensures
        r is Ok <==> checkpoint_observation_row_ok(row@),
        r matches Ok(c) ==> checkpoint_observation_from(row@, c),
{
    let peer = col_array::<16>(row, 0)?;
    let direction = col_text(row, 1)?;
    let completed_stage = col_text(row, 2)?;
    let item_count = col_usize(row, 3)?;
    let byte_count = col_usize(row, 4)?;
    let last_attempt = col_opt_array::<16>(row, 5)?;
    let updated_at = col_int(row, 6)?;
    Ok(StandardPropagationCheckpointObservation {
        peer,
        direction,
        completed_stage,
        item_count,
        byte_count,
        last_attempt,
        updated_at,
    })
}

/// Whether a `code, occurred_at, peer, attempt_id` row reads as a failure observation.
pub open spec fn failure_observation_row_ok(row: Seq<SqlValue>) -> bool {
    is_text_col(row, 0) && is_int_col(row, 1) && is_opt_blob_len_col(row, 2, 16) && is_opt_blob_len_col(row, 3, 16)
}

/// Whether `f` holds the columns of `row`.
pub open spec fn failure_observation_from(row: Seq<SqlValue>, f: StandardPropagationFailureObservation) -> bool {
    &&& Some(f.code@) == text_value(row[0])
    &&& row[1] == SqlValue::Int(f.occurred_at)
    &&& opt16(f.peer) == opt_blob_view(row[2])
    &&& opt16(f.attempt_id) == opt_blob_view(row[3])
}

/// The failure observation a row holds.
pub fn failure_observation_row(row: &[SqlValue]) -> (r: Result<StandardPropagationFailureObservation, StoreError>)
    ensures
        r is Ok <==> failure_observation_row_ok(row@),
        r matches Ok(f) ==> failure_observation_from(row@, f),
{
    let code = col_text(row, 0)?;
    let occurred_at = col_int(row, 1)?;
    let peer = col_opt_array::<16>(row, 2)?;
    let attempt_id = col_opt_array::<16>(row, 3)?;
    Ok(StandardPropagationFailureObservation { code, occurred_at, peer, attempt_id })
}

/// Whether a six-column failure row reads as a failure.
pub open spec fn failure_row_ok(row: Seq<SqlValue>) -> bool {
    &&& is_text_col(row, 0)
    &&& is_opt_text_col(row, 1)
    &&& is_int_col(row, 2)
    &&& is_opt_blob_len_col(row, 3, 16)
    &&& is_opt_blob_len_col(row, 4, 32)
    &&& is_opt_blob_len_col(row, 5, 16)
}

/// Whether `f` holds the columns of `row`.
pub open spec fn failure_from(row: Seq<SqlValue>, f: StandardPropagationFailure) -> bool {
    &&& Some(f.code@) == text_value(row[0])
    &&& opt_view(f.detail) == opt_text_col(row, 1)
    &&& row[2] == SqlValue::Int(f.occurred_at)
    &&& opt16(f.peer) == opt_blob_view(row[3])
    &&& opt32(f.transient_id) == opt_blob_view(row[4])
    &&& opt16(f.attempt_id) == opt_blob_view(row[5])
}

/// The failure a row holds.
pub fn failure_row(row: &[SqlValue]) -> (r: Result<StandardPropagationFailure, StoreError>)
    ensures
        r is Ok <==> failure_row_ok(row@),
        r matches Ok(f) ==> failure_from(row@, f),
{
    let code = col_text(row, 0)?;
    let detail = col_opt_text(row, 1)?;
    let occurred_at = col_int(row, 2)?;
    let peer = col_opt_array::<16>(row, 3)?;
    let transient_id = col_opt_array::<32>(row, 4)?;
    let attempt_id = col_opt_array::<16>(row, 5)?;
    Ok(StandardPropagationFailure { code, detail, occurred_at, peer, transient_id, attempt_id })
}

/// Whether a seven-column checkpoint row reads as a checkpoint.
pub open spec fn checkpoint_row_ok(row: Seq<SqlValue>) -> bool {
    &&& is_text_col(row, 0)
    &&& is_opt_blob_col(row, 1)
    &&& is_opt_blob_len_col(row, 2, 32)
    &&& is_usize_col(row, 3)
    &&& is_usize_col(row, 4)
    &&& is_opt_blob_len_col(row, 5, 16)
    &&& is_int_col(row, 6)
}

/// Whether `c` holds the columns of `row`, for the given peer and direction.
pub open spec fn checkpoint_from(row: Seq<SqlValue>, peer: [u8; 16], direction: Seq<char>, c: StandardPropagationCheckpoint) -> bool {
    &&& c.peer == peer
    &&& c.direction@ == direction
    &&& Some(c.completed_stage@) == text_value(row[0])
    &&& crate::text::opt_bytes(c.cursor) == opt_blob_view(row[1])
    &&& opt32(c.digest) == opt_blob_view(row[2])
    &&& c.item_count == int_of(row[3])
    &&& c.byte_count == int_of(row[4])
    &&& opt16(c.last_attempt) == opt_blob_view(row[5])
    &&& row[6] == SqlValue::Int(c.updated_at)
}

/// The checkpoint of `peer` in `direction` that a row holds.
pub fn checkpoint_row(row: &[SqlValue], peer: [u8; 16], direction: &str) -> (r: Result<StandardPropagationCheckpoint, StoreError>)
    ensures
        r is Ok <==> checkpoint_row_ok(row@),
        r matches Ok(c) ==> checkpoint_from(row@, peer, direction@, c),
{
    let completed_stage = col_text(row, 0)?;
    let cursor = col_opt_blob(row, 1)?;
    let digest = col_opt_array::<32>(row, 2)?;
    let item_count = col_usize(row, 3)?;
    let byte_count = col_usize(row, 4)?;
    let last_attempt = col_opt_array::<16>(row, 5)?;
    let updated_at = col_int(row, 6)?;
    Ok(StandardPropagationCheckpoint {
        peer,
        direction: crate::text::owned(direction),
        completed_stage,
        cursor,
        digest,
        item_count,
        byte_count,
        last_attempt,
        updated_at,
    })
}

// ── Queue items, client jobs, message links ─────────────────────────────

/// Whether an eight-column queued item row reads as an item.
pub open spec fn item_row_ok(row: Seq<SqlValue>) -> bool {
    &&& is_blob_len_col(row, 0, 32)
    &&& is_blob_len_col(row, 1, 16)
    &&& is_blob_col(row, 2)
    &&& is_blob_len_col(row, 3, 32)
    &&& is_u32_col(row, 4)
    &&& is_int_col(row, 5)
    &&& is_int_col(row, 6)
    &&& is_usize_col(row, 7)
}

/// Whether `item` holds the columns of `row`.
pub open spec fn item_from(row: Seq<SqlValue>, item: StandardPropagationItem) -> bool {
    &&& Some(item.transient_id@) == opt_blob_view(row[0])
    &&& Some(item.destination@) == opt_blob_view(row[1])
    &&& Some(item.lxmf_data@) == opt_blob_view(row[2])
    &&& Some(item.stamp@) == opt_blob_view(row[3])
    &&& item.stamp_value == int_of(row[4])
    &&& row[5] == SqlValue::Int(item.received_at)
    &&& row[6] == SqlValue::Int(item.expires_at)
    &&& item.stored_size == int_of(row[7])
}

/// The queued item a row holds.
pub fn item_row(row: &[SqlValue]) -> (r: Result<StandardPropagationItem, StoreError>)
    ensures
        r is Ok <==> item_row_ok(row@),
        r matches Ok(item) ==> item_from(row@, item),
{
    let transient_id = col_array::<32>(row, 0)?;
    let destination = col_array::<16>(row, 1)?;
    let lxmf_data = col_blob(row, 2)?;
    let stamp = col_array::<32>(row, 3)?;
    let stamp_value = col_u32(row, 4)?;
    let received_at = col_int(row, 5)?;
    let expires_at = col_int(row, 6)?;
    let stored_size = col_usize(row, 7)?;
    Ok(StandardPropagationItem {
        transient_id,
        destination,
        lxmf_data,
        stamp,
        stamp_value,
        received_at,
        expires_at,
        stored_size,
    })
}

/// Whether a fifteen-column client job row reads as a job.
pub open spec fn client_job_row_ok(row: Seq<SqlValue>) -> bool {
    &&& is_text_col(row, 0)
    &&& is_opt_blob_len_col(row, 1, 32)
    &&& is_blob_len_col(row, 2, 16)
    &&& is_opt_blob_col(row, 3)
    &&& is_opt_blob_col(row, 4)
    &&& is_opt_blob_len_col(row, 5, 32)
    &&& is_blob_len_col(row, 6, 16)
    &&& is_blob_len_col(row, 7, 16)
    &&& is_u32_col(row, 8)
    &&& is_u32_col(row, 9)
    &&& is_blob_len_col(row, 10, 16)
    &&& is_blob_len_col(row, 11, 16)
    &&& is_text_col(row, 12)
    &&& is_int_col(row, 13)
    &&& is_int_col(row, 14)
}

/// Whether `job` holds the columns of `row`.
pub open spec fn client_job_from(row: Seq<SqlValue>, job: StandardPropagationClientJob) -> bool {
    &&& Some(job.message_id@) == text_value(row[0])
    &&& opt32(job.transient_id) == opt_blob_view(row[1])
    &&& Some(job.destination@) == opt_blob_view(row[2])
    &&& crate::text::opt_bytes(job.canonical_wire) == opt_blob_view(row[3])
    &&& crate::text::opt_bytes(job.lxmf_data) == opt_blob_view(row[4])
    &&& opt32(job.stamp) == opt_blob_view(row[5])
    &&& Some(job.peer@) == opt_blob_view(row[6])
    &&& Some(job.propagation_destination@) == opt_blob_view(row[7])
    &&& job.stamp_cost == int_of(row[8])
    &&& job.peering_cost == int_of(row[9])
    &&& Some(job.correlation_id@) == opt_blob_view(row[10])
    &&& Some(job.attempt_id@) == opt_blob_view(row[11])
    &&& Some(job.state@) == text_value(row[12])
    &&& row[13] == SqlValue::Int(job.created_at)
    &&& row[14] == SqlValue::Int(job.updated_at)
}

/// The client job a row holds.
pub fn client_job_row(row: &[SqlValue]) -> (r: Result<StandardPropagationClientJob, StoreError>)
    ensures
        r is Ok <==> client_job_row_ok(row@),
        r matches Ok(job) ==> client_job_from(row@, job),
{
    let message_id = col_text(row, 0)?;
    let transient_id = col_opt_array::<32>(row, 1)?;
    let destination = col_array::<16>(row, 2)?;
    let canonical_wire = col_opt_blob(row, 3)?;
    let lxmf_data = col_opt_blob(row, 4)?;
    let stamp = col_opt_array::<32>(row, 5)?;
    let peer = col_array::<16>(row, 6)?;
    let propagation_destination = col_array::<16>(row, 7)?;
    let stamp_cost = col_u32(row, 8)?;
    let peering_cost = col_u32(row, 9)?;
    let correlation_id = col_array::<16>(row, 10)?;
    let attempt_id = col_array::<16>(row, 11)?;
    let state = col_text(row, 12)?;
    let created_at = col_int(row, 13)?;
    let updated_at = col_int(row, 14)?;
    Ok(StandardPropagationClientJob {
        message_id,
        transient_id,
        destination,
        canonical_wire,
        lxmf_data,
        stamp,
        peer,
        propagation_destination,
        stamp_cost,
        peering_cost,
        correlation_id,
        attempt_id,
        state,
        created_at,
        updated_at,
    })
}

/// Whether an eight-column link row reads as a message link.
pub open spec fn message_link_row_ok(row: Seq<SqlValue>) -> bool {
    &&& is_text_col(row, 0)
    &&& is_blob_len_col(row, 1, 32)
    &&& is_text_col(row, 2)
    &&& is_opt_blob_len_col(row, 3, 16)
    &&& is_opt_blob_len_col(row, 4, 16)
    &&& is_text_col(row, 5)
    &&& is_int_col(row, 6)
    &&& is_int_col(row, 7)
}

/// Whether `link` holds the columns of `row`.
pub open spec fn message_link_from(row: Seq<SqlValue>, link: StandardPropagationMessageLink) -> bool {
    &&& Some(link.message_id@) == text_value(row[0])
    &&& Some(link.transient_id@) == opt_blob_view(row[1])
    &&& Some(link.relation@) == text_value(row[2])
    &&& opt16(link.attempt_id) == opt_blob_view(row[3])
    &&& opt16(link.peer) == opt_blob_view(row[4])
    &&& Some(link.state@) == text_value(row[5])
    &&& row[6] == SqlValue::Int(link.created_at)
    &&& row[7] == SqlValue::Int(link.updated_at)
}

/// The message link a row holds.
pub fn message_link_row(row: &[SqlValue]) -> (r: Result<StandardPropagationMessageLink, StoreError>)
    ensures
        r is Ok <==> message_link_row_ok(row@),
        r matches Ok(link) ==> message_link_from(row@, link),
{
    let message_id = col_text(row, 0)?;
    let transient_id = col_array::<32>(row, 1)?;
    let relation = col_text(row, 2)?;
    let attempt_id = col_opt_array::<16>(row, 3)?;
    let peer = col_opt_array::<16>(row, 4)?;
    let state = col_text(row, 5)?;
    let created_at = col_int(row, 6)?;
    let updated_at = col_int(row, 7)?;
    Ok(StandardPropagationMessageLink { message_id, transient_id, relation, attempt_id, peer, state, created_at, updated_at })
}

/// Whether a `queued, queued bytes, acknowledged, expired` row reads as a queue observation.
pub open spec fn queue_observation_row_ok(row: Seq<SqlValue>) -> bool {
    is_usize_col(row, 0) && is_usize_col(row, 1) && is_usize_col(row, 2) && is_usize_col(row, 3)
}

/// The queue observation a row holds.
pub fn queue_observation_row(row: &[SqlValue]) -> (r: Result<StandardPropagationQueueObservation, StoreError>)
    ensures
        r is Ok <==> queue_observation_row_ok(row@),
        r matches Ok(q) ==> q.queued_count == int_of(row@[0]) && q.queued_bytes == int_of(row@[1])
            && q.acknowledged_count == int_of(row@[2]) && q.expired_count == int_of(row@[3]),
{
    let queued_count = col_usize(row, 0)?;
    let queued_bytes = col_usize(row, 1)?;
    let acknowledged_count = col_usize(row, 2)?;
    let expired_count = col_usize(row, 3)?;
    Ok(StandardPropagationQueueObservation { queued_count, queued_bytes, acknowledged_count, expired_count })
}

} // verus!
