//! The records that the message store reads and writes.
use vstd::prelude::*;

verus! {

/// A message as the store keeps it. `fields` holds the JSON text of the
/// message fields, as `serde_json` writes it.
#[derive(Clone, Debug, PartialEq, Eq)]
pub struct MessageRecord {
    pub id: String,
    pub source: String,
    pub destination: String,
    pub title: String,
    pub content: String,
    pub timestamp: i64,
    pub direction: String,
    pub fields: Option<String>,
    pub receipt_status: Option<String>,
    /// Whether the message has been read by the local user.
    pub read: bool,
}

#[derive(Clone, Debug, PartialEq, Eq)]
pub struct LxmfTicketRecord {
    pub peer: String,
    pub ticket: Vec<u8>,
    pub expires_at: i64,
    pub direction: String,
}

#[derive(Clone, Debug, PartialEq, Eq)]
pub struct LxmfTicketOfferReservation {
    pub reservation_id: String,
    pub ticket: LxmfTicketRecord,
}

#[derive(Clone, Copy, Debug, PartialEq, Eq)]
pub struct LxmfStampPolicy {
    pub target_cost: u32,
    pub flexibility: u32,
}

#[derive(Clone, Debug, PartialEq, Eq)]
pub struct ContactRecord {
    pub peer_hash: String,
    pub alias: Option<String>,
    pub notes: Option<String>,
    pub created_at: i64,
    pub updated_at: i64,
}

/// Summary of a conversation with a peer.
#[derive(Clone, Debug, PartialEq, Eq)]
pub struct ConversationSummary {
    pub peer_hash: String,
    pub peer_name: Option<String>,
    pub last_message_timestamp: Option<i64>,
    pub last_message_content: Option<String>,
    pub unread_count: u32,
    pub message_count: u32,
    pub pinned: bool,
    pub muted: bool,
}

/// What a mutation did.
#[derive(Clone, Copy, Debug, PartialEq, Eq)]
pub enum MutationDisposition {
    Applied,
    Unchanged,
    NotFound,
    TerminalConflict,
    Created,
    Updated,
}

#[derive(Clone, Debug, PartialEq, Eq)]
pub struct ConversationMutationOutcome {
    pub disposition: MutationDisposition,
    pub affected_count: u64,
    pub summary: Option<ConversationSummary>,
    pub terminal_state: Option<String>,
}

#[derive(Clone, Debug, PartialEq, Eq)]
pub struct ContactMutationOutcome {
    pub disposition: MutationDisposition,
    pub affected_count: u64,
    pub contact: Option<ContactRecord>,
}

#[derive(Clone, Debug, PartialEq, Eq)]
pub struct MessageMutationOutcome {
    pub disposition: MutationDisposition,
    pub affected_count: u64,
    pub terminal_state: Option<String>,
}

#[derive(Clone, Debug, PartialEq, Eq)]
pub struct ConversationDraft {
    pub peer_hash: String,
    pub content: String,
    pub updated_at: i64,
}

#[derive(Clone, Debug, PartialEq, Eq)]
pub struct PropagationInventoryRecord {
    pub id: String,
    pub destination_hash: String,
    pub source_hash: Option<String>,
    pub received_at: i64,
    pub expires_at: i64,
    pub size_bytes: u64,
}

#[derive(Clone, Debug, PartialEq, Eq)]
pub struct OutboundRouteRecord {
    pub message_id: String,
    pub requested_method: String,
    pub actual_method: String,
    pub representation: String,
    pub fallback_reason: Option<String>,
    pub correlation_id: String,
    pub retry_of: Option<String>,
    pub deadline_unix_ms: i64,
    pub state: String,
    pub attempt_count: u32,
}

#[derive(Clone, Debug, PartialEq, Eq)]
pub struct MessageDeliveryEvidenceRecord {
    pub message_id: String,
    pub kind: String,
    pub evidence_hash: String,
    pub representation: String,
    pub state: String,
    pub outcome: Option<String>,
    pub attempt_number: Option<u32>,
    pub correlation_id: Option<String>,
    pub observed_at: i64,
    pub terminal_at: Option<i64>,
    pub transferred_bytes: Option<u64>,
    pub total_bytes: Option<u64>,
    pub progress: Option<u8>,
}

#[derive(Clone, Debug, PartialEq, Eq)]
pub struct OutboundAttemptRecord {
    pub message_id: String,
    pub attempt_number: u32,
    pub started_unix_ms: i64,
    pub deadline_unix_ms: i64,
    pub state: String,
}

/// An attachment to store with a message.
#[derive(Clone, PartialEq, Eq)]
pub struct AttachmentBlobInput {
    pub wire_name: String,
    pub data: Vec<u8>,
    pub content_type: Option<String>,
    pub source: String,
}

#[derive(Clone, Debug, PartialEq, Eq)]
pub struct MessageAttachmentRecord {
    pub message_id: String,
    pub ordinal: u8,
    pub digest: [u8; 32],
    pub wire_name: String,
    pub byte_len: u64,
    pub content_type: Option<String>,
    pub availability: String,
    pub integrity: String,
    pub source: String,
    pub transfer_id: Option<String>,
    pub resource_hash: Option<Vec<u8>>,
    pub representation: Option<String>,
    pub direction: Option<String>,
    pub transfer_state: Option<String>,
    pub transferred: u64,
    pub total: u64,
    pub checksum_verified: bool,
    pub transfer_error: Option<String>,
}

/// A slice of a stored attachment.
#[derive(Clone, PartialEq, Eq)]
pub struct AttachmentChunkRecord {
    pub attachment: MessageAttachmentRecord,
    pub data: Vec<u8>,
    pub next_offset: usize,
    pub done: bool,
}

#[derive(Clone, Copy, Debug, PartialEq, Eq)]
pub struct InboundAttachmentTransferEvidence {
    pub resource_hash: [u8; 32],
    pub transferred: u64,
    pub total: u64,
    pub checksum_verified: bool,
}

/// Where a conversation page left off, and the scope it was read under: the
/// store, the snapshot of message keys, the conversation epoch and the
/// unread filter; the last summary's pin, time, sequence and peer.
#[derive(Clone, Copy, Debug, PartialEq, Eq)]
pub struct ConversationCursorFields {
    pub store_id: [u8; 16],
    pub snapshot_seq: i64,
    pub conversation_epoch: i64,
    pub unread_only: bool,
    pub pinned: bool,
    pub last_sort_timestamp: i64,
    pub last_ingest_seq: i64,
    pub peer: [u8; 16],
}

/// A page of conversation summaries and, when more follow, where the next
/// page starts.
#[derive(Clone, Debug, PartialEq, Eq)]
pub struct ConversationPage {
    pub items: Vec<ConversationSummary>,
    pub next_cursor: Option<ConversationCursorFields>,
}

/// A roster entry as the store keeps it: identity, role name, label and grants.
#[derive(Clone, Debug, PartialEq, Eq)]
pub struct RbacRosterRow {
    pub identity_hash: String,
    pub role: String,
    pub label: String,
    pub grants: Vec<String>,
}

/// An inbound LXMF message exactly as it arrived: the decoded parts and the
/// wire they came from, with the outcome of its signature and stamp checks.
/// The timestamp is the `REAL` SQLite stores, carried without being read.
#[derive(Clone, PartialEq)]
pub struct CanonicalInboundRecord {
    pub message_id: String,
    pub source: [u8; 16],
    pub destination: [u8; 16],
    pub title: Vec<u8>,
    pub content: Vec<u8>,
    pub timestamp: rusqlite::types::Value,
    pub fields_msgpack: Option<Vec<u8>>,
    pub signature: Option<Vec<u8>>,
    pub stamp: Option<Vec<u8>>,
    pub wire: Vec<u8>,
    pub authentication_state: String,
    pub stamp_state: String,
    pub stamp_value: Option<u32>,
    pub stamp_target: Option<u32>,
}

/// A heard announce. Signal readings are the `REAL`s SQLite stores, carried
/// without being read.
#[derive(Clone, Debug, PartialEq)]
pub struct AnnounceRecord {
    pub id: String,
    pub peer: String,
    pub timestamp: i64,
    pub name: Option<String>,
    pub name_source: Option<String>,
    pub first_seen: i64,
    pub seen_count: u64,
    pub app_data_hex: Option<String>,
    pub capabilities: Vec<String>,
    pub rssi: Option<rusqlite::types::Value>,
    pub snr: Option<rusqlite::types::Value>,
    pub q: Option<rusqlite::types::Value>,
    pub stamp_cost: Option<u32>,
    pub stamp_cost_flexibility: Option<u32>,
    pub peering_cost: Option<u32>,
}

/// A message with what the store holds beside it: its canonical inbound
/// form, and its outbound route with every attempt of the route's correlation.
#[derive(Clone, PartialEq)]
pub struct MessageProjectionSnapshot {
    pub message: MessageRecord,
    pub canonical: Option<CanonicalInboundRecord>,
    pub lifecycle: Option<(OutboundRouteRecord, Vec<OutboundAttemptRecord>)>,
}

/// Where a page of a peer's messages left off, and the scope it was read
/// under: the store, the snapshot of message keys and the peer; the last
/// message's sort time and ingest sequence.
#[derive(Clone, Copy, Debug, PartialEq, Eq)]
pub struct MessageCursorFields {
    pub store_id: [u8; 16],
    pub snapshot_seq: i64,
    pub peer: [u8; 16],
    pub sort_timestamp: i64,
    pub ingest_seq: i64,
}

/// A page of a peer's messages with their projections and, when more
/// follow, where the next page starts.
pub struct MessageProjectionPage {
    pub items: Vec<MessageProjectionSnapshot>,
    pub next_cursor: Option<MessageCursorFields>,
}

/// Projections of the messages that matched a search, newest first.
#[derive(Clone, PartialEq)]
pub struct MessageSearchSnapshot {
    pub items: Vec<MessageProjectionSnapshot>,
    pub truncated: bool,
    pub matched_count: u64,
}

} // verus!
