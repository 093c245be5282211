//! Canonical inbound messages and the attachments stored with messages:
//! content-addressed blobs within quotas, their integrity on every read, and
//! the transfers that carried them.
use vstd::prelude::*;
use crate::error::{invalid, StoreError};
use crate::limits::{
    attachment_input_ok, ticket_ok, validate_attachment_input, validate_ticket, MAX_ATTACHMENTS_PER_MESSAGE,
    MAX_ATTACHMENT_BLOB_AGGREGATE_BYTES, MAX_ATTACHMENT_BLOB_BYTES, MAX_ATTACHMENT_BLOB_COUNT,
    MAX_ATTACHMENT_CHUNK_BYTES,
};
use crate::message_rows::{attachment_row, canonical_row};
use crate::message_store::{canonical_sql, fields_arg, fields_view, nonneg_u64};
use crate::outside::{sha256, sha256_digest};
use crate::propagation::id_eq;
use crate::records::{
    AttachmentBlobInput, AttachmentChunkRecord, CanonicalInboundRecord, InboundAttachmentTransferEvidence,
    LxmfTicketRecord, MessageAttachmentRecord, MessageRecord,
};
use crate::sql::{col_array, col_blob, col_int, ArgView, SqlArg, SqlCall, SqlValue};
use crate::store::{blob_arg, int_arg, opt_blob_arg, opt_int_arg, opt_slice, text_arg, MessagesStore};
use crate::text::{bytes_eq, owned, str_eq};

verus! {

/// Largest payload of one packet over a Reticulum link: larger messages go
/// as resources.
pub const LINK_PACKET_MDU: usize = 431;

/// The total bytes of a list of attachments.
pub open spec fn attachments_total(a: Seq<AttachmentBlobInput>) -> int
    decreases a.len(),
{
    if a.len() == 0 {
        0
    } else {
        attachments_total(a.drop_last()) + a.last().data@.len()
    }
}

/// Whether a message's attachments are acceptable: at most eight, each
/// well-formed, and at most 768 KiB together.
pub open spec fn attachments_ok(a: Seq<AttachmentBlobInput>) -> bool {
    &&& a.len() <= MAX_ATTACHMENTS_PER_MESSAGE
    &&& forall|i: int| 0 <= i < a.len() ==> attachment_input_ok(#[trigger] a[i])
    &&& attachments_total(a) <= MAX_ATTACHMENT_BLOB_BYTES
}

/// `a + b`, saturating at the bounds of `i64`.
pub open spec fn sat_add_i64(a: i64, b: i64) -> i64 {
    if a + b > i64::MAX {
        i64::MAX
    } else if a + b < i64::MIN {
        i64::MIN
    } else {
        (a + b) as i64
    }
}

/// `sat_add_i64` computed.
pub fn saturating_add_i64(a: i64, b: i64) -> (r: i64)
    ensures
        r == sat_add_i64(a, b),
{
    if b > 0 && a > i64::MAX - b {
        i64::MAX
    } else if b < 0 && a < i64::MIN - b {
        i64::MIN
    } else {
        a + b
    }
}

/// A length as an `i64`, saturating.
pub fn len_i64(n: usize) -> (r: i64)
    ensures
        n <= i64::MAX ==> r == n,
        n > i64::MAX ==> r == i64::MAX,
{
    if n as u64 > i64::MAX as u64 {
        i64::MAX
    } else {
        n as i64
    }
}

/// A count as an `i64`, saturating.
pub fn u64_i64(n: u64) -> (r: i64)
    ensures
        n <= i64::MAX ==> r == n,
        n > i64::MAX ==> r == i64::MAX,
{
    if n > i64::MAX as u64 {
        i64::MAX
    } else {
        n as i64
    }
}

/// Checks the count, metadata and total size of a message's attachments.
pub fn validate_attachments(attachments: &[AttachmentBlobInput]) -> (r: Result<(), StoreError>)
    ensures
        r is Ok <==> attachments_ok(attachments@),
        r matches Err(e) ==> e is InvalidParameter,
{
    if attachments.len() > MAX_ATTACHMENTS_PER_MESSAGE {
        return Err(invalid("attachment count exceeds 8"));
    }
    let mut total: usize = 0;
    let mut i: usize = 0;
    while i < attachments.len()
        invariant
            i <= attachments.len(),
            attachments.len() <= MAX_ATTACHMENTS_PER_MESSAGE,
            total == attachments_total(attachments@.subrange(0, i as int)),
            total <= i * MAX_ATTACHMENT_BLOB_BYTES,
            forall|k: int| 0 <= k < i ==> attachment_input_ok(#[trigger] attachments@[k]),
        decreases attachments.len() - i,
    {
        let ghost before = attachments@.subrange(0, i as int);
        validate_attachment_input(&attachments[i])?;
        proof {
            assert(attachments@.subrange(0, i + 1).drop_last() =~= before);
        }
        let len = attachments[i].data.len();
        proof {
            assert(total + len <= (i + 1) * MAX_ATTACHMENT_BLOB_BYTES) by (nonlinear_arith)
                requires
                    total <= i * MAX_ATTACHMENT_BLOB_BYTES,
                    len <= MAX_ATTACHMENT_BLOB_BYTES,
            ;
        }
        total = total + len;
        i = i + 1;
    }
    proof {
        assert(attachments@.subrange(0, i as int) =~= attachments@);
    }
    if total > MAX_ATTACHMENT_BLOB_BYTES {
        return Err(invalid("message attachment aggregate exceeds 768 KiB"));
    }
    Ok(())
}

/// Whether `seen` holds `d`.
fn digest_seen(seen: &Vec<[u8; 32]>, d: &[u8; 32]) -> (r: bool)
    ensures
        r == exists|k: int| 0 <= k < seen@.len() && (#[trigger] seen@[k])@ == d@,
{
    let mut k: usize = 0;
    while k < seen.len()
        invariant
            k <= seen.len(),
            forall|j: int| 0 <= j < k ==> (#[trigger] seen@[j])@ != d@,
        decreases seen.len() - k,
    {
        if id_eq(&seen[k], d) {
            return true;
        }
        k = k + 1;
    }
    false
}

/// Whether the stored state of a blob makes its bytes readable.
pub open spec fn blob_intact(digest: Seq<u8>, byte_len: i64, data: Seq<u8>) -> bool {
    byte_len >= 0 && byte_len == data.len() && digest == sha256(data)
}

/// The bytes of a chunk: from `offset`, at most `max_bytes`, within the blob.
pub open spec fn chunk_end(offset: usize, max_bytes: usize, len: usize) -> usize {
    if offset + max_bytes > len {
        len
    } else {
        (offset + max_bytes) as usize
    }
}

/// Whether a chunk request is in range: one of the eight ordinals and 1 to
/// 256 KiB of bytes.
pub open spec fn chunk_request_ok(ordinal: u8, max_bytes: usize) -> bool {
    ordinal <= 7 && 1 <= max_bytes <= MAX_ATTACHMENT_CHUNK_BYTES
}

/// The inbound transfer recorded with attachments that arrived: by a
/// resource when transfer evidence came, otherwise by what the wire's size
/// implies; the total, and what was transferred of it.
pub open spec fn inbound_transfer_total(wire_len: nat, transfer: Option<InboundAttachmentTransferEvidence>) -> i64 {
    match transfer {
        Some(t) => if t.total > i64::MAX { i64::MAX } else { t.total as i64 },
        None => if wire_len > i64::MAX { i64::MAX } else { wire_len as i64 },
    }
}

/// What was transferred of an inbound transfer's total.
pub open spec fn inbound_transferred(total: i64, transfer: Option<InboundAttachmentTransferEvidence>) -> i64 {
    match transfer {
        Some(t) => {
            let v: i64 = if t.transferred > i64::MAX { i64::MAX } else { t.transferred as i64 };
            if v < total { v } else { total }
        },
        None => total,
    }
}

/// The parameters of a canonical message, in column order.
fn canonical_args(canonical: &CanonicalInboundRecord) -> (args: Vec<SqlArg>)
    ensures
        args@.len() == 13,
{
    vec![
        text_arg(canonical.message_id.as_str()),
        blob_arg(&canonical.source),
        blob_arg(&canonical.destination),
        blob_arg(canonical.title.as_slice()),
        blob_arg(canonical.content.as_slice()),
        SqlArg::Value(canonical.timestamp.clone()),
        opt_blob_arg(opt_slice(&canonical.fields_msgpack)),
        opt_blob_arg(opt_slice(&canonical.signature)),
        opt_blob_arg(opt_slice(&canonical.stamp)),
        blob_arg(canonical.wire.as_slice()),
        text_arg(canonical.authentication_state.as_str()),
        text_arg(canonical.stamp_state.as_str()),
        opt_u32_arg(canonical.stamp_value),
    ]
}

/// An optional `u32` parameter: `NULL` when absent.
pub fn opt_u32_arg(v: Option<u32>) -> (a: SqlArg)
    ensures
        v is None ==> a == SqlArg::Null,
        v matches Some(x) ==> a == SqlArg::Int(x as i64),
{
    match v {
        Some(x) => SqlArg::Int(x as i64),
        None => SqlArg::Null,
    }
}

impl MessagesStore {
    /// Stores the attachments of a message within the caller's transaction:
    /// each distinct content once, under its SHA-256, shared with what is
    /// stored already. Fails when the attachments are not acceptable, when a
    /// stored blob under the same digest differs, or when the new blobs would
    /// pass the store's blob count or byte quota.
    pub(crate) fn stage_attachment_blobs(
        &mut self,
        message_id: &str,
        attachments: &[AttachmentBlobInput],
        now: i64,
    ) -> (r: Result<(), StoreError>)
        ensures
            r is Ok ==> attachments_ok(attachments@),
            !attachments_ok(attachments@) ==> (r matches Err(e) && e is InvalidParameter),
            !attachments_ok(attachments@) ==> final(self)@ == old(self)@,
            crate::store::extends(old(self)@, final(self)@),
    {
        validate_attachments(attachments)?;
        let existing_bytes = self.int_query("SELECT COALESCE(SUM(length(data)), 0) FROM attachment_blobs", &[])?;
        let existing_count = self.int_query("SELECT COUNT(*) FROM attachment_blobs", &[])?;
        let mut new_bytes: usize = 0;
        let mut new_count: usize = 0;
        let mut seen: Vec<[u8; 32]> = Vec::new();
        let mut digests: Vec<[u8; 32]> = Vec::new();
        let mut i: usize = 0;
        while i < attachments.len()
            invariant
                attachments_ok(attachments@),
                i <= attachments.len(),
                digests@.len() == i,
                forall|k: int| 0 <= k < i ==> (#[trigger] digests@[k])@ == sha256(attachments@[k].data@),
                new_count <= i,
                new_bytes <= i * MAX_ATTACHMENT_BLOB_BYTES,
                crate::store::extends(old(self)@, self@),
            decreases attachments.len() - i,
        {
            let input = &attachments[i];
            proof {
                assert(attachment_input_ok(attachments@[i as int]));
            }
            let digest = sha256_digest(input.data.as_slice());
            let ghost nb0 = new_bytes;
            proof {
                assert(nb0 + MAX_ATTACHMENT_BLOB_BYTES <= (i + 1) * MAX_ATTACHMENT_BLOB_BYTES) by (nonlinear_arith)
                    requires
                        nb0 <= i * MAX_ATTACHMENT_BLOB_BYTES,
                ;
                assert((i + 1) * MAX_ATTACHMENT_BLOB_BYTES <= 9 * MAX_ATTACHMENT_BLOB_BYTES) by (nonlinear_arith)
                    requires
                        i < 8,
                ;
            }
            if !digest_seen(&seen, &digest) {
                seen.push(digest);
                let existing = self.first_row(
                    "SELECT byte_len, data FROM attachment_blobs WHERE digest = ?1",
                    &[blob_arg(&digest)],
                )?;
                match existing {
                    Some(row) => {
                        let byte_len = col_int(row.as_slice(), 0)?;
                        let data = col_blob(row.as_slice(), 1)?;
                        let same = byte_len == len_i64(input.data.len()) && bytes_eq(
                            data.as_slice(),
                            input.data.as_slice(),
                        );
                        if !same {
                            return Err(invalid("attachment digest/length conflict"));
                        }
                    },
                    None => {
                        let len = input.data.len();
                        new_count = new_count + 1;
                        new_bytes = new_bytes + len;
                    },
                }
            }
            digests.push(digest);
            i = i + 1;
        }
        if saturating_add_i64(existing_count, new_count as i64) > MAX_ATTACHMENT_BLOB_COUNT as i64
            || saturating_add_i64(existing_bytes, new_bytes as i64) > MAX_ATTACHMENT_BLOB_AGGREGATE_BYTES as i64 {
            return Err(invalid("attachment blob quota exceeded"));
        }
        let mut ordinal: usize = 0;
        while ordinal < attachments.len()
            invariant
                attachments_ok(attachments@),
                ordinal <= attachments.len(),
                digests@.len() == attachments@.len(),
                crate::store::extends(old(self)@, self@),
            decreases attachments.len() - ordinal,
        {
            let input = &attachments[ordinal];
            let digest = &digests[ordinal];
            self.exec(
                "INSERT OR IGNORE INTO attachment_blobs
                 (digest, byte_len, data, state, created_at, verified_at)
                 VALUES (?1, ?2, ?3, 'verified', ?4, ?4)",
                &[blob_arg(digest), int_arg(len_i64(input.data.len())), blob_arg(input.data.as_slice()), int_arg(now)],
            )?;
            self.exec(
                "INSERT INTO message_attachments
                 (message_id, ordinal, digest, wire_name, content_type, source)
                 VALUES (?1, ?2, ?3, ?4, ?5, ?6)",
                &[
                    text_arg(message_id),
                    int_arg(ordinal as i64),
                    blob_arg(digest),
                    text_arg(input.wire_name.as_str()),
                    crate::store::opt_text_arg(crate::store::opt_str(&input.content_type)),
                    text_arg(input.source.as_str()),
                ],
            )?;
            ordinal = ordinal + 1;
        }
        Ok(())
    }

    /// Stores an inbound message with its canonical form unless a message
    /// with its id exists; true only for the first accepted delivery.
    pub fn insert_canonical_inbound_if_absent(
        &mut self,
        projection: &MessageRecord,
        canonical: &CanonicalInboundRecord,
    ) -> (r: Result<bool, StoreError>) {
        self.insert_canonical_inbound_with_attachments(projection, canonical, &[], None)
    }

    /// Stores an inbound message with its canonical form and attachments, or
    /// with the reason its attachments could not be read; nothing when a
    /// message with its id exists. True only for the first accepted delivery.
    pub fn insert_canonical_inbound_with_attachments(
        &mut self,
        projection: &MessageRecord,
        canonical: &CanonicalInboundRecord,
        attachments: &[AttachmentBlobInput],
        attachment_issue: Option<&str>,
    ) -> (r: Result<bool, StoreError>)
        ensures
            r matches Ok(true) ==> (attachment_issue is Some || attachments_ok(attachments@)),
            r is Ok ==> crate::store::succeeded_atomically(old(self)@, final(self)@),
            r is Err ==> crate::store::failed_cleanly(old(self)@, final(self)@),
    {
        self.begin()?;
        let done = self.insert_canonical_step(projection, canonical, attachments, attachment_issue);
        self.finish(done)
    }

    fn insert_canonical_step(
        &mut self,
        projection: &MessageRecord,
        canonical: &CanonicalInboundRecord,
        attachments: &[AttachmentBlobInput],
        attachment_issue: Option<&str>,
    ) -> (r: Result<bool, StoreError>)
        ensures
            r matches Ok(true) ==> (attachment_issue is Some || attachments_ok(attachments@)),
    {
        let changed = self.exec(
            "INSERT OR IGNORE INTO messages (id, source, destination, title, content, timestamp, direction, fields, receipt_status, read) VALUES (?1, ?2, ?3, ?4, ?5, ?6, 'in', NULL, NULL, 0)",
            &[
                text_arg(projection.id.as_str()),
                text_arg(projection.source.as_str()),
                text_arg(projection.destination.as_str()),
                text_arg(projection.title.as_str()),
                text_arg(projection.content.as_str()),
                int_arg(projection.timestamp),
            ],
        )?;
        if changed == 0 {
            return Ok(false);
        }
        self.insert_canonical_children(canonical)?;
        match attachment_issue {
            Some(issue) => {
                self.record_attachment_issue(projection.id.as_str(), issue)?;
            },
            None => {
                let now = if projection.timestamp > 0 {
                    projection.timestamp
                } else {
                    0
                };
                self.stage_attachment_blobs(projection.id.as_str(), attachments, now)?;
            },
        }
        Ok(true)
    }

    /// Inserts the canonical form of a message and its inspection row.
    fn insert_canonical_children(&mut self, canonical: &CanonicalInboundRecord) -> (r: Result<(), StoreError>)
        ensures
            crate::store::extends(old(self)@, final(self)@),
    {
        let args = canonical_args(canonical);
        self.exec(
            "INSERT INTO canonical_inbound_messages
             (message_id, source, destination, title, content, timestamp, fields_msgpack,
               signature, stamp, wire, authentication_state, stamp_state, stamp_value)
              VALUES (?1, ?2, ?3, ?4, ?5, ?6, ?7, ?8, ?9, ?10, ?11, ?12, ?13)",
            args.as_slice(),
        )?;
        self.exec(
            "INSERT INTO canonical_inbound_inspection (message_id, stamp_target) VALUES (?1, ?2)",
            &[text_arg(canonical.message_id.as_str()), opt_u32_arg(canonical.stamp_target)],
        )?;
        Ok(())
    }

    fn record_attachment_issue(&mut self, message_id: &str, issue: &str) -> (r: Result<(), StoreError>)
        ensures
            crate::store::extends(old(self)@, final(self)@),
    {
        self.exec(
            "INSERT INTO attachment_issues (message_id, reason, created_at)
             VALUES (?1, ?2, CAST(strftime('%s','now') AS INTEGER))",
            &[text_arg(message_id), text_arg(issue)],
        )?;
        Ok(())
    }

    /// Stores an inbound message as `insert_canonical_with_attachments_ticket_transfer_and_propagation`
    /// does, without attachments, transfer or propagation.
    pub fn insert_canonical_with_verified_ticket(
        &mut self,
        projection: &MessageRecord,
        canonical: &CanonicalInboundRecord,
        received_ticket: Option<&LxmfTicketRecord>,
    ) -> (r: Result<bool, StoreError>) {
        self.insert_canonical_with_attachments_ticket_transfer_and_propagation(
            projection,
            canonical,
            received_ticket,
            &[],
            None,
            None,
            None,
        )
    }

    /// Stores an inbound message with a received ticket and attachments.
    pub fn insert_canonical_with_attachments_and_ticket(
        &mut self,
        projection: &MessageRecord,
        canonical: &CanonicalInboundRecord,
        received_ticket: Option<&LxmfTicketRecord>,
        attachments: &[AttachmentBlobInput],
        attachment_issue: Option<&str>,
    ) -> (r: Result<bool, StoreError>)
        ensures
            r matches Ok(true) ==> (attachment_issue is Some || attachments_ok(attachments@)),
    {
        self.insert_canonical_with_attachments_ticket_transfer_and_propagation(
            projection,
            canonical,
            received_ticket,
            attachments,
            attachment_issue,
            None,
            None,
        )
    }

    /// Stores an inbound message with a received ticket, attachments and the
    /// evidence of the transfer that carried them.
    pub fn insert_canonical_with_attachments_ticket_and_transfer(
        &mut self,
        projection: &MessageRecord,
        canonical: &CanonicalInboundRecord,
        received_ticket: Option<&LxmfTicketRecord>,
        attachments: &[AttachmentBlobInput],
        attachment_issue: Option<&str>,
        transfer: Option<InboundAttachmentTransferEvidence>,
    ) -> (r: Result<bool, StoreError>)
        ensures
            r matches Ok(true) ==> (attachment_issue is Some || attachments_ok(attachments@)),
    {
        self.insert_canonical_with_attachments_ticket_transfer_and_propagation(
            projection,
            canonical,
            received_ticket,
            attachments,
            attachment_issue,
            transfer,
            None,
        )
    }

    /// Stores an inbound message in one transaction: the message with its
    /// fields, its canonical form, the ticket it carried when its signature
    /// verified, its attachments (or why they could not be read) with the
    /// completed inbound transfer, and — when it came by propagation — its
    /// link to the transient id `(transient_id, attempt_id, peer, now)`. A
    /// message stored already only gets its propagation link. True only for
    /// the first accepted delivery.
    pub fn insert_canonical_with_attachments_ticket_transfer_and_propagation(
        &mut self,
        projection: &MessageRecord,
        canonical: &CanonicalInboundRecord,
        received_ticket: Option<&LxmfTicketRecord>,
        attachments: &[AttachmentBlobInput],
        attachment_issue: Option<&str>,
        transfer: Option<InboundAttachmentTransferEvidence>,
        propagation: Option<([u8; 32], [u8; 16], [u8; 16], i64)>,
    ) -> (r: Result<bool, StoreError>)
        ensures
            r matches Ok(true) ==> (attachment_issue is Some || attachments_ok(attachments@)),
            r matches Ok(true) ==> (canonical.authentication_state@ == "verified"@ && received_ticket is Some
                ==> ticket_ok(*received_ticket->0)),
            r matches Ok(b) ==> final(self)@.len() > old(self)@.len() + 1 && inbound_insert(
                final(self)@[old(self)@.len() + 1int],
                *projection,
                b,
            ),
            r == Ok::<bool, StoreError>(true) && canonical.authentication_state@ == "verified"@ && received_ticket is Some
                ==> exists|i: int| old(self)@.len() <= i < final(self)@.len() && ticket_stored(#[trigger] final(self)@[i], *received_ticket->0),
            r is Ok ==> crate::store::succeeded_atomically(old(self)@, final(self)@),
            r is Err ==> crate::store::failed_cleanly(old(self)@, final(self)@),
    {
        self.begin()?;
        let done = self.insert_inbound_step(
            projection,
            canonical,
            received_ticket,
            attachments,
            attachment_issue,
            transfer,
            propagation,
        );
        let ghost stepped = self@;
        let out = self.finish(done);
        proof {
            if out == Ok::<bool, StoreError>(true) && canonical.authentication_state@ == "verified"@ && received_ticket is Some {
                let i = choose|i: int| old(self)@.len() < i < stepped.len() && ticket_stored(#[trigger] stepped[i], *received_ticket->0);
                assert(self@[i] == stepped[i]);
            }
        }
        out
    }

    fn insert_inbound_step(
        &mut self,
        projection: &MessageRecord,
        canonical: &CanonicalInboundRecord,
        received_ticket: Option<&LxmfTicketRecord>,
        attachments: &[AttachmentBlobInput],
        attachment_issue: Option<&str>,
        transfer: Option<InboundAttachmentTransferEvidence>,
        propagation: Option<([u8; 32], [u8; 16], [u8; 16], i64)>,
    ) -> (r: Result<bool, StoreError>)
        ensures
            r matches Ok(true) ==> (attachment_issue is Some || attachments_ok(attachments@)),
            r matches Ok(true) ==> (canonical.authentication_state@ == "verified"@ && received_ticket is Some
                ==> ticket_ok(*received_ticket->0)),
            r matches Ok(b) ==> final(self)@.len() > old(self)@.len() && inbound_insert(
                final(self)@[old(self)@.len() as int],
                *projection,
                b,
            ),
            r == Ok::<bool, StoreError>(true) && canonical.authentication_state@ == "verified"@ && received_ticket is Some
                ==> exists|i: int| old(self)@.len() <= i < final(self)@.len() && ticket_stored(#[trigger] final(self)@[i], *received_ticket->0),
    {
        let ghost at = self@.len();
        let insert_args = [
            text_arg(projection.id.as_str()),
            text_arg(projection.source.as_str()),
            text_arg(projection.destination.as_str()),
            text_arg(projection.title.as_str()),
            text_arg(projection.content.as_str()),
            int_arg(projection.timestamp),
            fields_arg(&projection.fields),
        ];
        assert(crate::sql::args_view(insert_args@) =~= inbound_message_args(*projection));
        let changed = self.exec(INSERT_INBOUND_MESSAGE_SQL, &insert_args)?;
        let ghost inserted = self@;
        if changed == 0 {
            match propagation {
                Some((transient_id, attempt_id, peer, now)) => {
                    self.link_inbound_in(projection.id.as_str(), &transient_id, &attempt_id, &peer, now)?;
                },
                None => {},
            }
            assert(self@[at as int] == inserted[at as int]);
            return Ok(false);
        }
        self.insert_canonical_children(canonical)?;
        let ghost mut ticket_at: int = 0;
        if str_eq(canonical.authentication_state.as_str(), "verified") {
            match received_ticket {
                Some(ticket) => {
                    validate_ticket(ticket)?;
                    let ticket_args = [
                        text_arg(ticket.peer.as_str()),
                        blob_arg(ticket.ticket.as_slice()),
                        int_arg(ticket.expires_at),
                    ];
                    assert(crate::sql::args_view(ticket_args@) =~= received_ticket_args(*ticket));
                    self.exec(STORE_RECEIVED_TICKET_SQL, &ticket_args)?;
                    proof {
                        ticket_at = self@.len() - 1;
                    }
                },
                None => {},
            }
        }
        let now = if projection.timestamp > 0 {
            projection.timestamp
        } else {
            0
        };
        match attachment_issue {
            Some(issue) => {
                self.record_attachment_issue(projection.id.as_str(), issue)?;
            },
            None => {
                self.stage_attachment_blobs(projection.id.as_str(), attachments, now)?;
                if attachments.len() > 0 {
                    self.record_inbound_transfer(projection.id.as_str(), canonical.wire.len(), transfer, now)?;
                }
            },
        }
        match propagation {
            Some((transient_id, attempt_id, peer, at)) => {
                self.link_inbound_in(projection.id.as_str(), &transient_id, &attempt_id, &peer, at)?;
            },
            None => {},
        }
        proof {
            if canonical.authentication_state@ == "verified"@ && received_ticket is Some {
                assert(ticket_stored(self@[ticket_at], *received_ticket->0));
            }
        }
        Ok(true)
    }

    /// Records the completed inbound transfer of a message's attachments.
    fn record_inbound_transfer(
        &mut self,
        message_id: &str,
        wire_len: usize,
        transfer: Option<InboundAttachmentTransferEvidence>,
        now: i64,
    ) -> (r: Result<(), StoreError>)
        ensures
            crate::store::extends(old(self)@, final(self)@),
    {
        let total = match transfer {
            Some(t) => u64_i64(t.total),
            None => len_i64(wire_len),
        };
        let transferred = match transfer {
            Some(t) => {
                let v = u64_i64(t.transferred);
                if v < total {
                    v
                } else {
                    total
                }
            },
            None => total,
        };
        proof {
            assert(total == inbound_transfer_total(wire_len as nat, transfer));
            assert(transferred == inbound_transferred(total, transfer));
        }
        let representation = if transfer.is_some() {
            "resource"
        } else if wire_len <= LINK_PACKET_MDU {
            "packet"
        } else {
            "resource"
        };
        let checksum_verified: i64 = match transfer {
            Some(t) => if t.checksum_verified {
                1
            } else {
                0
            },
            None => 1,
        };
        let hash_arg = match &transfer {
            Some(t) => blob_arg(&t.resource_hash),
            None => SqlArg::Null,
        };
        self.exec(
            "INSERT INTO attachment_transfers
             (message_id, transfer_id, resource_hash, representation, direction, state, transferred,
              total, checksum_verified, error, updated_at)
             VALUES (?1, ?1, ?2, ?3, 'inbound', 'completed', ?4, ?5, ?6, NULL, ?7)",
            &[
                text_arg(message_id),
                hash_arg,
                text_arg(representation),
                int_arg(transferred),
                int_arg(total),
                int_arg(checksum_verified),
                int_arg(now),
            ],
        )?;
        match transfer {
            Some(t) => {
                self.exec(
                    "UPDATE message_attachments SET resource_hash = ?2, transfer_id = ?1
                     WHERE message_id = ?1",
                    &[text_arg(message_id), blob_arg(&t.resource_hash)],
                )?;
            },
            None => {},
        }
        Ok(())
    }

    // ── Reading attachments ─────────────────────────────────────────────

    /// The attachments of a message by ordinal, with their blob state and
    /// transfer. A message whose attachments could not be read lists one
    /// unavailable entry that carries the reason.
    pub fn list_message_attachments(&mut self, message_id: &str) -> (r: Result<Vec<MessageAttachmentRecord>, StoreError>) {
        let rows = self.rows(
            "SELECT ma.message_id, ma.ordinal, ma.digest, ma.wire_name, b.byte_len,
                    ma.content_type, b.state, ma.source, COALESCE(ma.transfer_id, t.transfer_id),
                    COALESCE(ma.resource_hash, t.resource_hash),
                    t.representation, t.direction, t.state, COALESCE(t.transferred, 0),
                    COALESCE(t.total, b.byte_len), COALESCE(t.checksum_verified, 0), t.error
             FROM message_attachments ma
             JOIN attachment_blobs b ON b.digest = ma.digest
             LEFT JOIN attachment_transfers t ON t.message_id = ma.message_id
             WHERE ma.message_id = ?1 ORDER BY ma.ordinal",
            &[text_arg(message_id)],
        )?;
        let mut records: Vec<MessageAttachmentRecord> = Vec::new();
        let mut i: usize = 0;
        while i < rows.len()
            invariant
                i <= rows.len(),
            decreases rows.len() - i,
        {
            records.push(attachment_row(rows[i].as_slice())?);
            i = i + 1;
        }
        if records.len() == 0 {
            let issue = self.opt_text_query(
                "SELECT reason FROM attachment_issues WHERE message_id = ?1",
                &[text_arg(message_id)],
            )?;
            match issue {
                Some(reason) => {
                    records.push(issue_attachment(message_id, reason));
                },
                None => {},
            }
        }
        Ok(records)
    }

    /// How many attachment blobs are stored, and their bytes.
    pub fn attachment_blob_usage(&mut self) -> (r: Result<(u64, u64), StoreError>) {
        match self.first_row("SELECT COUNT(*), COALESCE(SUM(length(data)), 0) FROM attachment_blobs", &[])? {
            Some(row) => {
                let count = col_int(row.as_slice(), 0)?;
                let bytes = col_int(row.as_slice(), 1)?;
                Ok((nonneg_u64(count), nonneg_u64(bytes)))
            },
            None => Err(StoreError::QueryReturnedNoRows),
        }
    }

    /// A chunk of an attachment's bytes, from `offset`, at most `max_bytes`.
    /// A blob whose length or digest no longer matches its content is marked
    /// as failing integrity and yields nothing.
    pub fn query_attachment_chunk(
        &mut self,
        message_id: &str,
        ordinal: u8,
        offset: usize,
        max_bytes: usize,
    ) -> (r: Result<Option<AttachmentChunkRecord>, StoreError>)
        ensures
            !chunk_request_ok(ordinal, max_bytes) ==> (r matches Err(e) && e is InvalidParameter),
            !chunk_request_ok(ordinal, max_bytes) ==> final(self)@ == old(self)@,
            r matches Ok(Some(c)) ==> c.data@.len() <= max_bytes && c.next_offset == offset + c.data@.len(),
            r matches Ok(Some(c)) ==> chunk_of_some_blob(offset, max_bytes, c.data@, c.next_offset, c.done),
    {
        if ordinal > 7 || max_bytes == 0 || max_bytes > MAX_ATTACHMENT_CHUNK_BYTES {
            return Err(invalid("invalid attachment chunk range"));
        }
        self.begin_immediate()?;
        let read = self.chunk_step(message_id, ordinal, offset, max_bytes);
        let read = self.finish(read)?;
        match read {
            Some((data, end, done)) => {
                let attachments = self.list_message_attachments(message_id)?;
                let mut k: usize = 0;
                while k < attachments.len()
                    invariant
                        k <= attachments.len(),
                        chunk_request_ok(ordinal, max_bytes),
                        data@.len() <= max_bytes,
                        end == offset + data@.len(),
                        chunk_of_some_blob(offset, max_bytes, data@, end, done),
                    decreases attachments.len() - k,
                {
                    if attachments[k].ordinal == ordinal {
                        let attachment = attachments[k].clone();
                        return Ok(Some(AttachmentChunkRecord { attachment, data, next_offset: end, done }));
                    }
                    k = k + 1;
                }
                Err(StoreError::QueryReturnedNoRows)
            },
            None => Ok(None),
        }
    }

    fn chunk_step(&mut self, message_id: &str, ordinal: u8, offset: usize, max_bytes: usize) -> (r: Result<
        Option<(Vec<u8>, usize, bool)>,
        StoreError,
    >)
        ensures
            r matches Ok(Some((data, end, done))) ==> data@.len() <= max_bytes && end == offset + data@.len(),
            r matches Ok(Some((data, end, done))) ==> chunk_of_some_blob(offset, max_bytes, data@, end, done),
    {
        let row = match self.first_row(
            "SELECT b.digest, b.byte_len, b.data FROM message_attachments ma
             JOIN attachment_blobs b ON b.digest = ma.digest
             WHERE ma.message_id = ?1 AND ma.ordinal = ?2 AND b.state = 'verified'",
            &[text_arg(message_id), int_arg(ordinal as i64)],
        )? {
            Some(row) => row,
            None => return Ok(None),
        };
        let digest = col_blob(row.as_slice(), 0)?;
        let byte_len = col_int(row.as_slice(), 1)?;
        let bytes = col_blob(row.as_slice(), 2)?;
        match read_chunk(digest.as_slice(), byte_len, bytes.as_slice(), offset, max_bytes) {
            ChunkRead::Corrupt => {
                self.exec(
                    "UPDATE attachment_blobs SET state = 'integrity_failed', verified_at = NULL
                     WHERE digest = ?1",
                    &[blob_arg(digest.as_slice())],
                )?;
                Ok(None)
            },
            ChunkRead::OutOfRange => Err(invalid("attachment offset exceeds size")),
            ChunkRead::Bytes { data, end, done } => {
                let out = (data, end, done);
                assert(chunk_of(bytes@, offset, max_bytes, out.0@, out.1, out.2));
                assert(chunk_of_some_blob(offset, max_bytes, out.0@, out.1, out.2));
                Ok(Some(out))
            },
        }
    }

    /// Records progress of the transfer carrying the resource `resource_hash`
    /// while it is transferring; counts beyond `i64` saturate. True when a
    /// transfer was updated.
    pub fn update_attachment_transfer_progress(
        &mut self,
        resource_hash: &[u8; 32],
        transferred: u64,
        total: u64,
    ) -> (r: Result<bool, StoreError>)
        ensures
            u64_sat(transferred) > u64_sat(total) ==> (r matches Err(e) && e is InvalidParameter),
            u64_sat(transferred) > u64_sat(total) ==> final(self)@ == old(self)@,
    {
        let t = u64_i64(transferred);
        let n = u64_i64(total);
        if t > n {
            return Err(invalid("attachment transfer progress exceeds total"));
        }
        let changed = self.exec(
            "UPDATE attachment_transfers SET state = 'transferring', transferred = ?2,
                 total = ?3, updated_at = CAST(strftime('%s','now') AS INTEGER)
             WHERE resource_hash = ?1 AND state = 'transferring'",
            &[blob_arg(resource_hash), int_arg(t), int_arg(n)],
        )?;
        Ok(changed > 0)
    }

    // ── Canonical messages and their authentication ──────────────────────

    /// The canonical form of a message, if stored.
    pub fn canonical_inbound(&mut self, message_id: &str) -> (r: Result<Option<CanonicalInboundRecord>, StoreError>) {
        match self.first_row(canonical_sql(), &[text_arg(message_id)])? {
            Some(row) => Ok(Some(canonical_row(row.as_slice())?)),
            None => Ok(None),
        }
    }

    /// Canonical messages from `source` whose signer was unknown when they
    /// arrived, in arrival order, at most `min(limit, 1024)`.
    pub fn unknown_identity_messages(&mut self, source: &[u8; 16], limit: usize) -> (r: Result<
        Vec<CanonicalInboundRecord>,
        StoreError,
    >)
        ensures
            r matches Ok(v) ==> v@.len() <= limit && v@.len() <= 1024,
    {
        let lim: usize = if limit < 1024 {
            limit
        } else {
            1024
        };
        let rows = self.rows(
            "SELECT c.message_id, c.source, c.destination, c.title, c.content, c.timestamp,
                    c.fields_msgpack, c.signature, c.stamp, c.wire, c.authentication_state,
                    c.stamp_state, c.stamp_value, i.stamp_target
             FROM canonical_inbound_messages c
             LEFT JOIN canonical_inbound_inspection i ON i.message_id = c.message_id
             WHERE c.source = ?1 AND c.authentication_state = 'unknown_identity'
             ORDER BY c.rowid LIMIT ?2",
            &[blob_arg(source), int_arg(lim as i64)],
        )?;
        let mut out: Vec<CanonicalInboundRecord> = Vec::new();
        let mut i: usize = 0;
        while i < rows.len() && i < lim
            invariant
                i <= rows.len(),
                i <= lim,
                out@.len() == i,
            decreases rows.len() - i,
        {
            out.push(canonical_row(rows[i].as_slice())?);
            i = i + 1;
        }
        Ok(out)
    }

    /// Settles the authentication of a message whose signer was unknown:
    /// only to `verified` or `invalid`, and only once. True when it changed.
    pub fn update_authentication_state(&mut self, message_id: &str, state: &str) -> (r: Result<bool, StoreError>)
        ensures
            !(state@ == "verified"@ || state@ == "invalid"@) ==> r == Ok::<bool, StoreError>(false),
    {
        if !(str_eq(state, "verified") || str_eq(state, "invalid")) {
            return Ok(false);
        }
        let changed = self.exec(
            "UPDATE canonical_inbound_messages SET authentication_state = ?2
             WHERE message_id = ?1 AND authentication_state = 'unknown_identity'",
            &[text_arg(message_id), text_arg(state)],
        )?;
        Ok(changed > 0)
    }

    /// Settles the authentication of a message whose signer was unknown and,
    /// when it verified, keeps the ticket it carried. True when it changed.
    pub fn update_unknown_auth_with_verified_ticket(
        &mut self,
        message_id: &str,
        state: &str,
        ticket: Option<&LxmfTicketRecord>,
    ) -> (r: Result<bool, StoreError>)
        ensures
            !(state@ == "verified"@ || state@ == "invalid"@) ==> r == Ok::<bool, StoreError>(false),
            r matches Ok(true) ==> (state@ == "verified"@ && ticket is Some ==> ticket_ok(*ticket->0)),
            r is Ok ==> crate::store::succeeded_atomically(old(self)@, final(self)@),
            r is Err ==> crate::store::failed_cleanly(old(self)@, final(self)@),
    {
        if !(str_eq(state, "verified") || str_eq(state, "invalid")) {
            return Ok(false);
        }
        self.begin()?;
        let done = self.settle_auth_step(message_id, state, ticket);
        self.finish(done)
    }

    fn settle_auth_step(&mut self, message_id: &str, state: &str, ticket: Option<&LxmfTicketRecord>) -> (r: Result<
        bool,
        StoreError,
    >)
        ensures
            r matches Ok(true) ==> (state@ == "verified"@ && ticket is Some ==> ticket_ok(*ticket->0)),
    {
        let changed = self.exec(
            "UPDATE canonical_inbound_messages SET authentication_state = ?2
             WHERE message_id = ?1 AND authentication_state = 'unknown_identity'",
            &[text_arg(message_id), text_arg(state)],
        )?;
        if changed > 0 && str_eq(state, "verified") {
            match ticket {
                Some(t) => {
                    validate_ticket(t)?;
                    self.exec(
                        "INSERT INTO lxmf_tickets (peer, ticket, expires_at, direction)
                             VALUES (?1, ?2, ?3, 'received')
                             ON CONFLICT(peer, direction, ticket)
                             DO UPDATE SET expires_at = excluded.expires_at",
                        &[text_arg(t.peer.as_str()), blob_arg(t.ticket.as_slice()), int_arg(t.expires_at)],
                    )?;
                },
                None => {},
            }
        }
        Ok(changed > 0)
    }
}

/// What reading a chunk of a stored blob gives.
pub enum ChunkRead {
    /// The blob's length or digest does not match its content.
    Corrupt,
    /// The offset lies past the end of the blob.
    OutOfRange,
    /// The bytes from the offset up to `end`, and whether `end` is the blob's end.
    Bytes { data: Vec<u8>, end: usize, done: bool },
}

/// Whether `data`, `end` and `done` are the chunk of the intact blob content
/// `bytes` from `offset`, at most `max_bytes`: its bytes up to `end`, and
/// `done` exactly when they reach the blob's end.
pub open spec fn chunk_of(bytes: Seq<u8>, offset: usize, max_bytes: usize, data: Seq<u8>, end: usize, done: bool) -> bool {
    &&& offset <= bytes.len()
    &&& end == chunk_end(offset, max_bytes, bytes.len() as usize)
    &&& offset <= end <= bytes.len()
    &&& data == bytes.subrange(offset as int, end as int)
    &&& done == (end == bytes.len())
}

/// Whether `data`, `end` and `done` are the chunk, from `offset` and at most
/// `max_bytes`, of some intact blob content.
pub open spec fn chunk_of_some_blob(offset: usize, max_bytes: usize, data: Seq<u8>, end: usize, done: bool) -> bool {
    exists|bytes: Seq<u8>| #[trigger] chunk_of(bytes, offset, max_bytes, data, end, done)
}

/// Reads the chunk of a stored blob from `offset`, at most `max_bytes`: no
/// bytes at all from a blob whose stored length or digest does not match
/// its content.
pub fn read_chunk(digest: &[u8], byte_len: i64, bytes: &[u8], offset: usize, max_bytes: usize) -> (r: ChunkRead)
    ensures
        !blob_intact(digest@, byte_len, bytes@) <==> r is Corrupt,
        r is OutOfRange <==> (blob_intact(digest@, byte_len, bytes@) && offset > bytes@.len()),
        r matches ChunkRead::Bytes { data, end, done } ==> {
            &&& end == chunk_end(offset, max_bytes, bytes@.len() as usize)
            &&& offset <= end <= bytes@.len()
            &&& data@ == bytes@.subrange(offset as int, end as int)
            &&& done == (end == bytes@.len())
        },
{
    let actual = sha256_digest(bytes);
    if byte_len < 0 || byte_len as u64 != bytes.len() as u64 || !bytes_eq(digest, actual.as_slice()) {
        return ChunkRead::Corrupt;
    }
    if offset > bytes.len() {
        return ChunkRead::OutOfRange;
    }
    let end = if max_bytes > bytes.len() - offset {
        bytes.len()
    } else {
        offset + max_bytes
    };
    let mut data: Vec<u8> = Vec::new();
    let mut i: usize = offset;
    while i < end
        invariant
            offset <= i <= end,
            end <= bytes@.len(),
            data@ == bytes@.subrange(offset as int, i as int),
        decreases end - i,
    {
        data.push(bytes[i]);
        assert(bytes@.subrange(offset as int, i + 1) =~= bytes@.subrange(offset as int, i as int).push(
            bytes@[i as int],
        ));
        i = i + 1;
    }
    ChunkRead::Bytes { data, end, done: end == bytes.len() }
}

/// A count saturated to `i64`.
pub open spec fn u64_sat(n: u64) -> i64 {
    if n > i64::MAX {
        i64::MAX
    } else {
        n as i64
    }
}

/// The entry that stands for attachments that could not be read.
pub open spec fn issue_entry(message_id: Seq<char>, reason: Seq<char>, a: MessageAttachmentRecord) -> bool {
    &&& a.message_id@ == message_id
    &&& a.ordinal == 0
    &&& a.byte_len == 0
    &&& a.availability@ == "unavailable"@
    &&& a.integrity@ == "invalid"@
    &&& a.source@ == "issue"@
    &&& a.checksum_verified == false
    &&& a.transfer_error matches Some(e) && e@ == reason
}

/// The entry that stands for attachments that could not be read.
fn issue_attachment(message_id: &str, reason: String) -> (a: MessageAttachmentRecord)
    ensures
        issue_entry(message_id@, reason@, a),
{
    MessageAttachmentRecord {
        message_id: owned(message_id),
        ordinal: 0,
        digest: [0u8; 32],
        wire_name: owned("invalid attachment field"),
        byte_len: 0,
        content_type: None,
        availability: owned("unavailable"),
        integrity: owned("invalid"),
        source: owned("issue"),
        transfer_id: None,
        resource_hash: None,
        representation: None,
        direction: None,
        transfer_state: None,
        transferred: 0,
        total: 0,
        checksum_verified: false,
        transfer_error: Some(reason),
    }
}

/// The statement that stores an inbound message's projection, unless a
/// message with its id is already stored.
pub const INSERT_INBOUND_MESSAGE_SQL: &'static str = "INSERT OR IGNORE INTO messages
             (id, source, destination, title, content, timestamp, direction, fields,
              receipt_status, read)
             VALUES (?1, ?2, ?3, ?4, ?5, ?6, 'in', ?7, NULL, 0)";

/// The parameters with which an inbound projection is stored.
pub open spec fn inbound_message_args(p: MessageRecord) -> Seq<ArgView> {
    seq![
        ArgView::Text(p.id@),
        ArgView::Text(p.source@),
        ArgView::Text(p.destination@),
        ArgView::Text(p.title@),
        ArgView::Text(p.content@),
        ArgView::Int(p.timestamp),
        fields_view(p.fields),
    ]
}

/// Whether `call` stored the projection `p`, and `b` says that it added a
/// row: false exactly when a message with that id was already there.
pub open spec fn inbound_insert(call: SqlCall, p: MessageRecord, b: bool) -> bool {
    &&& call matches SqlCall::Execute(q, a, Some(n))
    &&& q == INSERT_INBOUND_MESSAGE_SQL@
    &&& a == inbound_message_args(p)
    &&& (b <==> n != 0)
}

/// The statement that keeps a ticket received with a verified message.
pub const STORE_RECEIVED_TICKET_SQL: &'static str = "INSERT INTO lxmf_tickets (peer, ticket, expires_at, direction)
                             VALUES (?1, ?2, ?3, 'received')
                             ON CONFLICT(peer, direction, ticket)
                             DO UPDATE SET expires_at = excluded.expires_at";

/// The parameters with which a received ticket is kept.
pub open spec fn received_ticket_args(t: LxmfTicketRecord) -> Seq<ArgView> {
    seq![ArgView::Text(t.peer@), ArgView::Blob(t.ticket@), ArgView::Int(t.expires_at)]
}

/// Whether `call` kept the received ticket `t`, and did so without error.
pub open spec fn ticket_stored(call: SqlCall, t: LxmfTicketRecord) -> bool {
    &&& call matches SqlCall::Execute(q, a, Some(_))
    &&& q == STORE_RECEIVED_TICKET_SQL@
    &&& a == received_ticket_args(t)
}

} // verus!
