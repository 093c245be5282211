//! Standard LXMF propagation: the records of the store-and-forward queue and
//! the decisions that offers, transfers and downloads take.
use vstd::prelude::*;
use crate::outside::{sha256, sha256_digest};

verus! {

pub const TOMBSTONE_RETENTION_SECS: i64 = 180 * 24 * 60 * 60;
pub const FAILURE_RETENTION_SECS: i64 = 30 * 24 * 60 * 60;
pub const ATTEMPT_RETENTION_SECS: i64 = 30 * 24 * 60 * 60;
pub const MAX_FAILURES: usize = 4096;
pub const MAX_ATTEMPTS: usize = 4096;
pub const MAX_FAILURE_DETAIL: usize = 256;
pub const MAX_FAILURE_CODE: usize = 64;
pub const MAX_BATCH_ITEMS: usize = 1024;
/// Bytes a download response spends before any payload.
pub const GET_RESPONSE_OVERHEAD: usize = 24;
/// Bytes a download response spends per payload beyond its stored size.
pub const GET_ITEM_OVERHEAD: usize = 16;
pub const STANDARD_PROPAGATION_OBSERVATION_PEER_LIMIT: usize = 128;
pub const STANDARD_PROPAGATION_OBSERVATION_ATTEMPT_LIMIT: usize = 256;
pub const STANDARD_PROPAGATION_OBSERVATION_CHECKPOINT_LIMIT: usize = 128;
pub const STANDARD_PROPAGATION_OBSERVATION_FAILURE_LIMIT: usize = 128;

#[derive(Clone, Copy, Debug, PartialEq, Eq, Structural)]
pub struct StandardPropagationPolicy {
    pub queue_max_count: usize,
    pub queue_max_bytes: usize,
    pub expiry_secs: i64,
}

#[derive(Clone, Copy, Debug, PartialEq, Eq, Structural)]
pub struct StandardPropagationStats {
    pub queued_count: usize,
    pub stored_bytes: usize,
}

/// One propagated message in the queue: its transient id (the SHA-256 of
/// its data), destination, encrypted data and proof-of-work stamp.
#[derive(Clone, PartialEq, Eq)]
pub struct StandardPropagationItem {
    pub transient_id: [u8; 32],
    pub destination: [u8; 16],
    pub lxmf_data: Vec<u8>,
    pub stamp: [u8; 32],
    pub stamp_value: u32,
    pub received_at: i64,
    pub expires_at: i64,
    pub stored_size: usize,
}

#[derive(Clone, Copy, Debug, PartialEq, Eq, Structural)]
pub enum StandardPropagationIngestOutcome {
    Accepted,
    CapacityRejected,
}

#[derive(Clone, Copy, Debug, PartialEq, Eq)]
pub enum StandardPropagationAttemptStatus {
    Untracked,
    Partial([u8; 16]),
    Complete([u8; 16]),
}

impl StandardPropagationAttemptStatus {
    /// The attempt a tracked status belongs to.
    pub fn attempt_id(self) -> (r: Option<[u8; 16]>)
        ensures
            r == match self {
                StandardPropagationAttemptStatus::Untracked => None,
                StandardPropagationAttemptStatus::Partial(id) => Some(id),
                StandardPropagationAttemptStatus::Complete(id) => Some(id),
            },
    {
        match self {
            StandardPropagationAttemptStatus::Untracked => None,
            StandardPropagationAttemptStatus::Partial(attempt_id) => Some(attempt_id),
            StandardPropagationAttemptStatus::Complete(attempt_id) => Some(attempt_id),
        }
    }
}

#[derive(Clone, Copy, Debug, PartialEq, Eq, Structural)]
pub enum StandardPropagationProtocolStatus {
    Valid,
    Invalid,
}

pub struct StandardPropagationIngestRequest<'a> {
    pub items: &'a [StandardPropagationItem],
    pub source_peer: Option<[u8; 16]>,
    pub attempt: StandardPropagationAttemptStatus,
    pub protocol: StandardPropagationProtocolStatus,
    pub now: i64,
    pub policy: StandardPropagationPolicy,
}

#[derive(Clone, Debug, PartialEq, Eq)]
pub struct StandardPropagationOfferComparison {
    pub wanted: Vec<[u8; 32]>,
    pub attempt_id: [u8; 16],
    pub capacity_rejected: bool,
}

/// An offer of transient ids from a peer. `same_link_pending` holds ids this
/// link already asked for, `pending_elsewhere` ids other links are fetching.
pub struct StandardPropagationOfferRequest<'a> {
    pub peer: [u8; 16],
    pub offered: &'a [[u8; 32]],
    pub same_link_pending: &'a [[u8; 32]],
    pub pending_elsewhere: &'a [[u8; 32]],
    pub pending_count: usize,
    pub existing_attempt: Option<[u8; 16]>,
    pub request_id: [u8; 16],
    pub link_id: [u8; 16],
    pub now: i64,
    pub deadline: i64,
    pub policy: StandardPropagationPolicy,
}

#[derive(Clone, PartialEq, Eq)]
pub struct StandardPropagationGetResult {
    pub inventory: Option<Vec<[u8; 32]>>,
    pub payloads: Vec<Vec<u8>>,
    pub attempt_id: [u8; 16],
}

pub struct StandardPropagationGetRequest<'a> {
    pub peer: [u8; 16],
    pub request_id: [u8; 16],
    pub recipient: [u8; 16],
    pub wants: Option<&'a [[u8; 32]]>,
    pub haves: Option<&'a [[u8; 32]]>,
    pub inventory: bool,
    pub response_limit: usize,
    pub now: i64,
    pub policy: StandardPropagationPolicy,
}

#[derive(Clone, Copy, Debug, PartialEq, Eq, Structural)]
pub enum StandardPropagationGetOperation {
    Fetch,
    Download,
    Sync,
}

/// The name under which an operation is recorded.
pub open spec fn operation_name(op: StandardPropagationGetOperation) -> Seq<char> {
    match op {
        StandardPropagationGetOperation::Fetch => "fetch"@,
        StandardPropagationGetOperation::Download => "download"@,
        StandardPropagationGetOperation::Sync => "sync"@,
    }
}

impl StandardPropagationGetOperation {
    /// The recorded name of the operation.
    pub fn as_str(self) -> (r: &'static str)
        ensures
            r@ == operation_name(self),
    {
        match self {
            StandardPropagationGetOperation::Fetch => "fetch",
            StandardPropagationGetOperation::Download => "download",
            StandardPropagationGetOperation::Sync => "sync",
        }
    }
}

/// The operation a download request performs: an inventory fetch, a sync
/// (which acknowledges `haves`), or a plain download.
pub open spec fn get_operation_of(inventory: bool, has_haves: bool) -> StandardPropagationGetOperation {
    if inventory {
        StandardPropagationGetOperation::Fetch
    } else if has_haves {
        StandardPropagationGetOperation::Sync
    } else {
        StandardPropagationGetOperation::Download
    }
}

/// `get_operation_of` computed.
pub fn get_operation(inventory: bool, has_haves: bool) -> (r: StandardPropagationGetOperation)
    ensures
        r == get_operation_of(inventory, has_haves),
{
    if inventory {
        StandardPropagationGetOperation::Fetch
    } else if has_haves {
        StandardPropagationGetOperation::Sync
    } else {
        StandardPropagationGetOperation::Download
    }
}

#[derive(Clone, Debug, PartialEq, Eq)]
pub struct StandardPropagationSelection {
    pub peer: Option<[u8; 16]>,
    pub mode: String,
    pub selected_at: i64,
}

#[derive(Clone, Debug, PartialEq, Eq)]
pub struct StandardPropagationPeer {
    pub identity_hash: [u8; 16],
    pub propagation_destination: Option<[u8; 16]>,
    pub configured: bool,
    pub enabled: bool,
    pub transfer_limit_kb: Option<usize>,
    pub sync_limit_kb: Option<usize>,
    pub stamp_cost: Option<u32>,
    pub stamp_flexibility: Option<u32>,
    pub peering_cost: Option<u32>,
    pub observed_at: i64,
}

#[derive(Clone, Debug, PartialEq, Eq)]
pub struct StandardPropagationCheckpoint {
    pub peer: [u8; 16],
    pub direction: String,
    pub completed_stage: String,
    pub cursor: Option<Vec<u8>>,
    pub digest: Option<[u8; 32]>,
    pub item_count: usize,
    pub byte_count: usize,
    pub last_attempt: Option<[u8; 16]>,
    pub updated_at: i64,
}

#[derive(Clone, Debug, PartialEq, Eq)]
pub struct StandardPropagationFailure {
    pub code: String,
    pub detail: Option<String>,
    pub occurred_at: i64,
    pub peer: Option<[u8; 16]>,
    pub transient_id: Option<[u8; 32]>,
    pub attempt_id: Option<[u8; 16]>,
}

#[derive(Clone, Debug, PartialEq, Eq)]
pub struct StandardPropagationMessageLink {
    pub message_id: String,
    pub transient_id: [u8; 32],
    pub relation: String,
    pub attempt_id: Option<[u8; 16]>,
    pub peer: Option<[u8; 16]>,
    pub state: String,
    pub created_at: i64,
    pub updated_at: i64,
}

/// An outbound message handed to a propagation node, from preparation to
/// acceptance.
#[derive(Clone, PartialEq, Eq)]
pub struct StandardPropagationClientJob {
    pub message_id: String,
    pub transient_id: Option<[u8; 32]>,
    pub destination: [u8; 16],
    pub canonical_wire: Option<Vec<u8>>,
    pub lxmf_data: Option<Vec<u8>>,
    pub stamp: Option<[u8; 32]>,
    pub peer: [u8; 16],
    pub propagation_destination: [u8; 16],
    pub stamp_cost: u32,
    pub peering_cost: u32,
    pub correlation_id: [u8; 16],
    pub attempt_id: [u8; 16],
    pub state: String,
    pub created_at: i64,
    pub updated_at: i64,
}

#[derive(Clone, Debug, PartialEq, Eq)]
pub struct StandardPropagationQueueObservation {
    pub queued_count: usize,
    pub queued_bytes: usize,
    pub acknowledged_count: usize,
    pub expired_count: usize,
}

#[derive(Clone, Debug, PartialEq, Eq)]
pub struct StandardPropagationPeerObservation {
    pub identity_hash: [u8; 16],
    pub propagation_destination: Option<[u8; 16]>,
    pub configured: bool,
    pub enabled: bool,
    pub transfer_limit_kb: Option<usize>,
    pub sync_limit_kb: Option<usize>,
    pub stamp_cost: Option<u32>,
    pub stamp_flexibility: Option<u32>,
    pub peering_cost: Option<u32>,
    pub first_seen_at: i64,
    pub last_seen_at: i64,
    pub retry_at: Option<i64>,
    pub backoff_count: usize,
    pub offered_count: usize,
    pub wanted_count: usize,
    pub accepted_count: usize,
    pub accepted_bytes: usize,
    pub failure_count: usize,
}

#[derive(Clone, Debug, PartialEq, Eq)]
pub struct StandardPropagationAttemptObservation {
    pub attempt_id: [u8; 16],
    pub correlation_id: [u8; 16],
    pub peer: Option<[u8; 16]>,
    pub direction: String,
    pub stage: String,
    pub state: String,
    pub started_at: i64,
    pub updated_at: i64,
    pub deadline_at: Option<i64>,
    pub offered_count: usize,
    pub wanted_count: usize,
    pub accepted_count: usize,
    pub accepted_bytes: usize,
    pub failure_code: Option<String>,
}

#[derive(Clone, Debug, PartialEq, Eq)]
pub struct StandardPropagationCheckpointObservation {
    pub peer: [u8; 16],
    pub direction: String,
    pub completed_stage: String,
    pub item_count: usize,
    pub byte_count: usize,
    pub last_attempt: Option<[u8; 16]>,
    pub updated_at: i64,
}

#[derive(Clone, Debug, PartialEq, Eq)]
pub struct StandardPropagationFailureObservation {
    pub code: String,
    pub occurred_at: i64,
    pub peer: Option<[u8; 16]>,
    pub attempt_id: Option<[u8; 16]>,
}

#[derive(Clone, Debug, PartialEq, Eq)]
pub struct StandardPropagationObservation {
    pub observed_at: i64,
    pub queue: StandardPropagationQueueObservation,
    pub selection: Option<StandardPropagationSelection>,
    pub peers: Vec<StandardPropagationPeerObservation>,
    pub attempts: Vec<StandardPropagationAttemptObservation>,
    pub checkpoints: Vec<StandardPropagationCheckpointObservation>,
    pub failures: Vec<StandardPropagationFailureObservation>,
    pub peers_truncated: bool,
    pub attempts_truncated: bool,
    pub checkpoints_truncated: bool,
    pub failures_truncated: bool,
}

// ── Identifiers ─────────────────────────────────────────────────────────

/// Equality of two transient ids.
pub fn id_eq(a: &[u8; 32], b: &[u8; 32]) -> (r: bool)
    ensures
        r == (a@ == b@),
{
    let mut i: usize = 0;
    while i < 32
        invariant
            i <= 32,
            a@.len() == 32,
            b@.len() == 32,
            forall|j: int| 0 <= j < i ==> a@[j] == b@[j],
        decreases 32 - i,
    {
        if a[i] != b[i] {
            return false;
        }
        i = i + 1;
    }
    assert(a@ =~= b@);
    true
}

/// Whether `ids` holds `id`.
pub open spec fn has_id(ids: Seq<[u8; 32]>, id: [u8; 32]) -> bool {
    exists|j: int| 0 <= j < ids.len() && (#[trigger] ids[j])@ == id@
}

/// `has_id` computed.
pub fn contains_id(ids: &[[u8; 32]], id: &[u8; 32]) -> (r: bool)
    ensures
        r == has_id(ids@, *id),
{
    let mut i: usize = 0;
    while i < ids.len()
        invariant
            i <= ids.len(),
            forall|j: int| 0 <= j < i ==> (#[trigger] ids@[j])@ != id@,
        decreases ids.len() - i,
    {
        if id_eq(&ids[i], id) {
            return true;
        }
        i = i + 1;
    }
    false
}

/// The first sixteen bytes of `d`.
pub fn prefix16(d: &[u8; 32]) -> (r: [u8; 16])
    ensures
        r@ == d@.subrange(0, 16),
{
    let mut out = [0u8; 16];
    let mut i: usize = 0;
    while i < 16
        invariant
            i <= 16,
            d@.len() == 32,
            forall|j: int| 0 <= j < i ==> out@[j] == d@[j],
        decreases 16 - i,
    {
        out[i] = d[i];
        i = i + 1;
    }
    assert(out@ =~= d@.subrange(0, 16));
    out
}

/// The concatenation of `parts`.
pub open spec fn concat_ids(ids: Seq<[u8; 32]>) -> Seq<u8>
    decreases ids.len(),
{
    if ids.len() == 0 {
        Seq::empty()
    } else {
        concat_ids(ids.drop_last()) + ids.last()@
    }
}

fn extend_bytes(out: &mut Vec<u8>, more: &[u8])
    ensures
        final(out)@ == old(out)@ + more@,
{
    let mut i: usize = 0;
    let ghost start = out@;
    while i < more.len()
        invariant
            i <= more.len(),
            out@ == start + more@.subrange(0, i as int),
        decreases more.len() - i,
    {
        out.push(more[i]);
        proof {
            assert(more@.subrange(0, i + 1) =~= more@.subrange(0, i as int).push(more@[i as int]));
        }
        i = i + 1;
    }
    assert(more@.subrange(0, more@.len() as int) =~= more@);
}

fn extend_ids(out: &mut Vec<u8>, ids: &[[u8; 32]])
    ensures
        final(out)@ == old(out)@ + concat_ids(ids@),
{
    let mut i: usize = 0;
    let ghost start = out@;
    while i < ids.len()
        invariant
            i <= ids.len(),
            out@ == start + concat_ids(ids@.subrange(0, i as int)),
        decreases ids.len() - i,
    {
        extend_bytes(out, &ids[i]);
        proof {
            let p = ids@.subrange(0, i + 1);
            assert(p.drop_last() =~= ids@.subrange(0, i as int));
            assert(out@ =~= start + concat_ids(p));
        }
        i = i + 1;
    }
    assert(ids@.subrange(0, ids@.len() as int) =~= ids@);
}

/// The attempt id an offer gets unless it continues an existing attempt: the
/// first sixteen bytes of the SHA-256 of request id, link id, peer and the
/// offered ids, in that order.
pub open spec fn offer_attempt_id(
    request_id: [u8; 16],
    link_id: [u8; 16],
    peer: [u8; 16],
    offered: Seq<[u8; 32]>,
) -> Seq<u8> {
    sha256(request_id@ + link_id@ + peer@ + concat_ids(offered)).subrange(0, 16)
}

/// `offer_attempt_id` computed.
pub fn generated_offer_attempt(
    request_id: &[u8; 16],
    link_id: &[u8; 16],
    peer: &[u8; 16],
    offered: &[[u8; 32]],
) -> (r: [u8; 16])
    ensures
        r@ == offer_attempt_id(*request_id, *link_id, *peer, offered@),
{
    let mut material: Vec<u8> = Vec::new();
    extend_bytes(&mut material, request_id);
    extend_bytes(&mut material, link_id);
    extend_bytes(&mut material, peer);
    extend_ids(&mut material, offered);
    assert(material@ =~= request_id@ + link_id@ + peer@ + concat_ids(offered@));
    let digest = sha256_digest(material.as_slice());
    prefix16(&digest)
}

/// The attempt id of a download request: the first sixteen bytes of the
/// SHA-256 of request id, peer, the operation name and the ids involved.
pub open spec fn get_attempt_id(
    request_id: [u8; 16],
    peer: [u8; 16],
    op_name: Seq<u8>,
    ids: Seq<[u8; 32]>,
) -> Seq<u8> {
    sha256(request_id@ + peer@ + op_name + concat_ids(ids)).subrange(0, 16)
}

/// `get_attempt_id` computed; `op_name` is the ASCII name of the operation.
pub fn generated_get_attempt(
    request_id: &[u8; 16],
    peer: &[u8; 16],
    op_name: &[u8],
    ids: &[[u8; 32]],
) -> (r: [u8; 16])
    ensures
        r@ == get_attempt_id(*request_id, *peer, op_name@, ids@),
{
    let mut material: Vec<u8> = Vec::new();
    extend_bytes(&mut material, request_id);
    extend_bytes(&mut material, peer);
    extend_bytes(&mut material, op_name);
    extend_ids(&mut material, ids);
    assert(material@ =~= request_id@ + peer@ + op_name@ + concat_ids(ids@));
    let digest = sha256_digest(material.as_slice());
    prefix16(&digest)
}

// ── Offers ──────────────────────────────────────────────────────────────

/// Whether offered id `i` is worth requesting: not stored already and not
/// being fetched by another link.
pub open spec fn offer_candidate(
    offered: Seq<[u8; 32]>,
    stored: Seq<bool>,
    elsewhere: Seq<[u8; 32]>,
    i: int,
) -> bool {
    !stored[i] && !has_id(elsewhere, offered[i])
}

/// The offered ids among the first `n`, in order, that are candidates and
/// are (`pending`) or are not (`!pending`) already pending on this link.
pub open spec fn offer_pick(
    offered: Seq<[u8; 32]>,
    stored: Seq<bool>,
    same: Seq<[u8; 32]>,
    elsewhere: Seq<[u8; 32]>,
    pending: bool,
    n: int,
) -> Seq<[u8; 32]>
    decreases n,
{
    if n <= 0 {
        Seq::empty()
    } else {
        let prev = offer_pick(offered, stored, same, elsewhere, pending, n - 1);
        if offer_candidate(offered, stored, elsewhere, n - 1) && has_id(same, offered[n - 1])
            == pending {
            prev.push(offered[n - 1])
        } else {
            prev
        }
    }
}

/// Splits the offered ids into those this link already asked for and those
/// it does not know; `stored[i]` tells whether `offered[i]` is in the queue.
pub fn classify_offer(
    offered: &[[u8; 32]],
    stored: &[bool],
    same_link_pending: &[[u8; 32]],
    pending_elsewhere: &[[u8; 32]],
) -> (r: (Vec<[u8; 32]>, Vec<[u8; 32]>))
    requires
        stored.len() == offered.len(),
    ensures
        r.0@ == offer_pick(offered@, stored@, same_link_pending@, pending_elsewhere@, true, offered@.len() as int),
        r.1@ == offer_pick(offered@, stored@, same_link_pending@, pending_elsewhere@, false, offered@.len() as int),
{
    let mut wanted: Vec<[u8; 32]> = Vec::new();
    let mut unknown: Vec<[u8; 32]> = Vec::new();
    let mut i: usize = 0;
    while i < offered.len()
        invariant
            stored.len() == offered.len(),
            i <= offered.len(),
            wanted@ == offer_pick(offered@, stored@, same_link_pending@, pending_elsewhere@, true, i as int),
            unknown@ == offer_pick(offered@, stored@, same_link_pending@, pending_elsewhere@, false, i as int),
        decreases offered.len() - i,
    {
        let id = offered[i];
        if !stored[i] && !contains_id(pending_elsewhere, &id) {
            if contains_id(same_link_pending, &id) {
                wanted.push(id);
            } else {
                unknown.push(id);
            }
        }
        i = i + 1;
    }
    (wanted, unknown)
}

/// Room left in the queue for an offer: the count limit less what is queued
/// and what is pending, floored at zero.
pub open spec fn offer_room(policy: StandardPropagationPolicy, queued: usize, pending: usize) -> int {
    let used = if queued + pending > usize::MAX { usize::MAX as int } else { queued + pending };
    if used >= policy.queue_max_count { 0 } else { policy.queue_max_count - used }
}

/// `offer_room` computed.
pub fn offer_available(policy: StandardPropagationPolicy, queued: usize, pending: usize) -> (r: usize)
    ensures
        r == offer_room(policy, queued, pending),
{
    policy.queue_max_count.saturating_sub(queued.saturating_add(pending))
}

/// Whether an offer is refused for capacity: it carries unknown ids while the
/// queue has no room or holds its byte limit already.
pub open spec fn offer_rejected(
    unknown_count: nat,
    available: nat,
    stored_bytes: usize,
    policy: StandardPropagationPolicy,
) -> bool {
    unknown_count > 0 && (available == 0 || stored_bytes >= policy.queue_max_bytes)
}

/// The first `n` ids of `v`, or all of them.
pub fn take_ids(v: &Vec<[u8; 32]>, n: usize) -> (r: Vec<[u8; 32]>)
    ensures
        r@ == if n >= v@.len() { v@ } else { v@.subrange(0, n as int) },
{
    let end = if n < v.len() { n } else { v.len() };
    let mut out: Vec<[u8; 32]> = Vec::new();
    let mut i: usize = 0;
    while i < end
        invariant
            end <= v.len(),
            i <= end,
            out@ == v@.subrange(0, i as int),
        decreases end - i,
    {
        out.push(v[i]);
        proof {
            assert(v@.subrange(0, i + 1) =~= v@.subrange(0, i as int).push(v@[i as int]));
        }
        i = i + 1;
    }
    if end == v.len() {
        assert(v@.subrange(0, end as int) =~= v@);
    }
    out
}

/// Whether `ids` holds no id twice.
pub open spec fn distinct_ids(ids: Seq<[u8; 32]>) -> bool {
    forall|a: int, b: int| 0 <= a < b < ids.len() ==> (#[trigger] ids[a])@ != (#[trigger] ids[b])@
}

/// Membership after appending one id.
pub proof fn lemma_has_id_push(s: Seq<[u8; 32]>, id: [u8; 32])
    ensures
        forall|x: [u8; 32]| has_id(s.push(id), x) <==> (has_id(s, x) || x@ == id@),
{
    let t = s.push(id);
    assert forall|x: [u8; 32]| has_id(t, x) <==> (has_id(s, x) || x@ == id@) by {
        if has_id(t, x) {
            let j = choose|j: int| 0 <= j < t.len() && (#[trigger] t[j])@ == x@;
            if j < s.len() {
                assert(s[j] == t[j]);
            }
        }
        if has_id(s, x) {
            let j = choose|j: int| 0 <= j < s.len() && (#[trigger] s[j])@ == x@;
            assert(t[j] == s[j]);
        }
        if x@ == id@ {
            assert(t[s.len() as int] == id);
        }
    }
}

/// Appends `id` unless `out` holds it already.
fn push_if_absent(out: &mut Vec<[u8; 32]>, id: [u8; 32])
    requires
        distinct_ids(old(out)@),
    ensures
        distinct_ids(final(out)@),
        forall|x: [u8; 32]| has_id(final(out)@, x) <==> (has_id(old(out)@, x) || x@ == id@),
{
    if !contains_id(out.as_slice(), &id) {
        let ghost before = out@;
        out.push(id);
        proof {
            lemma_has_id_push(before, id);
            assert forall|p: int, q: int| 0 <= p < q < out@.len() implies (#[trigger] out@[p])@ != (#[trigger] out@[q])@ by {
                if q == before.len() {
                    assert(out@[p] == before[p]);
                    assert(out@[q] == id);
                } else {
                    assert(out@[p] == before[p] && out@[q] == before[q]);
                }
            }
        }
    } else {
        proof {
            assert forall|x: [u8; 32]| has_id(out@, x) <==> (has_id(out@, x) || x@ == id@) by {
                if x@ == id@ {
                    let j = choose|j: int| 0 <= j < out@.len() && (#[trigger] out@[j])@ == id@;
                    assert(out@[j]@ == x@);
                }
            }
        }
    }
}

/// The ids of `a` and then of `b`, each once.
pub fn union_ids(a: &[[u8; 32]], b: &[[u8; 32]]) -> (r: Vec<[u8; 32]>)
    ensures
        distinct_ids(r@),
        forall|id: [u8; 32]| has_id(r@, id) <==> (has_id(a@, id) || has_id(b@, id)),
{
    let mut out: Vec<[u8; 32]> = Vec::new();
    let mut i: usize = 0;
    while i < a.len()
        invariant
            i <= a.len(),
            distinct_ids(out@),
            forall|id: [u8; 32]| has_id(out@, id) <==> has_id(a@.subrange(0, i as int), id),
        decreases a.len() - i,
    {
        let id = a[i];
        proof {
            assert(a@.subrange(0, i + 1) =~= a@.subrange(0, i as int).push(id));
            lemma_has_id_push(a@.subrange(0, i as int), id);
        }
        push_if_absent(&mut out, id);
        i = i + 1;
    }
    assert(a@.subrange(0, a@.len() as int) =~= a@);
    let mut k: usize = 0;
    while k < b.len()
        invariant
            k <= b.len(),
            distinct_ids(out@),
            forall|id: [u8; 32]| has_id(out@, id) <==> (has_id(a@, id) || has_id(b@.subrange(0, k as int), id)),
        decreases b.len() - k,
    {
        let id = b[k];
        proof {
            assert(b@.subrange(0, k + 1) =~= b@.subrange(0, k as int).push(id));
            lemma_has_id_push(b@.subrange(0, k as int), id);
        }
        push_if_absent(&mut out, id);
        k = k + 1;
    }
    assert(b@.subrange(0, b@.len() as int) =~= b@);
    out
}

// ── Ingest ──────────────────────────────────────────────────────────────

/// `a + b` saturating at `usize::MAX`.
pub open spec fn sat_add(a: usize, b: usize) -> usize {
    if a + b > usize::MAX { usize::MAX } else { (a + b) as usize }
}

/// Whether a propagated item is well formed: its times are ordered, its
/// stored size is its data plus stamp, its data starts with its destination,
/// and its transient id is the SHA-256 of its data.
pub open spec fn item_valid(item: StandardPropagationItem) -> bool {
    &&& item.received_at >= 0
    &&& item.expires_at >= item.received_at
    &&& item.stored_size == sat_add(item.lxmf_data@.len() as usize, 32)
    &&& item.lxmf_data@.len() >= 16
    &&& item.lxmf_data@.subrange(0, 16) == item.destination@
    &&& sha256(item.lxmf_data@) == item.transient_id@
}

/// `item_valid` computed.
pub fn check_item(item: &StandardPropagationItem) -> (r: bool)
    ensures
        r == item_valid(*item),
{
    if item.received_at < 0 || item.expires_at < item.received_at {
        return false;
    }
    if item.stored_size != item.lxmf_data.len().saturating_add(32) {
        return false;
    }
    if item.lxmf_data.len() < 16 {
        return false;
    }
    let mut i: usize = 0;
    while i < 16
        invariant
            i <= 16,
            item.lxmf_data@.len() >= 16,
            item.destination@.len() == 16,
            forall|j: int| 0 <= j < i ==> item.lxmf_data@[j] == item.destination@[j],
        decreases 16 - i,
    {
        if item.lxmf_data[i] != item.destination[i] {
            return false;
        }
        i = i + 1;
    }
    assert(item.lxmf_data@.subrange(0, 16) =~= item.destination@);
    let digest = sha256_digest(item.lxmf_data.as_slice());
    id_eq(&digest, &item.transient_id)
}

/// Whether accepting `new_count` items of `new_bytes` into a queue holding
/// `stats` would break the policy's count or byte limit.
pub open spec fn ingest_over_capacity(
    stats: StandardPropagationStats,
    new_count: usize,
    new_bytes: usize,
    policy: StandardPropagationPolicy,
) -> bool {
    sat_add(stats.queued_count, new_count) > policy.queue_max_count || sat_add(
        stats.stored_bytes,
        new_bytes,
    ) > policy.queue_max_bytes
}

/// `ingest_over_capacity` computed.
pub fn ingest_exceeds_capacity(
    stats: StandardPropagationStats,
    new_count: usize,
    new_bytes: usize,
    policy: StandardPropagationPolicy,
) -> (r: bool)
    ensures
        r == ingest_over_capacity(stats, new_count, new_bytes, policy),
{
    stats.queued_count.saturating_add(new_count) > policy.queue_max_count
        || stats.stored_bytes.saturating_add(new_bytes) > policy.queue_max_bytes
}

/// Whether the request shape of an ingest is acceptable before any item is
/// read: one to the maximum items, a source peer for tracked attempts, and
/// a valid protocol for a completing attempt.
pub open spec fn ingest_request_ok(
    item_count: nat,
    source_peer: Option<[u8; 16]>,
    attempt: StandardPropagationAttemptStatus,
    protocol: StandardPropagationProtocolStatus,
) -> bool {
    &&& 1 <= item_count <= MAX_BATCH_ITEMS
    &&& (!(attempt is Untracked) ==> source_peer is Some)
    &&& (attempt is Complete ==> protocol == StandardPropagationProtocolStatus::Valid)
}

// ── Downloads ───────────────────────────────────────────────────────────

/// Whether `wants[i]` already occurs before position `i`.
pub open spec fn repeated_before(wants: Seq<[u8; 32]>, i: int) -> bool {
    exists|j: int| 0 <= j < i && (#[trigger] wants[j])@ == wants[i]@
}

/// The response bytes one queued item of stored size `size` costs.
pub open spec fn get_item_cost(size: usize) -> usize {
    sat_add(size, GET_ITEM_OVERHEAD)
}

/// Whether want `i` is taken when `before` bytes are spent already: it is not
/// a repeat, its item is queued for the recipient (`sizes[i]` is its stored
/// size), and its cost still fits within `limit`.
pub open spec fn get_take_at(wants: Seq<[u8; 32]>, sizes: Seq<Option<usize>>, limit: usize, before: usize, i: int) -> bool {
    &&& !repeated_before(wants, i)
    &&& sizes[i] matches Some(size)
    &&& sat_add(before, get_item_cost(size)) <= limit
}

/// Response bytes spent once the first `n` wants were considered.
pub open spec fn get_spent(wants: Seq<[u8; 32]>, sizes: Seq<Option<usize>>, limit: usize, n: int) -> usize
    decreases n,
{
    if n <= 0 {
        GET_RESPONSE_OVERHEAD
    } else {
        let before = get_spent(wants, sizes, limit, n - 1);
        if get_take_at(wants, sizes, limit, before, n - 1) {
            sat_add(before, get_item_cost(sizes[n - 1]->0))
        } else {
            before
        }
    }
}

/// Whether want `i` is taken into the response.
pub open spec fn get_takes(wants: Seq<[u8; 32]>, sizes: Seq<Option<usize>>, limit: usize, i: int) -> bool {
    get_take_at(wants, sizes, limit, get_spent(wants, sizes, limit, i), i)
}

/// Decides which wanted items a download returns. `sizes[i]` is the stored
/// size of `wants[i]` when it is queued for the recipient.
pub fn plan_get_payloads(wants: &[[u8; 32]], sizes: &[Option<usize>], limit: usize) -> (r: Vec<bool>)
    requires
        sizes.len() == wants.len(),
    ensures
        r@.len() == wants@.len(),
        forall|i: int| 0 <= i < wants@.len() ==> r@[i] == get_takes(wants@, sizes@, limit, i),
{
    let mut taken: Vec<bool> = Vec::new();
    let mut spent: usize = GET_RESPONSE_OVERHEAD;
    let mut i: usize = 0;
    while i < wants.len()
        invariant
            sizes.len() == wants.len(),
            i <= wants.len(),
            taken@.len() == i,
            spent == get_spent(wants@, sizes@, limit, i as int),
            forall|j: int| 0 <= j < i ==> taken@[j] == get_takes(wants@, sizes@, limit, j),
        decreases wants.len() - i,
    {
        let mut repeated = false;
        let mut j: usize = 0;
        while j < i
            invariant
                i < wants.len(),
                j <= i,
                repeated == exists|k: int| 0 <= k < j && (#[trigger] wants@[k])@ == wants@[i as int]@,
            decreases i - j,
        {
            if id_eq(&wants[j], &wants[i]) {
                repeated = true;
            }
            j = j + 1;
        }
        let mut take = false;
        match sizes[i] {
            Some(size) => {
                let cost = size.saturating_add(GET_ITEM_OVERHEAD);
                if !repeated && spent.saturating_add(cost) <= limit {
                    take = true;
                    spent = spent.saturating_add(cost);
                }
            },
            None => {},
        }
        taken.push(take);
        i = i + 1;
    }
    taken
}

/// A download that returns a payload never spends more than its limit.
pub proof fn lemma_get_within_limit(wants: Seq<[u8; 32]>, sizes: Seq<Option<usize>>, limit: usize, i: int)
    requires
        0 <= i < wants.len(),
        sizes.len() == wants.len(),
        get_takes(wants, sizes, limit, i),
    ensures
        get_spent(wants, sizes, limit, i + 1) <= limit,
{
}

} // verus!
