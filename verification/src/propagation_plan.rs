//! The decisions of standard propagation that depend only on a request and
//! on what was read from the store: which offered messages to want, which
//! attempt an exchange belongs to, how a download names its attempt.
use vstd::prelude::*;
use crate::migration::bytes_gt;
use crate::outside::{sha256, sha256_digest};
use crate::propagation::{
    concat_ids, contains_id, generated_offer_attempt, has_id, lemma_has_id_push, offer_attempt_id, offer_available,
    offer_pick, offer_rejected, offer_room, take_ids, union_ids, classify_offer, StandardPropagationOfferRequest,
    StandardPropagationPolicy, StandardPropagationStats,
};

verus! {

// ── Offers ──────────────────────────────────────────────────────────────

/// The offered ids this link already asked for, in offer order.
pub open spec fn offer_same(req: StandardPropagationOfferRequest, stored: Seq<bool>) -> Seq<[u8; 32]> {
    offer_pick(req.offered@, stored, req.same_link_pending@, req.pending_elsewhere@, true, req.offered@.len() as int)
}

/// The offered ids nobody is fetching and the queue does not hold, in offer order.
pub open spec fn offer_unknown(req: StandardPropagationOfferRequest, stored: Seq<bool>) -> Seq<[u8; 32]> {
    offer_pick(req.offered@, stored, req.same_link_pending@, req.pending_elsewhere@, false, req.offered@.len() as int)
}

/// Whether the offer is refused for capacity, given the queue's state.
pub open spec fn offer_refused(req: StandardPropagationOfferRequest, stored: Seq<bool>, stats: StandardPropagationStats) -> bool {
    offer_rejected(
        offer_unknown(req, stored).len(),
        offer_room(req.policy, stats.queued_count, req.pending_count) as nat,
        stats.stored_bytes,
        req.policy,
    )
}

/// The ids an offer wants: none when refused; otherwise those this link
/// already asked for, then as many unknown ids as the queue has room for.
pub open spec fn offer_wanted(req: StandardPropagationOfferRequest, stored: Seq<bool>, stats: StandardPropagationStats) -> Seq<[u8; 32]> {
    let unknown = offer_unknown(req, stored);
    let room = offer_room(req.policy, stats.queued_count, req.pending_count);
    if offer_refused(req, stored, stats) {
        Seq::empty()
    } else {
        offer_same(req, stored) + if room >= unknown.len() {
            unknown
        } else {
            unknown.subrange(0, room)
        }
    }
}

/// The attempt an offer is recorded under: the generated attempt when
/// refused, else the attempt it continues, else the generated one.
pub open spec fn offer_attempt(req: StandardPropagationOfferRequest, stored: Seq<bool>, stats: StandardPropagationStats) -> Seq<u8> {
    let generated = offer_attempt_id(req.request_id, req.link_id, req.peer, req.offered@);
    if offer_refused(req, stored, stats) {
        generated
    } else {
        match req.existing_attempt {
            Some(a) => a@,
            None => generated,
        }
    }
}

/// What an offer decides.
pub struct OfferPlan {
    pub wanted: Vec<[u8; 32]>,
    pub generated: [u8; 16],
    pub attempt_id: [u8; 16],
    pub refused: bool,
}

/// Decides an offer from which offered ids the queue holds (`stored`) and
/// the queue's size.
pub fn plan_offer(req: &StandardPropagationOfferRequest, stored: &[bool], stats: StandardPropagationStats) -> (p: OfferPlan)
    requires
        stored@.len() == req.offered@.len(),
    ensures
        p.wanted@ == offer_wanted(*req, stored@, stats),
        p.attempt_id@ == offer_attempt(*req, stored@, stats),
        p.generated@ == offer_attempt_id(req.request_id, req.link_id, req.peer, req.offered@),
        p.refused == offer_refused(*req, stored@, stats),
{
    let (same, unknown) = classify_offer(req.offered, stored, req.same_link_pending, req.pending_elsewhere);
    let available = offer_available(req.policy, stats.queued_count, req.pending_count);
    let generated = generated_offer_attempt(&req.request_id, &req.link_id, &req.peer, req.offered);
    let refused = unknown.len() > 0 && (available == 0 || stats.stored_bytes >= req.policy.queue_max_bytes);
    if refused {
        OfferPlan { wanted: Vec::new(), generated, attempt_id: generated, refused }
    } else {
        let taken = take_ids(&unknown, available);
        let mut wanted = same;
        let mut i: usize = 0;
        let ghost start = wanted@;
        while i < taken.len()
            invariant
                i <= taken.len(),
                wanted@ == start + taken@.subrange(0, i as int),
            decreases taken.len() - i,
        {
            wanted.push(taken[i]);
            proof {
                assert(taken@.subrange(0, i + 1) =~= taken@.subrange(0, i as int).push(taken@[i as int]));
            }
            i = i + 1;
        }
        assert(taken@.subrange(0, taken@.len() as int) =~= taken@);
        let attempt_id = match req.existing_attempt {
            Some(a) => a,
            None => generated,
        };
        OfferPlan { wanted, generated, attempt_id, refused }
    }
}

// ── Download attempt ids ────────────────────────────────────────────────

/// Whether transient id `a` sorts before `b`, byte by byte.
pub open spec fn id_lt(a: [u8; 32], b: [u8; 32]) -> bool {
    bytes_gt(b@, a@)
}

/// Whether `s` is strictly increasing.
pub open spec fn strictly_sorted(s: Seq<[u8; 32]>) -> bool {
    forall|i: int, j: int| 0 <= i < j < s.len() ==> id_lt(#[trigger] s[i], #[trigger] s[j])
}

proof fn lemma_bytes_total(a: Seq<u8>, b: Seq<u8>)
    requires
        a.len() == b.len(),
    ensures
        bytes_gt(a, b) || bytes_gt(b, a) || a == b,
    decreases a.len(),
{
    if a.len() > 0 && a[0] == b[0] {
        lemma_bytes_total(a.subrange(1, a.len() as int), b.subrange(1, b.len() as int));
        if a.subrange(1, a.len() as int) == b.subrange(1, b.len() as int) {
            assert(a =~= b) by {
                assert forall|k: int| 0 <= k < a.len() implies a[k] == b[k] by {
                    if k > 0 {
                        assert(a[k] == a.subrange(1, a.len() as int)[k - 1]);
                        assert(b[k] == b.subrange(1, b.len() as int)[k - 1]);
                    }
                }
            }
        }
    }
}

pub(crate) proof fn lemma_bytes_gt_trans(a: Seq<u8>, b: Seq<u8>, c: Seq<u8>)
    requires
        bytes_gt(a, b),
        bytes_gt(b, c),
    ensures
        bytes_gt(a, c),
    decreases a.len(),
{
    if a.len() > 0 && b.len() > 0 && c.len() > 0 && a[0] == b[0] && b[0] == c[0] {
        lemma_bytes_gt_trans(
            a.subrange(1, a.len() as int),
            b.subrange(1, b.len() as int),
            c.subrange(1, c.len() as int),
        );
    }
}

pub(crate) proof fn lemma_bytes_gt_irrefl(a: Seq<u8>)
    ensures
        !bytes_gt(a, a),
    decreases a.len(),
{
    if a.len() > 0 {
        lemma_bytes_gt_irrefl(a.subrange(1, a.len() as int));
    }
}

/// `id_lt` computed.
pub fn id_less(a: &[u8; 32], b: &[u8; 32]) -> (r: bool)
    ensures
        r == id_lt(*a, *b),
{
    let mut i: usize = 0;
    assert(a@.subrange(0, 32) =~= a@);
    assert(b@.subrange(0, 32) =~= b@);
    while i < 32 && a[i] == b[i]
        invariant
            i <= 32,
            a@.len() == 32,
            b@.len() == 32,
            bytes_gt(b@, a@) == bytes_gt(b@.subrange(i as int, 32), a@.subrange(i as int, 32)),
        decreases 32 - i,
    {
        proof {
            let sa = a@.subrange(i as int, 32);
            let sb = b@.subrange(i as int, 32);
            assert(sa.subrange(1, sa.len() as int) =~= a@.subrange(i + 1, 32));
            assert(sb.subrange(1, sb.len() as int) =~= b@.subrange(i + 1, 32));
        }
        i = i + 1;
    }
    if i == 32 {
        false
    } else {
        proof {
            assert(b@.subrange(i as int, 32)[0] == b@[i as int]);
            assert(a@.subrange(i as int, 32)[0] == a@[i as int]);
        }
        a[i] < b[i]
    }
}

/// Inserts `id` into the strictly sorted `v` unless it holds it already.
fn insert_sorted(v: &mut Vec<[u8; 32]>, id: [u8; 32])
    requires
        strictly_sorted(old(v)@),
    ensures
        strictly_sorted(final(v)@),
        forall|x: [u8; 32]| has_id(final(v)@, x) <==> (has_id(old(v)@, x) || x@ == id@),
{
    let ghost before = v@;
    let mut p: usize = 0;
    while p < v.len() && id_less(&v[p], &id)
        invariant
            v@ == before,
            p <= v.len(),
            forall|k: int| 0 <= k < p ==> id_lt(#[trigger] v@[k], id),
        decreases v.len() - p,
    {
        p = p + 1;
    }
    if p < v.len() && crate::propagation::id_eq(&v[p], &id) {
        proof {
            assert forall|x: [u8; 32]| has_id(v@, x) <==> (has_id(v@, x) || x@ == id@) by {
                if x@ == id@ {
                    assert(v@[p as int]@ == x@);
                }
            }
        }
        return;
    }
    proof {
        if p < v.len() {
            lemma_bytes_total(v@[p as int]@, id@);
        }
    }
    v.insert(p, id);
    proof {
        let after = v@;
        assert(after =~= before.insert(p as int, id));
        assert forall|i: int, j: int| 0 <= i < j < after.len() implies id_lt(#[trigger] after[i], #[trigger] after[j]) by {
            if j < p {
                assert(after[i] == before[i] && after[j] == before[j]);
            } else if j == p {
                assert(after[i] == before[i]);
            } else if i == p {
                assert(after[j] == before[j - 1]);
                if j - 1 > p {
                    assert(id_lt(before[p as int], before[j - 1]));
                    lemma_bytes_gt_trans(before[j - 1]@, before[p as int]@, id@);
                }
            } else if i < p {
                assert(after[i] == before[i] && after[j] == before[j - 1]);
            } else {
                assert(after[i] == before[i - 1] && after[j] == before[j - 1]);
            }
        }
        assert forall|x: [u8; 32]| has_id(after, x) <==> (has_id(before, x) || x@ == id@) by {
            if has_id(after, x) {
                let k = choose|k: int| 0 <= k < after.len() && (#[trigger] after[k])@ == x@;
                if k < p {
                    assert(before[k] == after[k]);
                } else if k > p {
                    assert(before[k - 1] == after[k]);
                }
            }
            if has_id(before, x) {
                let k = choose|k: int| 0 <= k < before.len() && (#[trigger] before[k])@ == x@;
                if k < p {
                    assert(after[k] == before[k]);
                } else {
                    assert(after[k + 1] == before[k]);
                }
            }
            if x@ == id@ {
                assert(after[p as int] == id);
            }
        }
    }
}

/// Whether `r` holds exactly the ids that `a` or `b` holds.
pub open spec fn ids_union(r: Seq<[u8; 32]>, a: Seq<[u8; 32]>, b: Seq<[u8; 32]>) -> bool {
    forall|x: [u8; 32]| has_id(r, x) <==> (has_id(a, x) || has_id(b, x))
}

proof fn lemma_extend_step(
    start: Seq<[u8; 32]>,
    before: Seq<[u8; 32]>,
    after: Seq<[u8; 32]>,
    prefix: Seq<[u8; 32]>,
    e: [u8; 32],
)
    requires
        ids_union(before, start, prefix),
        forall|x: [u8; 32]| has_id(after, x) <==> (has_id(before, x) || x@ == e@),
    ensures
        ids_union(after, start, prefix.push(e)),
{
    lemma_has_id_push(prefix, e);
}

/// Adds the ids of `part` to the strictly sorted `sorted`, each once.
pub fn extend_sorted(sorted: Vec<[u8; 32]>, part: &[[u8; 32]]) -> (out: Vec<[u8; 32]>)
    requires
        strictly_sorted(sorted@),
    ensures
        strictly_sorted(out@),
        ids_union(out@, sorted@, part@),
{
    let ghost start = sorted@;
    let mut out = sorted;
    let mut k: usize = 0;
    proof {
        assert forall|x: [u8; 32]| !has_id(part@.subrange(0, 0), x) by {}
    }
    while k < part.len()
        invariant
            k <= part.len(),
            strictly_sorted(out@),
            ids_union(out@, start, part@.subrange(0, k as int)),
        decreases part.len() - k,
    {
        let ghost prefix = part@.subrange(0, k as int);
        let ghost before = out@;
        proof {
            assert(part@.subrange(0, k + 1) =~= prefix.push(part@[k as int]));
        }
        insert_sorted(&mut out, part[k]);
        proof {
            lemma_extend_step(start, before, out@, prefix, part@[k as int]);
        }
        k = k + 1;
    }
    proof {
        assert(part@.subrange(0, k as int) =~= part@);
    }
    out
}

// ── Resumed uploads ─────────────────────────────────────────────────────

/// The eight big-endian bytes of a 64-bit integer.
pub open spec fn be_bytes(v: i64) -> Seq<u8> {
    let u = v as u64;
    seq![
        (u >> 56u64) as u8,
        (u >> 48u64) as u8,
        (u >> 40u64) as u8,
        (u >> 32u64) as u8,
        (u >> 24u64) as u8,
        (u >> 16u64) as u8,
        (u >> 8u64) as u8,
        u as u8,
    ]
}

/// `be_bytes` computed, as `i64::to_be_bytes` gives them.
pub fn to_be_bytes(v: i64) -> (r: [u8; 8])
    ensures
        r@ == be_bytes(v),
{
    let u = v as u64;
    let r = [
        (u >> 56u64) as u8,
        (u >> 48u64) as u8,
        (u >> 40u64) as u8,
        (u >> 32u64) as u8,
        (u >> 24u64) as u8,
        (u >> 16u64) as u8,
        (u >> 8u64) as u8,
        u as u8,
    ];
    assert(r@ =~= be_bytes(v));
    r
}

/// The attempt a resumed upload starts: the first sixteen bytes of the
/// SHA-256 of its correlation id and the big-endian number of attempts the
/// correlation will then have had.
pub open spec fn resume_attempt_id(correlation: [u8; 16], attempts: i64) -> Seq<u8> {
    let next = if attempts == i64::MAX { i64::MAX } else { (attempts + 1) as i64 };
    sha256(correlation@ + be_bytes(next)).subrange(0, 16)
}

/// `resume_attempt_id` computed.
pub fn resumed_attempt(correlation: &[u8; 16], attempts: i64) -> (r: [u8; 16])
    ensures
        r@ == resume_attempt_id(*correlation, attempts),
{
    let next: i64 = if attempts == i64::MAX { i64::MAX } else { attempts + 1 };
    let counter = to_be_bytes(next);
    let mut material: Vec<u8> = Vec::new();
    let mut i: usize = 0;
    while i < 16
        invariant
            i <= 16,
            correlation@.len() == 16,
            material@ == correlation@.subrange(0, i as int),
        decreases 16 - i,
    {
        material.push(correlation[i]);
        proof {
            assert(correlation@.subrange(0, i + 1) =~= correlation@.subrange(0, i as int).push(correlation@[i as int]));
        }
        i = i + 1;
    }
    let mut k: usize = 0;
    while k < 8
        invariant
            k <= 8,
            correlation@.len() == 16,
            counter@.len() == 8,
            material@ == correlation@.subrange(0, 16) + counter@.subrange(0, k as int),
        decreases 8 - k,
    {
        material.push(counter[k]);
        proof {
            assert(counter@.subrange(0, k + 1) =~= counter@.subrange(0, k as int).push(counter@[k as int]));
        }
        k = k + 1;
    }
    assert(material@ =~= correlation@ + be_bytes(next));
    let digest = sha256_digest(material.as_slice());
    crate::propagation::prefix16(&digest)
}

// ── Outbound jobs ───────────────────────────────────────────────────────

/// Propagated LXMF data must be longer than this many bytes, as the client
/// jobs table requires of it.
pub const MIN_PROPAGATED_LXMF_BYTES: usize = 112;

/// Whether a message id is 64 lowercase hexadecimal digits.
pub open spec fn message_id_ok(id: Seq<char>) -> bool {
    id.len() == 64 && crate::text::all_lower_hex(id)
}

} // verus!
