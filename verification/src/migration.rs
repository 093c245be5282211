//! Rules by which schema migrations carry legacy rows forward: contacts
//! whose peer hashes differ only in case merge into one canonical contact.
use vstd::prelude::*;
use crate::records::ContactRecord;
use crate::text::{ascii_lower, opt_view, str_eq, to_ascii_lower};

verus! {

/// The canonical key of a contact: its peer hash in ASCII lowercase.
pub open spec fn contact_key(c: ContactRecord) -> Seq<char> {
    ascii_lower(c.peer_hash@)
}

/// Whether some contact of `s` has key `k`.
pub open spec fn has_contact_key(s: Seq<ContactRecord>, k: Seq<char>) -> bool {
    exists|i: int| 0 <= i < s.len() && contact_key(#[trigger] s[i]) == k
}

/// The first contact of `s` with key `k`.
pub open spec fn first_with_key(s: Seq<ContactRecord>, k: Seq<char>) -> Option<ContactRecord>
    decreases s.len(),
{
    if s.len() == 0 {
        None
    } else {
        match first_with_key(s.drop_last(), k) {
            Some(c) => Some(c),
            None => if contact_key(s.last()) == k {
                Some(s.last())
            } else {
                None
            },
        }
    }
}

/// The earliest creation time among the contacts of `s` with key `k`.
pub open spec fn min_created(s: Seq<ContactRecord>, k: Seq<char>) -> i64
    decreases s.len(),
{
    if s.len() == 0 {
        i64::MAX
    } else {
        let prev = min_created(s.drop_last(), k);
        if contact_key(s.last()) == k && s.last().created_at < prev {
            s.last().created_at
        } else {
            prev
        }
    }
}

/// The latest update time among the contacts of `s` with key `k`.
pub open spec fn max_updated(s: Seq<ContactRecord>, k: Seq<char>) -> i64
    decreases s.len(),
{
    if s.len() == 0 {
        i64::MIN
    } else {
        let prev = max_updated(s.drop_last(), k);
        if contact_key(s.last()) == k && s.last().updated_at > prev {
            s.last().updated_at
        } else {
            prev
        }
    }
}

/// Whether `o` is the merged contact of `input` for its own key: the key as
/// its peer hash, alias and notes of the first contact with that key, the
/// earliest creation and the latest update among them.
pub open spec fn merged_entry(input: Seq<ContactRecord>, o: ContactRecord) -> bool {
    let k = o.peer_hash@;
    &&& first_with_key(input, k) matches Some(f)
    &&& opt_view(o.alias) == opt_view(f.alias)
    &&& opt_view(o.notes) == opt_view(f.notes)
    &&& o.created_at == min_created(input, k)
    &&& o.updated_at == max_updated(input, k)
}

/// Whether `out` merges `input`: one contact per key of `input`, no other,
/// each the merged contact of its key.
pub open spec fn contacts_merged(input: Seq<ContactRecord>, out: Seq<ContactRecord>) -> bool {
    &&& forall|a: int, b: int| 0 <= a < b < out.len() ==> (#[trigger] out[a]).peer_hash@ != (#[trigger] out[b]).peer_hash@
    &&& forall|k: Seq<char>| has_contact_key(input, k) <==> exists|j: int| 0 <= j < out.len() && (#[trigger] out[j]).peer_hash@ == k
    &&& forall|j: int| 0 <= j < out.len() ==> merged_entry(input, #[trigger] out[j])
}

proof fn lemma_first_some_iff(s: Seq<ContactRecord>, k: Seq<char>)
    ensures
        first_with_key(s, k) is Some <==> has_contact_key(s, k),
        first_with_key(s, k) matches Some(f) ==> contact_key(f) == k,
    decreases s.len(),
{
    if s.len() > 0 {
        lemma_first_some_iff(s.drop_last(), k);
        if has_contact_key(s, k) {
            let i = choose|i: int| 0 <= i < s.len() && contact_key(#[trigger] s[i]) == k;
            if i < s.len() - 1 {
                assert(s.drop_last()[i] == s[i]);
            }
        }
        if has_contact_key(s.drop_last(), k) {
            let i = choose|i: int| 0 <= i < s.drop_last().len() && contact_key(#[trigger] s.drop_last()[i]) == k;
            assert(s[i] == s.drop_last()[i]);
        }
        if contact_key(s.last()) == k {
            assert(contact_key(s[s.len() - 1]) == k);
        }
    }
}

proof fn lemma_has_key_push(s: Seq<ContactRecord>, c: ContactRecord, k: Seq<char>)
    ensures
        has_contact_key(s.push(c), k) <==> (has_contact_key(s, k) || contact_key(c) == k),
{
    let t = s.push(c);
    if has_contact_key(t, k) {
        let i = choose|i: int| 0 <= i < t.len() && contact_key(#[trigger] t[i]) == k;
        if i < s.len() {
            assert(s[i] == t[i]);
        }
    }
    if has_contact_key(s, k) {
        let i = choose|i: int| 0 <= i < s.len() && contact_key(#[trigger] s[i]) == k;
        assert(t[i] == s[i]);
    }
    if contact_key(c) == k {
        assert(t[s.len() as int] == c);
    }
}

/// Merges contacts that share a canonical key, as the conversation-state
/// migration does with the valid rows it reads.
pub fn merge_contacts(input: &[ContactRecord]) -> (out: Vec<ContactRecord>)
    ensures
        contacts_merged(input@, out@),
{
    let mut out: Vec<ContactRecord> = Vec::new();
    let mut i: usize = 0;
    while i < input.len()
        invariant
            i <= input.len(),
            contacts_merged(input@.subrange(0, i as int), out@),
        decreases input.len() - i,
    {
        let ghost prev = input@.subrange(0, i as int);
        let ghost next = input@.subrange(0, i + 1);
        let ghost before = out@;
        proof {
            assert(next.drop_last() =~= prev);
            assert(next.last() == input@[i as int]);
            assert(next =~= prev.push(input@[i as int]));
        }
        let c = &input[i];
        let key = to_ascii_lower(c.peer_hash.as_str());
        let mut j: usize = 0;
        let mut found = false;
        while j < out.len() && !found
            invariant
                out@ == before,
                j <= out.len(),
                !found ==> forall|m: int| 0 <= m < j ==> (#[trigger] out@[m]).peer_hash@ != key@,
                found ==> j < out.len() && out@[j as int].peer_hash@ == key@,
            decreases out.len() - j + if found { 0int } else { 1int },
        {
            if str_eq(out[j].peer_hash.as_str(), key.as_str()) {
                found = true;
            } else {
                j = j + 1;
            }
        }
        proof {
            lemma_has_key_push(prev, input@[i as int], key@);
            lemma_first_some_iff(prev, key@);
            lemma_first_some_iff(next, key@);
            assert forall|k: Seq<char>| k != key@ implies (
                first_with_key(next, k) == first_with_key(prev, k)
                && min_created(next, k) == min_created(prev, k)
                && max_updated(next, k) == max_updated(prev, k)
                && (has_contact_key(next, k) <==> has_contact_key(prev, k))
            ) by {
                lemma_has_key_push(prev, input@[i as int], k);
                lemma_first_some_iff(prev, k);
            }
        }
        if found {
            let old_created = out[j].created_at;
            let old_updated = out[j].updated_at;
            let merged = ContactRecord {
                peer_hash: key,
                alias: out[j].alias.clone(),
                notes: out[j].notes.clone(),
                created_at: if c.created_at < old_created { c.created_at } else { old_created },
                updated_at: if c.updated_at > old_updated { c.updated_at } else { old_updated },
            };
            proof {
                assert(merged_entry(prev, before[j as int]));
                assert(has_contact_key(prev, key@)) by {
                    assert(exists|m: int| 0 <= m < before.len() && (#[trigger] before[m]).peer_hash@ == key@);
                }
            }
            out.set(j, merged);
            proof {
                assert forall|a: int, b: int| 0 <= a < b < out@.len() implies (#[trigger] out@[a]).peer_hash@ != (#[trigger] out@[b]).peer_hash@ by {
                    assert(before[a].peer_hash@ != before[b].peer_hash@);
                }
                assert forall|k: Seq<char>| has_contact_key(next, k) <==> exists|m: int| 0 <= m < out@.len() && (#[trigger] out@[m]).peer_hash@ == k by {
                    if has_contact_key(next, k) {
                        if k == key@ {
                            assert(out@[j as int].peer_hash@ == k);
                        } else {
                            let m = choose|m: int| 0 <= m < before.len() && (#[trigger] before[m]).peer_hash@ == k;
                            assert(out@[m].peer_hash@ == k);
                        }
                    }
                    if exists|m: int| 0 <= m < out@.len() && (#[trigger] out@[m]).peer_hash@ == k {
                        let m = choose|m: int| 0 <= m < out@.len() && (#[trigger] out@[m]).peer_hash@ == k;
                        if m != j {
                            assert(before[m].peer_hash@ == k);
                        }
                    }
                }
                assert forall|m: int| 0 <= m < out@.len() implies merged_entry(next, #[trigger] out@[m]) by {
                    if m != j {
                        assert(merged_entry(prev, before[m]));
                        assert(before[m].peer_hash@ != key@);
                    }
                }
            }
        } else {
            let fresh = ContactRecord {
                peer_hash: key,
                alias: c.alias.clone(),
                notes: c.notes.clone(),
                created_at: c.created_at,
                updated_at: c.updated_at,
            };
            proof {
                assert(!has_contact_key(prev, key@)) by {
                    if has_contact_key(prev, key@) {
                        let m = choose|m: int| 0 <= m < before.len() && (#[trigger] before[m]).peer_hash@ == key@;
                    }
                }
            }
            out.push(fresh);
            proof {
                assert forall|a: int, b: int| 0 <= a < b < out@.len() implies (#[trigger] out@[a]).peer_hash@ != (#[trigger] out@[b]).peer_hash@ by {
                    if b == before.len() {
                        assert(out@[a] == before[a]);
                    } else {
                        assert(before[a].peer_hash@ != before[b].peer_hash@);
                    }
                }
                assert forall|k: Seq<char>| has_contact_key(next, k) <==> exists|m: int| 0 <= m < out@.len() && (#[trigger] out@[m]).peer_hash@ == k by {
                    if has_contact_key(next, k) {
                        if k == key@ {
                            assert(out@[before.len() as int].peer_hash@ == k);
                        } else {
                            let m = choose|m: int| 0 <= m < before.len() && (#[trigger] before[m]).peer_hash@ == k;
                            assert(out@[m].peer_hash@ == k);
                        }
                    }
                    if exists|m: int| 0 <= m < out@.len() && (#[trigger] out@[m]).peer_hash@ == k {
                        let m = choose|m: int| 0 <= m < out@.len() && (#[trigger] out@[m]).peer_hash@ == k;
                        if m < before.len() {
                            assert(before[m].peer_hash@ == k);
                        }
                    }
                }
                assert forall|m: int| 0 <= m < out@.len() implies merged_entry(next, #[trigger] out@[m]) by {
                    if m < before.len() {
                        assert(merged_entry(prev, before[m]));
                        assert(before[m].peer_hash@ != key@);
                    } else {
                        assert(min_created(prev, key@) == i64::MAX) by {
                            lemma_absent_min(prev, key@);
                        }
                        assert(max_updated(prev, key@) == i64::MIN) by {
                            lemma_absent_min(prev, key@);
                        }
                    }
                }
            }
        }
        i = i + 1;
    }
    assert(input@.subrange(0, input@.len() as int) =~= input@);
    out
}

proof fn lemma_absent_min(s: Seq<ContactRecord>, k: Seq<char>)
    requires
        !has_contact_key(s, k),
    ensures
        min_created(s, k) == i64::MAX,
        max_updated(s, k) == i64::MIN,
    decreases s.len(),
{
    if s.len() > 0 {
        assert(!has_contact_key(s.drop_last(), k)) by {
            if has_contact_key(s.drop_last(), k) {
                let i = choose|i: int| 0 <= i < s.drop_last().len() && contact_key(#[trigger] s.drop_last()[i]) == k;
                assert(s[i] == s.drop_last()[i]);
            }
        }
        assert(contact_key(s[s.len() - 1]) != k);
        lemma_absent_min(s.drop_last(), k);
    }
}

// ── Latest row per key ──────────────────────────────────────────────────

/// Whether byte sequence `a` sorts after `b`, as `Vec<u8>` orders them:
/// by the first differing byte, a proper prefix first.
pub open spec fn bytes_gt(a: Seq<u8>, b: Seq<u8>) -> bool
    decreases a.len(),
{
    if a.len() == 0 {
        false
    } else if b.len() == 0 {
        true
    } else if a[0] != b[0] {
        a[0] > b[0]
    } else {
        bytes_gt(a.subrange(1, a.len() as int), b.subrange(1, b.len() as int))
    }
}

proof fn lemma_bytes_gt_transitive(a: Seq<u8>, b: Seq<u8>, c: Seq<u8>)
    requires
        bytes_gt(a, b),
        bytes_gt(b, c),
    ensures
        bytes_gt(a, c),
    decreases a.len(),
{
    if a.len() > 0 && b.len() > 0 && c.len() > 0 && a[0] == b[0] && b[0] == c[0] {
        lemma_bytes_gt_transitive(
            a.subrange(1, a.len() as int),
            b.subrange(1, b.len() as int),
            c.subrange(1, c.len() as int),
        );
    }
}

/// A legacy row competing for its key: the row that ranks highest wins.
/// Ranks compare `updated_at`, then `a`, then `b`, then the bytes of
/// `first`, then those of `second`.
pub struct Candidate {
    pub key: String,
    pub updated_at: i64,
    pub a: i64,
    pub b: i64,
    pub first: Vec<u8>,
    pub second: Vec<u8>,
}

/// Whether candidate `x` outranks `y`.
pub open spec fn rank_gt(x: Candidate, y: Candidate) -> bool {
    ||| x.updated_at > y.updated_at
    ||| x.updated_at == y.updated_at && x.a > y.a
    ||| x.updated_at == y.updated_at && x.a == y.a && x.b > y.b
    ||| x.updated_at == y.updated_at && x.a == y.a && x.b == y.b && bytes_gt(x.first@, y.first@)
    ||| x.updated_at == y.updated_at && x.a == y.a && x.b == y.b && x.first@ == y.first@ && bytes_gt(
        x.second@,
        y.second@,
    )
}

proof fn lemma_rank_gt_transitive(x: Candidate, y: Candidate, z: Candidate)
    requires
        rank_gt(x, y),
        rank_gt(y, z),
    ensures
        rank_gt(x, z),
{
    if bytes_gt(x.first@, y.first@) && bytes_gt(y.first@, z.first@) {
        lemma_bytes_gt_transitive(x.first@, y.first@, z.first@);
    }
    if bytes_gt(x.second@, y.second@) && bytes_gt(y.second@, z.second@) {
        lemma_bytes_gt_transitive(x.second@, y.second@, z.second@);
    }
}

fn bytes_greater(a: &[u8], b: &[u8]) -> (r: bool)
    ensures
        r == bytes_gt(a@, b@),
{
    let mut i: usize = 0;
    assert(a@.subrange(0, a@.len() as int) =~= a@);
    assert(b@.subrange(0, b@.len() as int) =~= b@);
    while i < a.len() && i < b.len() && a[i] == b[i]
        invariant
            i <= a.len(),
            i <= b.len(),
            forall|k: int| 0 <= k < i ==> a@[k] == b@[k],
            bytes_gt(a@, b@) == bytes_gt(a@.subrange(i as int, a@.len() as int), b@.subrange(i as int, b@.len() as int)),
        decreases a.len() - i,
    {
        proof {
            let sa = a@.subrange(i as int, a@.len() as int);
            let sb = b@.subrange(i as int, b@.len() as int);
            assert(sa.subrange(1, sa.len() as int) =~= a@.subrange(i + 1, a@.len() as int));
            assert(sb.subrange(1, sb.len() as int) =~= b@.subrange(i + 1, b@.len() as int));
        }
        i = i + 1;
    }
    proof {
        let sa = a@.subrange(i as int, a@.len() as int);
        let sb = b@.subrange(i as int, b@.len() as int);
        if i < a.len() && i < b.len() {
            assert(sa[0] == a@[i as int]);
            assert(sb[0] == b@[i as int]);
        }
    }
    if i == a.len() {
        false
    } else if i == b.len() {
        true
    } else {
        a[i] > b[i]
    }
}

/// `rank_gt` computed.
pub fn outranks(x: &Candidate, y: &Candidate) -> (r: bool)
    ensures
        r == rank_gt(*x, *y),
{
    if x.updated_at != y.updated_at {
        return x.updated_at > y.updated_at;
    }
    if x.a != y.a {
        return x.a > y.a;
    }
    if x.b != y.b {
        return x.b > y.b;
    }
    if bytes_greater(x.first.as_slice(), y.first.as_slice()) {
        return true;
    }
    if bytes_greater(y.first.as_slice(), x.first.as_slice()) {
        return false;
    }
    let same_first = crate::text::bytes_eq(x.first.as_slice(), y.first.as_slice());
    same_first && bytes_greater(x.second.as_slice(), y.second.as_slice())
}

/// Whether `picked` chooses, for every key among the first `n` candidates,
/// one candidate among them of that key that none of them of the same key
/// outranks.
pub open spec fn picks_latest_upto(cands: Seq<Candidate>, n: int, picked: Seq<usize>) -> bool {
    &&& forall|p: int| 0 <= p < picked.len() ==> (#[trigger] picked[p]) < n
    &&& forall|p: int, q: int| 0 <= p < q < picked.len() ==> cands[#[trigger] picked[p] as int].key@ != cands[#[trigger] picked[q] as int].key@
    &&& forall|i: int| 0 <= i < n ==> exists|p: int| 0 <= p < picked.len() && cands[#[trigger] picked[p] as int].key@ == (#[trigger] cands[i]).key@
    &&& forall|p: int, j: int| 0 <= p < picked.len() && 0 <= j < n && (#[trigger] cands[j]).key@ == cands[#[trigger] picked[p] as int].key@ ==> !rank_gt(cands[j], cands[picked[p] as int])
}

/// `picks_latest_upto` over all the candidates.
pub open spec fn picks_latest(cands: Seq<Candidate>, picked: Seq<usize>) -> bool {
    picks_latest_upto(cands, cands.len() as int, picked)
}

proof fn lemma_pick_replace(cands: Seq<Candidate>, i: int, before: Seq<usize>, p: int)
    requires
        0 <= i < cands.len(),
        cands.len() <= usize::MAX,
        0 <= p < before.len(),
        picks_latest_upto(cands, i, before),
        cands[before[p] as int].key@ == cands[i].key@,
        rank_gt(cands[i], cands[before[p] as int]),
    ensures
        picks_latest_upto(cands, i + 1, before.update(p, i as usize)),
{
    let picked = before.update(p, i as usize);
    let current = before[p] as int;
    assert forall|q: int, j: int| 0 <= q < picked.len() && 0 <= j < i + 1 && (#[trigger] cands[j]).key@ == cands[#[trigger] picked[q] as int].key@ implies !rank_gt(cands[j], cands[picked[q] as int]) by {
        if q == p {
            if j < i {
                assert(!rank_gt(cands[j], cands[current]));
                if rank_gt(cands[j], cands[i]) {
                    lemma_rank_gt_transitive(cands[j], cands[i], cands[current]);
                }
            } else {
                lemma_rank_irreflexive(cands[j]);
            }
        } else {
            assert(picked[q] == before[q]);
            assert(cands[before[q] as int].key@ != cands[before[p] as int].key@);
        }
    }
    assert forall|a: int, b: int| 0 <= a < b < picked.len() implies cands[#[trigger] picked[a] as int].key@ != cands[#[trigger] picked[b] as int].key@ by {
        assert(cands[before[a] as int].key@ != cands[before[b] as int].key@);
    }
    assert forall|k: int| 0 <= k < i + 1 implies exists|q: int| 0 <= q < picked.len() && cands[#[trigger] picked[q] as int].key@ == (#[trigger] cands[k]).key@ by {
        if k < i {
            let q = choose|q: int| 0 <= q < before.len() && cands[#[trigger] before[q] as int].key@ == (#[trigger] cands[k]).key@;
            assert(cands[picked[q] as int].key@ == cands[k].key@);
        } else {
            assert(cands[picked[p] as int].key@ == cands[k].key@);
        }
    }
}

proof fn lemma_pick_keep(cands: Seq<Candidate>, i: int, before: Seq<usize>, p: int)
    requires
        0 <= i < cands.len(),
        cands.len() <= usize::MAX,
        0 <= p < before.len(),
        picks_latest_upto(cands, i, before),
        cands[before[p] as int].key@ == cands[i].key@,
        !rank_gt(cands[i], cands[before[p] as int]),
    ensures
        picks_latest_upto(cands, i + 1, before),
{
    assert forall|q: int, j: int| 0 <= q < before.len() && 0 <= j < i + 1 && (#[trigger] cands[j]).key@ == cands[#[trigger] before[q] as int].key@ implies !rank_gt(cands[j], cands[before[q] as int]) by {
        if j == i && q != p {
            assert(cands[before[q] as int].key@ != cands[before[p] as int].key@);
        }
    }
    assert forall|k: int| 0 <= k < i + 1 implies exists|q: int| 0 <= q < before.len() && cands[#[trigger] before[q] as int].key@ == (#[trigger] cands[k]).key@ by {
        if k == i {
            assert(cands[before[p] as int].key@ == cands[k].key@);
        }
    }
}

proof fn lemma_pick_push(cands: Seq<Candidate>, i: int, before: Seq<usize>)
    requires
        0 <= i < cands.len(),
        cands.len() <= usize::MAX,
        picks_latest_upto(cands, i, before),
        forall|q: int| 0 <= q < before.len() ==> cands[#[trigger] before[q] as int].key@ != cands[i].key@,
    ensures
        picks_latest_upto(cands, i + 1, before.push(i as usize)),
{
    let picked = before.push(i as usize);
    assert forall|q: int, j: int| 0 <= q < picked.len() && 0 <= j < i + 1 && (#[trigger] cands[j]).key@ == cands[#[trigger] picked[q] as int].key@ implies !rank_gt(cands[j], cands[picked[q] as int]) by {
        if q < before.len() {
            assert(picked[q] == before[q]);
            if j == i {
                assert(cands[before[q] as int].key@ != cands[i].key@);
            }
        } else if j < i {
            let r = choose|r: int| 0 <= r < before.len() && cands[#[trigger] before[r] as int].key@ == (#[trigger] cands[j]).key@;
            assert(cands[before[r] as int].key@ != cands[i].key@);
        } else {
            lemma_rank_irreflexive(cands[j]);
        }
    }
    assert forall|a: int, b: int| 0 <= a < b < picked.len() implies cands[#[trigger] picked[a] as int].key@ != cands[#[trigger] picked[b] as int].key@ by {
        assert(picked[a] == before[a]);
        if b == before.len() {
            assert(cands[before[a] as int].key@ != cands[i].key@);
        } else {
            assert(picked[b] == before[b]);
        }
    }
    assert forall|k: int| 0 <= k < i + 1 implies exists|q: int| 0 <= q < picked.len() && cands[#[trigger] picked[q] as int].key@ == (#[trigger] cands[k]).key@ by {
        if k < i {
            let q = choose|q: int| 0 <= q < before.len() && cands[#[trigger] before[q] as int].key@ == (#[trigger] cands[k]).key@;
            assert(picked[q] == before[q]);
        } else {
            assert(cands[picked[before.len() as int] as int].key@ == cands[k].key@);
        }
    }
}

/// For each key, the index of its highest-ranked candidate; of equals, the first.
pub fn pick_latest(cands: &[Candidate]) -> (picked: Vec<usize>)
    ensures
        picks_latest(cands@, picked@),
{
    let mut picked: Vec<usize> = Vec::new();
    let mut i: usize = 0;
    while i < cands.len()
        invariant
            i <= cands.len(),
            picks_latest_upto(cands@, i as int, picked@),
        decreases cands.len() - i,
    {
        let ghost before = picked@;
        let mut p: usize = 0;
        let mut found = false;
        while p < picked.len() && !found
            invariant
                picked@ == before,
                p <= picked.len(),
                picks_latest_upto(cands@, i as int, before),
                i < cands.len(),
                !found ==> forall|q: int| 0 <= q < p ==> cands@[#[trigger] picked@[q] as int].key@ != cands@[i as int].key@,
                found ==> p < picked.len() && cands@[picked@[p as int] as int].key@ == cands@[i as int].key@,
            decreases picked.len() - p + if found { 0int } else { 1int },
        {
            if crate::text::str_eq(cands[picked[p]].key.as_str(), cands[i].key.as_str()) {
                found = true;
            } else {
                p = p + 1;
            }
        }
        if found {
            let current = picked[p];
            if outranks(&cands[i], &cands[current]) {
                proof {
                    lemma_pick_replace(cands@, i as int, before, p as int);
                }
                picked.set(p, i);
            } else {
                proof {
                    lemma_pick_keep(cands@, i as int, before, p as int);
                }
            }
        } else {
            proof {
                lemma_pick_push(cands@, i as int, before);
            }
            picked.push(i);
        }
        i = i + 1;
    }
    picked
}

proof fn lemma_bytes_gt_irreflexive(a: Seq<u8>)
    ensures
        !bytes_gt(a, a),
    decreases a.len(),
{
    if a.len() > 0 {
        lemma_bytes_gt_irreflexive(a.subrange(1, a.len() as int));
    }
}

proof fn lemma_rank_irreflexive(x: Candidate)
    ensures
        !rank_gt(x, x),
{
    lemma_bytes_gt_irreflexive(x.first@);
    lemma_bytes_gt_irreflexive(x.second@);
}

} // verus!
