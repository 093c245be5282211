//! The order of `String`s — lexicographic by character, which is the order
//! of their UTF-8 bytes — and sorted, duplicate-free lists of them.
use vstd::prelude::*;
use crate::text::{chars_of, views};

verus! {

/// Whether `a` sorts strictly before `b`: at the first character where they
/// differ the one of `a` is smaller, or `a` is a proper prefix of `b`.
pub open spec fn text_lt(a: Seq<char>, b: Seq<char>) -> bool
    decreases a.len(),
{
    if b.len() == 0 {
        false
    } else if a.len() == 0 {
        true
    } else if a[0] != b[0] {
        a[0] < b[0]
    } else {
        text_lt(a.drop_first(), b.drop_first())
    }
}

/// Whether the texts of `s` strictly increase.
pub open spec fn strictly_sorted_texts(s: Seq<Seq<char>>) -> bool {
    forall|i: int, j: int| 0 <= i < j < s.len() ==> text_lt(#[trigger] s[i], #[trigger] s[j])
}

/// Whether `s` holds the text `x`.
pub open spec fn has_text(s: Seq<Seq<char>>, x: Seq<char>) -> bool {
    exists|k: int| 0 <= k < s.len() && #[trigger] s[k] == x
}

/// Two distinct texts are ordered one way or the other.
pub proof fn lemma_text_total(a: Seq<char>, b: Seq<char>)
    ensures
        a == b || text_lt(a, b) || text_lt(b, a),
    decreases a.len(),
{
    if a.len() > 0 && b.len() > 0 && a[0] == b[0] {
        lemma_text_total(a.drop_first(), b.drop_first());
        if a.drop_first() == b.drop_first() {
            assert(a =~= seq![a[0]] + a.drop_first());
            assert(b =~= seq![b[0]] + b.drop_first());
        }
    } else if a.len() == 0 && b.len() == 0 {
        assert(a =~= b);
    }
}

/// The order is transitive.
pub proof fn lemma_text_trans(a: Seq<char>, b: Seq<char>, c: Seq<char>)
    requires
        text_lt(a, b),
        text_lt(b, c),
    ensures
        text_lt(a, c),
    decreases a.len(),
{
    if a.len() > 0 && b.len() > 0 && c.len() > 0 && a[0] == b[0] && b[0] == c[0] {
        lemma_text_trans(a.drop_first(), b.drop_first(), c.drop_first());
    }
}

/// No text sorts before itself.
pub proof fn lemma_text_irrefl(a: Seq<char>)
    ensures
        !text_lt(a, a),
    decreases a.len(),
{
    if a.len() > 0 {
        lemma_text_irrefl(a.drop_first());
    }
}

/// `text_lt` computed.
pub fn text_less(a: &str, b: &str) -> (r: bool)
    ensures
        r == text_lt(a@, b@),
{
    let ca = chars_of(a);
    let cb = chars_of(b);
    let mut i: usize = 0;
    assert(a@.skip(0) =~= a@);
    assert(b@.skip(0) =~= b@);
    while i < ca.len() && i < cb.len() && ca[i] == cb[i]
        invariant
            ca@ == a@,
            cb@ == b@,
            i <= ca.len(),
            i <= cb.len(),
            text_lt(a@, b@) == text_lt(a@.skip(i as int), b@.skip(i as int)),
        decreases ca.len() - i,
    {
        proof {
            assert(a@.skip(i as int).drop_first() =~= a@.skip(i + 1));
            assert(b@.skip(i as int).drop_first() =~= b@.skip(i + 1));
        }
        i = i + 1;
    }
    if i == cb.len() {
        false
    } else if i == ca.len() {
        true
    } else {
        proof {
            assert(a@.skip(i as int)[0] == a@[i as int]);
            assert(b@.skip(i as int)[0] == b@[i as int]);
        }
        ca[i] < cb[i]
    }
}

/// Inserts `s` into the strictly sorted `v` unless it holds it already.
fn insert_text(v: &mut Vec<String>, s: String)
    requires
        strictly_sorted_texts(views(old(v)@)),
    ensures
        strictly_sorted_texts(views(final(v)@)),
        forall|x: Seq<char>| has_text(views(final(v)@), x) <==> (has_text(views(old(v)@), x) || x == s@),
{
    let ghost before = views(v@);
    let mut p: usize = 0;
    while p < v.len() && text_less(v[p].as_str(), s.as_str())
        invariant
            views(v@) == before,
            p <= v.len(),
            forall|k: int| 0 <= k < p ==> text_lt(#[trigger] before[k], s@),
        decreases v.len() - p,
    {
        p = p + 1;
    }
    if p < v.len() && crate::text::str_eq(v[p].as_str(), s.as_str()) {
        proof {
            assert forall|x: Seq<char>| has_text(before, x) <==> (has_text(before, x) || x == s@) by {
                if x == s@ {
                    assert(before[p as int] == x);
                }
            }
        }
        return;
    }
    proof {
        if p < v.len() {
            lemma_text_total(before[p as int], s@);
        }
    }
    let ghost sv = s@;
    v.insert(p, s);
    proof {
        let after = views(v@);
        assert(after =~= before.insert(p as int, sv));
        assert forall|i: int, j: int| 0 <= i < j < after.len() implies text_lt(#[trigger] after[i], #[trigger] after[j]) by {
            if j < p {
                assert(after[i] == before[i] && after[j] == before[j]);
            } else if j == p {
                assert(after[i] == before[i]);
            } else if i == p {
                assert(after[j] == before[j - 1]);
                if j - 1 > p {
                    assert(text_lt(before[p as int], before[j - 1]));
                    lemma_text_trans(sv, before[p as int], before[j - 1]);
                }
            } else if i < p {
                assert(after[i] == before[i] && after[j] == before[j - 1]);
            } else {
                assert(after[i] == before[i - 1] && after[j] == before[j - 1]);
            }
        }
        assert forall|x: Seq<char>| has_text(after, x) <==> (has_text(before, x) || x == sv) by {
            if has_text(after, x) {
                let k = choose|k: int| 0 <= k < after.len() && #[trigger] after[k] == x;
                if k < p {
                    assert(before[k] == after[k]);
                } else if k > p {
                    assert(before[k - 1] == after[k]);
                }
            }
            if has_text(before, x) {
                let k = choose|k: int| 0 <= k < before.len() && #[trigger] before[k] == x;
                if k < p {
                    assert(after[k] == before[k]);
                } else {
                    assert(after[k + 1] == before[k]);
                }
            }
            if x == sv {
                assert(after[p as int] == sv);
            }
        }
    }
}

/// `items` sorted and without duplicates, as `sort` then `dedup` leave them.
pub fn sorted_unique(items: Vec<String>) -> (out: Vec<String>)
    ensures
        strictly_sorted_texts(views(out@)),
        forall|x: Seq<char>| has_text(views(out@), x) <==> has_text(views(items@), x),
{
    let mut out: Vec<String> = Vec::new();
    let mut k: usize = 0;
    let n = items.len();
    let mut rest = items;
    let ghost all = views(rest@);
    proof {
        assert(views(out@) =~= Seq::<Seq<char>>::empty());
    }
    while k < n
        invariant
            n == all.len(),
            k <= n,
            views(rest@) == all,
            strictly_sorted_texts(views(out@)),
            forall|x: Seq<char>| has_text(views(out@), x) <==> has_text(all.subrange(0, k as int), x),
        decreases n - k,
    {
        let s = rest[k].clone();
        proof {
            assert(s@ == all[k as int]);
        }
        let ghost before = views(out@);
        insert_text(&mut out, s);
        proof {
            let prefix = all.subrange(0, k as int);
            let next = all.subrange(0, k + 1);
            assert(next =~= prefix.push(all[k as int]));
            assert forall|x: Seq<char>| has_text(views(out@), x) <==> has_text(next, x) by {
                if has_text(views(out@), x) {
                    if has_text(before, x) {
                        assert(has_text(prefix, x));
                        let j = choose|j: int| 0 <= j < prefix.len() && #[trigger] prefix[j] == x;
                        assert(next[j] == x);
                    } else {
                        assert(x == s@);
                        assert(next[k as int] == x);
                    }
                }
                if has_text(next, x) {
                    let j = choose|j: int| 0 <= j < next.len() && #[trigger] next[j] == x;
                    if j < k {
                        assert(prefix[j] == x);
                    }
                }
                if has_text(prefix, x) {
                    let j = choose|j: int| 0 <= j < prefix.len() && #[trigger] prefix[j] == x;
                    assert(next[j] == x);
                }
            }
        }
        k = k + 1;
    }
    proof {
        assert(all.subrange(0, n as int) =~= all);
    }
    out
}

} // verus!
