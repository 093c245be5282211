//! Canonical forms of schema SQL text, used to attest that the tables a
//! migration created are exactly the ones it meant to create.
use vstd::prelude::*;
use crate::outside::{char_lowercase, is_whitespace, lowercase_of};
use crate::text::{chars_of, string_from_chars};

verus! {

/// `is_whitespace` computed.
pub fn is_whitespace_char(c: char) -> (r: bool)
    ensures
        r == is_whitespace(c),
{
    let u = c as u32;
    (0x09 <= u && u <= 0x0d) || u == 0x20 || u == 0x85 || u == 0xa0 || u == 0x1680 || (0x2000
        <= u && u <= 0x200a) || u == 0x2028 || u == 0x2029 || u == 0x202f || u == 0x205f || u
        == 0x3000
}

/// The maximal runs of non-whitespace characters of `s`, in order: the words
/// that `str::split_whitespace` yields.
pub open spec fn ws_tokens(s: Seq<char>) -> Seq<Seq<char>>
    decreases s.len(),
{
    if s.len() == 0 {
        Seq::empty()
    } else {
        let p = s.drop_last();
        let c = s.last();
        if is_whitespace(c) {
            ws_tokens(p)
        } else if p.len() > 0 && !is_whitespace(p.last()) {
            let t = ws_tokens(p);
            t.update(t.len() - 1, t.last().push(c))
        } else {
            ws_tokens(p).push(seq![c])
        }
    }
}

/// The words of `ts` joined with single spaces.
pub open spec fn join_space(ts: Seq<Seq<char>>) -> Seq<char>
    decreases ts.len(),
{
    if ts.len() == 0 {
        Seq::empty()
    } else if ts.len() == 1 {
        ts[0]
    } else {
        join_space(ts.drop_last()) + seq![' '] + ts.last()
    }
}

/// `s` with every occurrence of `" ("` replaced by `"("`.
pub open spec fn drop_space_before_paren(s: Seq<char>) -> Seq<char>
    decreases s.len(),
{
    if s.len() == 0 {
        s
    } else if s.len() >= 2 && s[s.len() - 2] == ' ' && s.last() == '(' {
        drop_space_before_paren(s.subrange(0, s.len() - 2)).push('(')
    } else {
        drop_space_before_paren(s.drop_last()).push(s.last())
    }
}

/// The local canonical form of schema SQL: words separated by single spaces,
/// with no space before an opening parenthesis.
pub open spec fn normalized_local(s: Seq<char>) -> Seq<char> {
    drop_space_before_paren(join_space(ws_tokens(s)))
}

/// Every word of `ts` is non-empty and holds no whitespace.
pub open spec fn words_well_formed(ts: Seq<Seq<char>>) -> bool {
    forall|k: int|
        0 <= k < ts.len() ==> (#[trigger] ts[k]).len() > 0 && forall|j: int|
            0 <= j < ts[k].len() ==> !is_whitespace(#[trigger] ts[k][j])
}

proof fn lemma_tokens_nonempty(s: Seq<char>)
    requires
        s.len() > 0,
        !is_whitespace(s.last()),
    ensures
        ws_tokens(s).len() >= 1,
    decreases s.len(),
{
    let p = s.drop_last();
    if p.len() > 0 && !is_whitespace(p.last()) {
        lemma_tokens_nonempty(p);
    }
}

proof fn lemma_join_extend_last(ts: Seq<Seq<char>>, c: char)
    requires
        ts.len() >= 1,
    ensures
        join_space(ts.update(ts.len() - 1, ts.last().push(c))) == join_space(ts).push(c),
{
    let t2 = ts.update(ts.len() - 1, ts.last().push(c));
    if ts.len() == 1 {
        assert(join_space(t2) == t2[0]);
    } else {
        assert(t2.drop_last() =~= ts.drop_last());
        assert(join_space(t2) == join_space(t2.drop_last()) + seq![' '] + t2.last());
        assert(join_space(t2) =~= join_space(ts).push(c));
    }
}

proof fn lemma_join_push(ts: Seq<Seq<char>>, w: Seq<char>)
    requires
        ts.len() >= 1,
    ensures
        join_space(ts.push(w)) == join_space(ts) + seq![' '] + w,
{
    let t2 = ts.push(w);
    assert(t2.drop_last() =~= ts);
}

proof fn lemma_join_last(ts: Seq<Seq<char>>)
    requires
        ts.len() >= 1,
        words_well_formed(ts),
    ensures
        join_space(ts).len() > 0,
        join_space(ts).last() == ts.last().last(),
    decreases ts.len(),
{
    assert(ts[ts.len() - 1].len() > 0);
    if ts.len() > 1 {
        let j = join_space(ts);
        assert(j == join_space(ts.drop_last()) + seq![' '] + ts.last());
    }
}

/// Canonical form used to compare stored schema SQL with expected SQL:
/// whitespace runs collapse to single spaces and `" ("` becomes `"("`.
pub fn normalize_local_schema_sql(sql: &str) -> (r: String)
    ensures
        r@ == normalized_local(sql@),
{
    let c = chars_of(sql);
    let mut out: Vec<char> = Vec::new();
    let mut pending = false;
    let mut i: usize = 0;
    while i < c.len()
        invariant
            c@ == sql@,
            i <= c.len(),
            words_well_formed(ws_tokens(c@.subrange(0, i as int))),
            out@ == drop_space_before_paren(join_space(ws_tokens(c@.subrange(0, i as int)))),
            pending == (ws_tokens(c@.subrange(0, i as int)).len() > 0 && i > 0 && is_whitespace(
                c@[i - 1],
            )),
            ws_tokens(c@.subrange(0, i as int)).len() == 0 ==> out@.len() == 0,
        decreases c.len() - i,
    {
        let ch = c[i];
        let ghost pre = c@.subrange(0, i as int);
        let ghost ts = ws_tokens(pre);
        let ghost next = c@.subrange(0, i + 1);
        proof {
            assert(next.drop_last() =~= pre);
            assert(next.last() == ch);
        }
        if is_whitespace_char(ch) {
            if out.len() > 0 {
                pending = true;
            }
            proof {
                assert(ws_tokens(next) == ts);
            }
        } else if i > 0 && !is_whitespace_char(c[i - 1]) {
            proof {
                assert(pre.last() == c@[i - 1]);
                lemma_tokens_nonempty(pre);
                assert(ws_tokens(next) == ts.update(ts.len() - 1, ts.last().push(ch)));
                lemma_join_extend_last(ts, ch);
                lemma_join_last(ts);
                let j = join_space(ts);
                let j2 = j.push(ch);
                assert(j2.drop_last() =~= j);
                assert(j2[j2.len() - 2] == j.last());
                assert(!is_whitespace(ts.last().last()));
                assert(j.last() != ' ');
                assert(drop_space_before_paren(j2) == drop_space_before_paren(j).push(ch));
                let ts2 = ts.update(ts.len() - 1, ts.last().push(ch));
                assert forall|k: int| 0 <= k < ts2.len() implies (#[trigger] ts2[k]).len() > 0
                    && forall|m: int| 0 <= m < ts2[k].len() ==> !is_whitespace(#[trigger] ts2[k][m]) by {
                    if k == ts.len() - 1 {
                        assert forall|m: int| 0 <= m < ts2[k].len() implies !is_whitespace(#[trigger] ts2[k][m]) by {
                            if m < ts[k].len() {
                                assert(ts2[k][m] == ts[k][m]);
                            }
                        }
                    }
                }
            }
            out.push(ch);
        } else {
            proof {
                if i > 0 {
                    assert(pre.last() == c@[i - 1]);
                }
                assert(ws_tokens(next) == ts.push(seq![ch]));
                let ts2 = ts.push(seq![ch]);
                assert forall|k: int| 0 <= k < ts2.len() implies (#[trigger] ts2[k]).len() > 0
                    && forall|m: int| 0 <= m < ts2[k].len() ==> !is_whitespace(#[trigger] ts2[k][m]) by {
                    if k < ts.len() {
                        assert(ts2[k] == ts[k]);
                    }
                }
            }
            if pending {
                proof {
                    lemma_join_push(ts, seq![ch]);
                    let j = join_space(ts);
                    let j1 = j + seq![' '];
                    let j2 = j1 + seq![ch];
                    assert(j2.subrange(0, j2.len() - 2) =~= j);
                    assert(j2.drop_last() =~= j1);
                    assert(j1.drop_last() =~= j);
                    assert(j2[j2.len() - 2] == ' ');
                    assert(j1.last() == ' ');
                    assert(drop_space_before_paren(j1) == drop_space_before_paren(j).push(' '));
                    if ch == '(' {
                        assert(drop_space_before_paren(j2) == drop_space_before_paren(j).push('('));
                    } else {
                        assert(drop_space_before_paren(j2) == drop_space_before_paren(j1).push(ch));
                    }
                }
                if ch != '(' {
                    out.push(' ');
                }
                out.push(ch);
                pending = false;
            } else {
                proof {
                    assert(ts.len() == 0);
                    assert(join_space(ts.push(seq![ch])) == seq![ch]);
                    let s1 = seq![ch];
                    assert(s1.drop_last() =~= Seq::<char>::empty());
                    assert(drop_space_before_paren(s1) == drop_space_before_paren(
                        Seq::<char>::empty(),
                    ).push(ch));
                    assert(out@ =~= Seq::<char>::empty());
                }
                out.push(ch);
            }
        }
        proof {
            assert(out@ =~= drop_space_before_paren(join_space(ws_tokens(next))));
        }
        i = i + 1;
    }
    assert(c@.subrange(0, c@.len() as int) =~= c@);
    string_from_chars(out.as_slice())
}

/// How the schema normalizer is reading: outside quotes, inside a `'...'`
/// literal, inside a `"..."` or `` `...` `` identifier, or inside `[...]`.
#[derive(Clone, Copy, PartialEq, Eq)]
pub enum QuoteMode {
    Plain,
    Single,
    Delimited(char),
    Bracket,
}

/// The canonical form of schema SQL read in `mode`: string literals are kept
/// verbatim, quoted identifiers lose their quotes and are lowercased,
/// semicolons and whitespace outside quotes are dropped, and everything else
/// is lowercased.
pub open spec fn schema_norm(s: Seq<char>, mode: QuoteMode) -> Seq<char>
    decreases s.len(),
{
    if s.len() == 0 {
        Seq::empty()
    } else {
        let c = s[0];
        let rest = s.drop_first();
        match mode {
            QuoteMode::Plain => if c == '\'' {
                seq![c] + schema_norm(rest, QuoteMode::Single)
            } else if c == '"' || c == '`' {
                schema_norm(rest, QuoteMode::Delimited(c))
            } else if c == '[' {
                schema_norm(rest, QuoteMode::Bracket)
            } else if c == ';' || is_whitespace(c) {
                schema_norm(rest, QuoteMode::Plain)
            } else {
                char_lowercase(c) + schema_norm(rest, QuoteMode::Plain)
            },
            QuoteMode::Single => if c == '\'' {
                if rest.len() > 0 && rest[0] == '\'' {
                    seq![c, '\''] + schema_norm(rest.drop_first(), QuoteMode::Single)
                } else {
                    seq![c] + schema_norm(rest, QuoteMode::Plain)
                }
            } else {
                seq![c] + schema_norm(rest, QuoteMode::Single)
            },
            QuoteMode::Delimited(d) => if c == d {
                if rest.len() > 0 && rest[0] == d {
                    seq![d] + schema_norm(rest.drop_first(), QuoteMode::Delimited(d))
                } else {
                    schema_norm(rest, QuoteMode::Plain)
                }
            } else {
                char_lowercase(c) + schema_norm(rest, QuoteMode::Delimited(d))
            },
            QuoteMode::Bracket => if c == ']' {
                schema_norm(rest, QuoteMode::Plain)
            } else {
                char_lowercase(c) + schema_norm(rest, QuoteMode::Bracket)
            },
        }
    }
}

fn append_chars(out: &mut Vec<char>, more: Vec<char>)
    ensures
        final(out)@ == old(out)@ + more@,
{
    let mut more = more;
    out.append(&mut more);
}

/// Canonical form of schema SQL that ignores case, whitespace, statement
/// terminators and identifier quoting, but keeps string literals exact.
pub fn normalize_schema_sql(sql: &str) -> (r: String)
    ensures
        r@ == schema_norm(sql@, QuoteMode::Plain),
{
    let c = chars_of(sql);
    let mut out: Vec<char> = Vec::new();
    let mut mode = QuoteMode::Plain;
    let mut i: usize = 0;
    assert(c@.skip(0) =~= c@);
    assert(out@ + schema_norm(c@, QuoteMode::Plain) =~= schema_norm(c@, QuoteMode::Plain));
    while i < c.len()
        invariant
            c@ == sql@,
            i <= c.len(),
            out@ + schema_norm(c@.skip(i as int), mode) == schema_norm(c@, QuoteMode::Plain),
        decreases c.len() - i,
    {
        let ch = c[i];
        let ghost s = c@.skip(i as int);
        let ghost old_out = out@;
        let ghost old_mode = mode;
        proof {
            assert(s[0] == ch);
            assert(s.drop_first() =~= c@.skip(i + 1));
            if i + 1 < c.len() {
                assert(s.drop_first()[0] == c@[i + 1]);
                assert(s.drop_first().drop_first() =~= c@.skip(i + 2));
            }
        }
        let has_next = i + 1 < c.len();
        let mut step: usize = 1;
        match mode {
            QuoteMode::Plain => {
                if ch == '\'' {
                    out.push(ch);
                    mode = QuoteMode::Single;
                } else if ch == '"' || ch == '`' {
                    mode = QuoteMode::Delimited(ch);
                } else if ch == '[' {
                    mode = QuoteMode::Bracket;
                } else if ch == ';' || is_whitespace_char(ch) {
                } else {
                    append_chars(&mut out, lowercase_of(ch));
                }
            },
            QuoteMode::Single => {
                out.push(ch);
                if ch == '\'' {
                    if has_next && c[i + 1] == '\'' {
                        out.push('\'');
                        step = 2;
                    } else {
                        mode = QuoteMode::Plain;
                    }
                }
            },
            QuoteMode::Delimited(d) => {
                if ch == d {
                    if has_next && c[i + 1] == d {
                        out.push(d);
                        step = 2;
                    } else {
                        mode = QuoteMode::Plain;
                    }
                } else {
                    append_chars(&mut out, lowercase_of(ch));
                }
            },
            QuoteMode::Bracket => {
                if ch == ']' {
                    mode = QuoteMode::Plain;
                } else {
                    append_chars(&mut out, lowercase_of(ch));
                }
            },
        }
        proof {
            let rest = c@.skip(i + step);
            assert(old_out + schema_norm(s, old_mode) == schema_norm(c@, QuoteMode::Plain));
            assert(out@ + schema_norm(rest, mode) =~= old_out + schema_norm(s, old_mode));
        }
        i = i + step;
    }
    assert(c@.skip(c@.len() as int) =~= Seq::<char>::empty());
    assert(out@ + Seq::<char>::empty() =~= out@);
    string_from_chars(out.as_slice())
}

} // verus!
