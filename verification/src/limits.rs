//! Bounds that the store enforces on what it is given, and the checks of them.
use vstd::prelude::*;
use crate::error::{invalid, PageError, StoreError};
use crate::outside::{hex_decode, spec_hex_decode};
use crate::records::{AttachmentBlobInput, LxmfTicketRecord};
use crate::text::{all_lower_hex, chars_of, is_lower_hex_of_len, str_eq, utf8_len};

verus! {

pub const MAX_MESSAGE_QUERY_LIMIT: usize = 256;
pub const MAX_MESSAGE_PROJECTION_BYTES: usize = 12 * 1024 * 1024;
pub const MAX_DRAFT_BYTES: usize = 64 * 1024;
pub const MAX_RETAINED_DRAFTS: usize = 128;
pub const MAX_DRAFT_AGGREGATE_BYTES: usize = 4 * 1024 * 1024;
pub const MAX_CONTACT_ALIAS_BYTES: usize = 256;
pub const MAX_CONTACT_NOTES_BYTES: usize = 4096;
pub const MAX_SEARCH_QUERY_BYTES: usize = 1024;
pub const MAX_ATTACHMENT_BLOB_BYTES: usize = 768 * 1024;
pub const MAX_ATTACHMENT_BLOB_AGGREGATE_BYTES: usize = 64 * 1024 * 1024;
pub const MAX_ATTACHMENT_BLOB_COUNT: usize = 4096;
pub const MAX_ATTACHMENTS_PER_MESSAGE: usize = 8;
pub const MAX_ATTACHMENT_CHUNK_BYTES: usize = 256 * 1024;
pub const MAX_DELIVERY_EVIDENCE_PER_MESSAGE: usize = 32;
pub const DELIVERY_EVIDENCE_RETENTION_SECS: i64 = 30 * 24 * 60 * 60;
pub const MESSAGE_PROJECTION_OVERHEAD_BYTES: usize = 4096;
/// Largest stamp cost, in bits, that LXMF peers announce or require.
pub const MAX_STAMP_COST: u32 = 254;
/// Length in bytes of an LXMF delivery ticket.
pub const TICKET_LENGTH: usize = 16;
/// How long after expiry an issued ticket is still honoured.
pub const TICKET_GRACE_SECS: i64 = 5 * 24 * 60 * 60;
pub const MAX_PEER_KEY_BYTES: usize = 128;
pub const MAX_RETAINED_TICKETS: usize = 2048;

/// Whether `limit` is an accepted message query limit.
pub open spec fn message_limit_ok(limit: usize) -> bool {
    limit <= MAX_MESSAGE_QUERY_LIMIT
}

/// The limit of a message query as SQLite takes it; fails above the maximum.
pub fn validated_message_limit(limit: usize) -> (r: Result<i64, StoreError>)
    ensures
        r is Ok <==> message_limit_ok(limit),
        r matches Ok(v) ==> v == limit,
        r matches Err(e) ==> e is InvalidParameter,
{
    if limit > MAX_MESSAGE_QUERY_LIMIT {
        return Err(invalid("message query limit exceeds maximum"));
    }
    Ok(limit as i64)
}

/// Whether `limit` is an accepted page size.
pub open spec fn page_limit_ok(limit: usize) -> bool {
    1 <= limit <= MAX_MESSAGE_QUERY_LIMIT
}

/// A page size between 1 and the query maximum.
pub fn validated_page_limit(limit: usize) -> (r: Result<usize, PageError>)
    ensures
        r is Ok <==> page_limit_ok(limit),
        r matches Ok(v) ==> v == limit,
        r matches Err(e) ==> e is InvalidCursor,
{
    if !(1 <= limit && limit <= MAX_MESSAGE_QUERY_LIMIT) {
        return Err(PageError::InvalidCursor(crate::text::owned("page limit must be between 1 and 256")));
    }
    Ok(limit)
}

/// Whether `peer` names a peer canonically: 32 lowercase hexadecimal digits.
pub open spec fn canonical_peer(peer: Seq<char>) -> bool {
    peer.len() == 32 && all_lower_hex(peer)
}

/// The 16 bytes that a canonical peer hash stands for.
pub fn canonical_peer_bytes(peer_hash: &str) -> (r: Result<[u8; 16], PageError>)
    ensures
        r is Ok <==> canonical_peer(peer_hash@),
        r matches Ok(bytes) ==> bytes@ == spec_hex_decode(peer_hash@),
        r matches Err(e) ==> e is InvalidCursor,
{
    if !is_lower_hex_of_len(peer_hash, 32) {
        return Err(PageError::InvalidCursor(crate::text::owned("peer hash must be 32 lowercase hex characters")));
    }
    proof {
        assert forall|i: int| 0 <= i < peer_hash@.len() implies crate::text::is_hex_char(#[trigger] peer_hash@[i]) by {
            assert(crate::text::is_lower_hex_char(peer_hash@[i]));
        }
    }
    match hex_decode(peer_hash) {
        Some(bytes) => {
            proof { lemma_hex_decode_len(peer_hash@); }
            let mut out = [0u8; 16];
            let mut i: usize = 0;
            while i < 16
                invariant
                    bytes@.len() == 16,
                    i <= 16,
                    forall|j: int| 0 <= j < i ==> out@[j] == bytes@[j],
                decreases 16 - i,
            {
                out[i] = bytes[i];
                i = i + 1;
            }
            assert(out@ =~= bytes@);
            Ok(out)
        },
        None => Err(PageError::InvalidCursor(crate::text::owned("peer hash is malformed"))),
    }
}

/// Decoding `2n` hex digits yields `n` bytes.
pub proof fn lemma_hex_decode_len(s: Seq<char>)
    requires
        s.len() % 2 == 0,
    ensures
        spec_hex_decode(s).len() == s.len() / 2,
    decreases s.len(),
{
    if s.len() >= 2 {
        lemma_hex_decode_len(s.skip(2));
    }
}

/// Whether the attachment metadata is within the stored bounds.
pub open spec fn attachment_input_ok(input: AttachmentBlobInput) -> bool {
    &&& 1 <= utf8_len(input.wire_name@) <= 255
    &&& input.data@.len() <= MAX_ATTACHMENT_BLOB_BYTES
    &&& crate::text::one_of(
        input.source@,
        seq!["canonical_binary"@, "rust_integer_array"@, "local"@],
    )
    &&& (input.content_type matches Some(ct) ==> {
        &&& utf8_len(ct@) <= 255
        &&& forall|i: int| 0 <= i < ct@.len() ==> printable_ascii(#[trigger] ct@[i])
    })
}

/// Whether `c` is printable ASCII, space through tilde.
pub open spec fn printable_ascii(c: char) -> bool {
    ' ' <= c && c <= '~'
}

/// Whether every character of `s` is printable ASCII.
pub fn all_printable_ascii(s: &str) -> (r: bool)
    ensures
        r == forall|i: int| 0 <= i < s@.len() ==> printable_ascii(#[trigger] s@[i]),
{
    let c = chars_of(s);
    let mut i: usize = 0;
    while i < c.len()
        invariant
            c@ == s@,
            i <= c.len(),
            forall|j: int| 0 <= j < i ==> printable_ascii(#[trigger] c@[j]),
        decreases c.len() - i,
    {
        if !(' ' <= c[i] && c[i] <= '~') {
            return false;
        }
        i = i + 1;
    }
    true
}

/// Whether `s` is one of `a`, `b`, `c`.
pub fn is_one_of3(s: &str, a: &str, b: &str, c: &str) -> (r: bool)
    ensures
        r == crate::text::one_of(s@, seq![a@, b@, c@]),
{
    let r = str_eq(s, a) || str_eq(s, b) || str_eq(s, c);
    proof {
        let opts = seq![a@, b@, c@];
        if r {
            if s@ == a@ {
                assert(opts[0] == s@);
            } else if s@ == b@ {
                assert(opts[1] == s@);
            } else {
                assert(opts[2] == s@);
            }
        }
    }
    r
}

/// Checks the metadata of one attachment.
pub fn validate_attachment_input(input: &AttachmentBlobInput) -> (r: Result<(), StoreError>)
    ensures
        r is Ok <==> attachment_input_ok(*input),
        r matches Err(e) ==> e is InvalidParameter,
{
    let name_len = input.wire_name.as_str().len();
    let source_ok = is_one_of3(input.source.as_str(), "canonical_binary", "rust_integer_array", "local");
    let content_ok = match &input.content_type {
        Some(value) => value.as_str().len() <= 255 && all_printable_ascii(value.as_str()),
        None => true,
    };
    if !(1 <= name_len && name_len <= 255) || input.data.len() > MAX_ATTACHMENT_BLOB_BYTES
        || !source_ok || !content_ok
    {
        return Err(invalid("invalid LXMF attachment metadata"));
    }
    Ok(())
}

/// Whether a ticket record is acceptable to store.
pub open spec fn ticket_ok(record: LxmfTicketRecord) -> bool {
    &&& utf8_len(record.peer@) <= MAX_PEER_KEY_BYTES
    &&& record.ticket@.len() == TICKET_LENGTH
    &&& (record.direction@ == "issued"@ || record.direction@ == "received"@)
}

/// Checks a ticket: a bounded peer key, the ticket length, and a direction of
/// `issued` or `received`.
pub fn validate_ticket(record: &LxmfTicketRecord) -> (r: Result<(), StoreError>)
    ensures
        r is Ok <==> ticket_ok(*record),
        r matches Err(e) ==> e is InvalidParameter,
{
    if record.peer.as_str().len() > MAX_PEER_KEY_BYTES || record.ticket.len() != TICKET_LENGTH
        || !(str_eq(record.direction.as_str(), "issued") || str_eq(
        record.direction.as_str(),
        "received",
    )) {
        return Err(invalid("invalid LXMF ticket"));
    }
    Ok(())
}

/// Whether a delivery evidence id and kind are acceptable: 64 lowercase hex
/// digits, and a kind of `packet` or `resource`.
pub open spec fn evidence_ok(evidence_id: Seq<char>, kind: Seq<char>) -> bool {
    &&& evidence_id.len() == 64
    &&& all_lower_hex(evidence_id)
    &&& (kind == "packet"@ || kind == "resource"@)
}

/// Checks a delivery evidence id and kind.
pub fn validate_evidence(evidence_id: &str, kind: &str) -> (r: Result<(), StoreError>)
    ensures
        r is Ok <==> evidence_ok(evidence_id@, kind@),
        r matches Err(e) ==> e is InvalidParameter,
{
    if !is_lower_hex_of_len(evidence_id, 64) || !(str_eq(kind, "packet") || str_eq(kind, "resource")) {
        return Err(invalid("delivery evidence must be a 32-byte lowercase hexadecimal hash"));
    }
    Ok(())
}

/// Whether a search request is acceptable: a limit of 1 to the maximum and a
/// query of 1 to the maximum UTF-8 bytes.
pub open spec fn search_ok(query: &str, limit: usize) -> bool {
    &&& 1 <= limit <= MAX_MESSAGE_QUERY_LIMIT
    &&& 1 <= utf8_len(query@) <= MAX_SEARCH_QUERY_BYTES
}

/// Checks a search request.
pub fn validate_search(query: &str, limit: usize) -> (r: Result<(), StoreError>)
    ensures
        r is Ok <==> search_ok(query, limit),
        r matches Err(e) ==> e is InvalidParameter,
{
    if !(1 <= limit && limit <= MAX_MESSAGE_QUERY_LIMIT) {
        return Err(invalid("search limit must be between 1 and 256"));
    }
    let len = query.len();
    if len == 0 || len > MAX_SEARCH_QUERY_BYTES {
        return Err(invalid("search query must be 1..=1024 UTF-8 bytes"));
    }
    Ok(())
}

/// One character of a query as a `LIKE` pattern with `\` as escape character.
pub open spec fn like_escape_char(c: char) -> Seq<char> {
    if c == '\\' || c == '%' || c == '_' {
        seq!['\\', c]
    } else {
        seq![c]
    }
}

/// The SQL `LIKE` text that matches `q` literally with `\` as the escape
/// character: `\`, `%` and `_` are each preceded by `\`.
pub open spec fn like_escaped(q: Seq<char>) -> Seq<char>
    decreases q.len(),
{
    if q.len() == 0 {
        Seq::empty()
    } else {
        like_escape_char(q[0]) + like_escaped(q.drop_first())
    }
}

proof fn lemma_like_escaped_push(p: Seq<char>, c: char)
    ensures
        like_escaped(p.push(c)) == like_escaped(p) + like_escape_char(c),
    decreases p.len(),
{
    if p.len() == 0 {
        assert(p.push(c).drop_first() =~= Seq::<char>::empty());
        assert(p.push(c)[0] == c);
        assert(like_escaped(Seq::<char>::empty()) == Seq::<char>::empty());
        assert(like_escaped(p) == Seq::<char>::empty());
        assert(like_escaped(p.push(c)) =~= like_escape_char(c) + like_escaped(Seq::<char>::empty()));
    } else {
        assert(p.push(c).drop_first() =~= p.drop_first().push(c));
        lemma_like_escaped_push(p.drop_first(), c);
        assert(like_escaped(p.push(c)) =~= like_escaped(p) + like_escape_char(c));
    }
}

/// The text that a `LIKE` pattern written with `\` as escape character
/// matches literally, when it has no unescaped wildcard.
pub open spec fn like_unescaped(p: Seq<char>) -> Seq<char>
    decreases p.len(),
{
    if p.len() == 0 {
        Seq::empty()
    } else if p[0] == '\\' && p.len() >= 2 {
        seq![p[1]] + like_unescaped(p.skip(2))
    } else {
        seq![p[0]] + like_unescaped(p.drop_first())
    }
}

/// Whether the pattern `p` has a `%` or `_` that is not escaped.
pub open spec fn has_unescaped_wildcard(p: Seq<char>) -> bool
    decreases p.len(),
{
    if p.len() == 0 {
        false
    } else if p[0] == '\\' && p.len() >= 2 {
        has_unescaped_wildcard(p.skip(2))
    } else {
        p[0] == '%' || p[0] == '_' || has_unescaped_wildcard(p.drop_first())
    }
}

/// Escaping a query makes a pattern without wildcards that stands for the query itself.
pub proof fn lemma_like_escape_literal(q: Seq<char>)
    ensures
        like_unescaped(like_escaped(q)) == q,
        !has_unescaped_wildcard(like_escaped(q)),
    decreases q.len(),
{
    if q.len() > 0 {
        lemma_like_escape_literal(q.drop_first());
        let c = q[0];
        let e = like_escaped(q);
        let rest = like_escaped(q.drop_first());
        if c == '\\' || c == '%' || c == '_' {
            assert(e =~= seq!['\\', c] + rest);
            assert(e.skip(2) =~= rest);
            assert(e[0] == '\\' && e[1] == c);
        } else {
            assert(e =~= seq![c] + rest);
            assert(e.drop_first() =~= rest);
        }
        assert(like_unescaped(e) =~= q);
    }
}

/// `q` escaped for a `LIKE ... ESCAPE '\' ` pattern.
pub fn escape_like(q: &str) -> (r: Vec<char>)
    ensures
        r@ == like_escaped(q@),
{
    let c = chars_of(q);
    let mut out: Vec<char> = Vec::new();
    let mut i: usize = 0;
    while i < c.len()
        invariant
            c@ == q@,
            i <= c.len(),
            out@ == like_escaped(c@.subrange(0, i as int)),
        decreases c.len() - i,
    {
        let ch = c[i];
        proof {
            assert(c@.subrange(0, i + 1) =~= c@.subrange(0, i as int).push(ch));
            lemma_like_escaped_push(c@.subrange(0, i as int), ch);
        }
        if ch == '\\' || ch == '%' || ch == '_' {
            out.push('\\');
        }
        out.push(ch);
        proof {
            assert(out@ =~= like_escaped(c@.subrange(0, i + 1)));
        }
        i = i + 1;
    }
    assert(c@.subrange(0, c@.len() as int) =~= c@);
    out
}

} // verus!
