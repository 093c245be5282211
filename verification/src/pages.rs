//! Paging through conversations: the checks a cursor must pass against the
//! store it is used on, and the page built from the rows of one query.
use vstd::prelude::*;
use crate::error::{PageError, StoreError};
use crate::limits::{canonical_peer, canonical_peer_bytes, page_limit_ok, validated_page_limit};
use crate::message_rows::{summary_from, summary_row, summary_row_ok};
use crate::outside::{hex_encode, spec_hex_decode};
use crate::records::{
    ConversationCursorFields, ConversationPage, ConversationSummary, MessageCursorFields, MessageProjectionPage,
    MessageRecord,
};
use crate::sql::{col_int, col_text, int_of, is_int_col, text_value, ArgView, SqlArg, SqlCall, SqlValue};
use crate::store::{int_arg, text_arg, MessagesStore};
use crate::sql::rows_view;
use crate::message_store::charged_messages_of;
use crate::text::bytes_eq;

verus! {

/// Whether a cursor was made by this store for the same unread filter.
pub open spec fn cursor_scope_ok(c: ConversationCursorFields, store_id: [u8; 16], unread_only: bool) -> bool {
    c.store_id@ == store_id@ && c.unread_only == unread_only
}

/// Checks a cursor against the store's id and conversation epoch: one from
/// another store or filter is invalid, one from an earlier epoch is stale.
pub fn check_conversation_cursor(
    cursor: Option<ConversationCursorFields>,
    store_id: [u8; 16],
    epoch: i64,
    unread_only: bool,
) -> (r: Result<(), PageError>)
    ensures
        cursor is None ==> r is Ok,
        cursor matches Some(c) ==> (r is Ok <==> cursor_scope_ok(c, store_id, unread_only) && c.conversation_epoch == epoch),
        cursor matches Some(c) ==> (!cursor_scope_ok(c, store_id, unread_only) <==> r matches Err(PageError::InvalidCursor(_))),
        cursor matches Some(c) ==> (cursor_scope_ok(c, store_id, unread_only) && c.conversation_epoch != epoch
            <==> r matches Err(PageError::CursorStale)),
{
    match cursor {
        None => Ok(()),
        Some(c) => {
            if !bytes_eq(&c.store_id, &store_id) || c.unread_only != unread_only {
                return Err(PageError::InvalidCursor(crate::text::owned("cursor scope does not match query")));
            }
            if c.conversation_epoch != epoch {
                return Err(PageError::CursorStale);
            }
            Ok(())
        },
    }
}

/// Checks a message cursor against the store's id and the queried peer: one
/// from another store or for another peer is invalid.
pub fn check_message_cursor(cursor: Option<MessageCursorFields>, store_id: [u8; 16], peer: [u8; 16]) -> (r: Result<
    (),
    PageError,
>)
    ensures
        cursor is None ==> r is Ok,
        cursor matches Some(c) ==> (r is Ok <==> c.store_id@ == store_id@ && c.peer@ == peer@),
        r is Err ==> r matches Err(PageError::InvalidCursor(_)),
{
    match cursor {
        None => Ok(()),
        Some(c) => {
            if !bytes_eq(&c.store_id, &store_id) || !bytes_eq(&c.peer, &peer) {
                return Err(PageError::InvalidCursor(crate::text::owned("cursor scope does not match query")));
            }
            Ok(())
        },
    }
}

/// Whether a row `peer, last_ts, last_content, unread, total, pinned, muted,
/// last_seq` reads as a conversation on a page.
pub open spec fn page_row_ok(row: Seq<SqlValue>) -> bool {
    summary_row_ok(row) && is_int_col(row, 1) && is_int_col(row, 7)
}

/// How many of `n` rows a page of at most `limit` items shows.
pub open spec fn shown(n: int, limit: usize) -> int {
    if n < limit {
        n
    } else {
        limit as int
    }
}

/// Whether `n` is the cursor after `row`, the last row a page shows, in the
/// given scope.
pub open spec fn next_cursor_from(
    row: Seq<SqlValue>,
    n: ConversationCursorFields,
    store_id: [u8; 16],
    snapshot_seq: i64,
    epoch: i64,
    unread_only: bool,
) -> bool {
    &&& n.store_id == store_id
    &&& n.snapshot_seq == snapshot_seq
    &&& n.conversation_epoch == epoch
    &&& n.unread_only == unread_only
    &&& n.pinned == (int_of(row[5]) != 0)
    &&& n.last_sort_timestamp == int_of(row[1])
    &&& n.last_ingest_seq == int_of(row[7])
    &&& n.peer@ == spec_hex_decode(text_value(row[0]).unwrap())
}

fn storage<T>(r: Result<T, StoreError>) -> (out: Result<T, PageError>)
    ensures
        r matches Ok(v) ==> out == Ok::<T, PageError>(v),
        r matches Err(e) ==> out == Err::<T, PageError>(PageError::Storage(e)),
{
    match r {
        Ok(v) => Ok(v),
        Err(e) => Err(PageError::Storage(e)),
    }
}

/// The page that the rows of one query make: the first `limit` summaries,
/// and a cursor after the last of them when more rows follow. It fails when
/// a row does not read as a conversation, or the last peer shown is not a
/// canonical peer hash.
pub fn conversation_page_from_rows(
    rows: &Vec<Vec<SqlValue>>,
    limit: usize,
    store_id: [u8; 16],
    snapshot_seq: i64,
    epoch: i64,
    unread_only: bool,
) -> (r: Result<ConversationPage, PageError>)
    requires
        limit >= 1,
    ensures
        r is Ok <==> (forall|k: int| 0 <= k < rows@.len() ==> page_row_ok(#[trigger] rows@[k]@)) && (rows@.len() > limit
            ==> canonical_peer(text_value(rows@[limit - 1]@[0]).unwrap())),
        r matches Ok(p) ==> p.items@.len() == shown(rows@.len() as int, limit),
        r matches Ok(p) ==> forall|i: int| 0 <= i < p.items@.len() ==> summary_from(rows@[i]@, #[trigger] p.items@[i]),
        r matches Ok(p) ==> (p.next_cursor is Some <==> rows@.len() > limit),
        r matches Ok(p) ==> (p.next_cursor matches Some(n) ==> next_cursor_from(
            rows@[limit - 1]@,
            n,
            store_id,
            snapshot_seq,
            epoch,
            unread_only,
        )),
{
    let mut items: Vec<ConversationSummary> = Vec::new();
    let mut i: usize = 0;
    while i < rows.len()
        invariant
            i <= rows@.len(),
            limit >= 1,
            items@.len() == shown(i as int, limit),
            forall|k: int| 0 <= k < i ==> page_row_ok(#[trigger] rows@[k]@),
            forall|k: int| 0 <= k < items@.len() ==> summary_from(rows@[k]@, #[trigger] items@[k]),
        decreases rows.len() - i,
    {
        let row = rows[i].as_slice();
        let s = storage(summary_row(row))?;
        storage(col_int(row, 1))?;
        storage(col_int(row, 7))?;
        if i < limit {
            items.push(s);
        }
        i = i + 1;
    }
    if rows.len() > limit {
        let row = rows[limit - 1].as_slice();
        assert(page_row_ok(rows@[limit - 1]@));
        let peer_text = storage(col_text(row, 0))?;
        let pinned = storage(col_int(row, 5))? != 0;
        let last_sort_timestamp = storage(col_int(row, 1))?;
        let last_ingest_seq = storage(col_int(row, 7))?;
        let peer = canonical_peer_bytes(peer_text.as_str())?;
        let next = ConversationCursorFields {
            store_id,
            snapshot_seq,
            conversation_epoch: epoch,
            unread_only,
            pinned,
            last_sort_timestamp,
            last_ingest_seq,
            peer,
        };
        Ok(ConversationPage { items, next_cursor: Some(next) })
    } else {
        Ok(ConversationPage { items, next_cursor: None })
    }
}

/// The query of one conversation page: the summaries of a fixed snapshot of
/// message keys, pinned first, then newest, after the cursor's boundary.
pub const CONVERSATION_PAGE_SQL: &'static str = "WITH eligible AS (
        SELECT k.message_id, k.ingest_seq, k.sort_timestamp, k.conversation_peer,
               m.content, m.direction, COALESCE(m.read, 0) AS is_read
        FROM message_page_keys k JOIN messages m ON m.id = k.message_id
        WHERE k.ingest_seq <= ?1
          AND length(k.conversation_peer) = 32
          AND k.conversation_peer NOT GLOB '*[^0-9a-f]*'
    ), peers AS (
        SELECT conversation_peer AS peer,
               SUM(CASE WHEN direction = 'in' AND is_read = 0 THEN 1 ELSE 0 END) AS unread,
               COUNT(*) AS total
        FROM eligible GROUP BY conversation_peer
    ), summaries AS (
        SELECT p.peer,
               (SELECT e.sort_timestamp FROM eligible e WHERE e.conversation_peer = p.peer
                ORDER BY e.sort_timestamp DESC, e.ingest_seq DESC LIMIT 1) AS last_ts,
               (SELECT e.ingest_seq FROM eligible e WHERE e.conversation_peer = p.peer
                ORDER BY e.sort_timestamp DESC, e.ingest_seq DESC LIMIT 1) AS last_seq,
               (SELECT e.content FROM eligible e WHERE e.conversation_peer = p.peer
                ORDER BY e.sort_timestamp DESC, e.ingest_seq DESC LIMIT 1) AS last_content,
               p.unread, p.total, COALESCE(s.pinned, 0) AS pinned,
               COALESCE(s.muted, 0) AS muted
        FROM peers p LEFT JOIN conversation_state s ON s.peer_hash = p.peer
    )
    SELECT peer, last_ts, last_content, unread, total, pinned, muted, last_seq
    FROM summaries
    WHERE (?2 = 0 OR unread > 0)
      AND (?3 IS NULL OR pinned < ?3
           OR (pinned = ?3 AND last_ts < ?4)
           OR (pinned = ?3 AND last_ts = ?4 AND last_seq < ?5)
           OR (pinned = ?3 AND last_ts = ?4 AND last_seq = ?5 AND peer > ?6))
    ORDER BY pinned DESC, last_ts DESC, last_seq DESC, peer ASC LIMIT ?7";

/// The query of one page of a peer's messages, with or without a boundary.
fn message_page_sql(after: bool) -> (r: &'static str) {
    if after {
        "SELECT m.id, m.source, m.destination, m.title, m.content, m.timestamp,
                m.direction, m.fields, m.receipt_status, COALESCE(m.read, 0),
                k.sort_timestamp, k.ingest_seq
         FROM message_page_keys k JOIN messages m ON m.id = k.message_id
         WHERE k.conversation_peer = ?1 AND k.ingest_seq <= ?2
           AND (k.sort_timestamp < ?3 OR
                (k.sort_timestamp = ?3 AND k.ingest_seq < ?4))
         ORDER BY k.sort_timestamp DESC, k.ingest_seq DESC LIMIT ?5"
    } else {
        "SELECT m.id, m.source, m.destination, m.title, m.content, m.timestamp,
                m.direction, m.fields, m.receipt_status, COALESCE(m.read, 0),
                k.sort_timestamp, k.ingest_seq
         FROM message_page_keys k JOIN messages m ON m.id = k.message_id
         WHERE k.conversation_peer = ?1 AND k.ingest_seq <= ?2
         ORDER BY k.sort_timestamp DESC, k.ingest_seq DESC LIMIT ?5"
    }
}

/// What a page of a peer's messages promises: at most `limit` items; a
/// cursor that was used is for this peer; a next cursor only after a full
/// page, for the same peer, in the same store and snapshot as the cursor used.
pub open spec fn message_page_ok(p: MessageProjectionPage, limit: usize, peer: Seq<u8>, cursor: Option<MessageCursorFields>) -> bool {
    &&& p.items@.len() <= limit
    &&& (cursor matches Some(c) ==> c.peer@ == peer)
    &&& (p.next_cursor matches Some(n) ==> {
        &&& p.items@.len() == limit
        &&& n.peer@ == peer
        &&& (cursor matches Some(c) ==> n.store_id@ == c.store_id@ && n.snapshot_seq == c.snapshot_seq)
    })
}

impl MessagesStore {
    /// A page of the messages exchanged with a peer, newest first, of at
    /// most `limit` items with their projections, read in one transaction
    /// from a fixed snapshot of message keys; messages and the canonical
    /// bytes they carry stay within the projection byte budget. A cursor
    /// from another store or for another peer is invalid.
    pub fn message_projection_page_for_peer(
        &mut self,
        peer_hash: &str,
        limit: usize,
        cursor: Option<MessageCursorFields>,
    ) -> (r: Result<MessageProjectionPage, PageError>)
        ensures
            !page_limit_ok(limit) ==> r matches Err(PageError::InvalidCursor(_)),
            !page_limit_ok(limit) ==> final(self)@ == old(self)@,
            page_limit_ok(limit) && !canonical_peer(peer_hash@) ==> r matches Err(PageError::InvalidCursor(_)),
            page_limit_ok(limit) && !canonical_peer(peer_hash@) ==> final(self)@ == old(self)@,
            r matches Ok(p) ==> message_page_ok(p, limit, spec_hex_decode(peer_hash@), cursor),
            r is Ok ==> crate::store::succeeded_atomically(old(self)@, final(self)@),
            r is Err ==> crate::store::failed_cleanly(old(self)@, final(self)@),
    {
        let limit = validated_page_limit(limit)?;
        let peer = canonical_peer_bytes(peer_hash)?;
        storage(self.begin())?;
        let done = self.message_page_step(peer_hash, peer, limit, cursor);
        match done {
            Ok(page) => match self.batch("COMMIT") {
                Ok(()) => Ok(page),
                Err(e) => {
                    let _ = self.batch("ROLLBACK");
                    Err(PageError::Storage(e))
                },
            },
            Err(e) => {
                let _ = self.batch("ROLLBACK");
                Err(e)
            },
        }
    }

    fn message_page_step(
        &mut self,
        peer_hash: &str,
        peer: [u8; 16],
        limit: usize,
        cursor: Option<MessageCursorFields>,
    ) -> (r: Result<MessageProjectionPage, PageError>)
        requires
            page_limit_ok(limit),
        ensures
            r matches Ok(p) ==> message_page_ok(p, limit, peer@, cursor),
    {
        let (store_id, _epoch) = storage(self.page_metadata())?;
        check_message_cursor(cursor, store_id, peer)?;
        let snapshot_seq = match cursor {
            Some(c) => c.snapshot_seq,
            None => storage(self.int_query("SELECT COALESCE(MAX(ingest_seq), 0) FROM message_page_keys", &[]))?,
        };
        let fetch = (limit + 1) as i64;
        let rows = match cursor {
            Some(c) => storage(self.rows(
                message_page_sql(true),
                &[text_arg(peer_hash), int_arg(snapshot_seq), int_arg(c.sort_timestamp), int_arg(c.ingest_seq), int_arg(fetch)],
            ))?,
            None => storage(self.rows(
                message_page_sql(false),
                &[text_arg(peer_hash), int_arg(snapshot_seq), SqlArg::Null, SqlArg::Null, int_arg(fetch)],
            ))?,
        };
        let mut used: usize = 0;
        let mut messages = storage(charged_messages_of(&rows, rows.len(), &mut used))?;
        let mut sort_timestamps: Vec<i64> = Vec::new();
        let mut ingest_seqs: Vec<i64> = Vec::new();
        let mut i: usize = 0;
        while i < rows.len()
            invariant
                i <= rows@.len(),
                sort_timestamps@.len() == i,
                ingest_seqs@.len() == i,
            decreases rows.len() - i,
        {
            sort_timestamps.push(storage(col_int(rows[i].as_slice(), 10))?);
            ingest_seqs.push(storage(col_int(rows[i].as_slice(), 11))?);
            i = i + 1;
        }
        let has_more = messages.len() > limit;
        let next_cursor = if has_more {
            Some(MessageCursorFields {
                store_id,
                snapshot_seq,
                peer,
                sort_timestamp: sort_timestamps[limit - 1],
                ingest_seq: ingest_seqs[limit - 1],
            })
        } else {
            None
        };
        messages.truncate(limit);
        let items = storage(self.load_projection_snapshots(messages, used))?;
        Ok(MessageProjectionPage { items, next_cursor })
    }

    /// The store's id and conversation epoch, read from its page metadata.
    fn page_metadata(&mut self) -> (r: Result<([u8; 16], i64), StoreError>) {
        let row = match self.first_row(
            "SELECT store_id, conversation_epoch FROM message_page_metadata
             WHERE singleton = 1
               AND typeof(store_id) = 'blob' AND length(store_id) = 16
               AND typeof(conversation_epoch) = 'integer'
               AND conversation_epoch BETWEEN 0 AND 9223372036854775807
               AND typeof(cursor_secret) = 'blob' AND length(cursor_secret) = 32",
            &[],
        )? {
            Some(row) => row,
            None => return Err(StoreError::QueryReturnedNoRows),
        };
        let store_id = crate::sql::col_array::<16>(row.as_slice(), 0)?;
        let epoch = col_int(row.as_slice(), 1)?;
        Ok((store_id, epoch))
    }

    /// A page of conversation summaries, pinned first and then newest, of
    /// at most `limit` items, read in one transaction from a fixed snapshot
    /// of message keys. A cursor from another store or another unread
    /// filter is invalid; one from before a conversation was changed or
    /// deleted is stale. The next cursor continues in the same scope after
    /// the page's last summary.
    pub fn conversation_page(
        &mut self,
        unread_only: bool,
        limit: usize,
        cursor: Option<ConversationCursorFields>,
    ) -> (r: Result<ConversationPage, PageError>)
        ensures
            !page_limit_ok(limit) ==> r matches Err(PageError::InvalidCursor(_)),
            !page_limit_ok(limit) ==> final(self)@ == old(self)@,
            r matches Ok(p) ==> page_ok(p, limit, unread_only, cursor),
            r matches Ok(p) ==> final(self)@.len() >= 2 && page_query(final(self)@[final(self)@.len() - 2], p, limit, unread_only, cursor),
            r is Ok ==> crate::store::succeeded_atomically(old(self)@, final(self)@),
            r is Err ==> crate::store::failed_cleanly(old(self)@, final(self)@),
    {
        let limit = validated_page_limit(limit)?;
        storage(self.begin())?;
        let done = self.conversation_page_step(unread_only, limit, cursor);
        match done {
            Ok(page) => match self.batch("COMMIT") {
                Ok(()) => Ok(page),
                Err(e) => {
                    let _ = self.batch("ROLLBACK");
                    Err(PageError::Storage(e))
                },
            },
            Err(e) => {
                let _ = self.batch("ROLLBACK");
                Err(e)
            },
        }
    }

    fn conversation_page_step(
        &mut self,
        unread_only: bool,
        limit: usize,
        cursor: Option<ConversationCursorFields>,
    ) -> (r: Result<ConversationPage, PageError>)
        requires
            page_limit_ok(limit),
        ensures
            r matches Ok(p) ==> page_ok(p, limit, unread_only, cursor),
            r matches Ok(p) ==> final(self)@.len() >= 1 && page_query(final(self)@.last(), p, limit, unread_only, cursor),
    {
        let (store_id, epoch) = storage(self.page_metadata())?;
        check_conversation_cursor(cursor, store_id, epoch, unread_only)?;
        let snapshot_seq = match cursor {
            Some(c) => c.snapshot_seq,
            None => storage(self.int_query("SELECT COALESCE(MAX(ingest_seq), 0) FROM message_page_keys", &[]))?,
        };
        let unread_arg: i64 = if unread_only {
            1
        } else {
            0
        };
        let (pinned_arg, ts_arg, seq_arg, peer_arg) = match cursor {
            Some(c) => {
                let pinned: i64 = if c.pinned {
                    1
                } else {
                    0
                };
                let peer = hex_encode(&c.peer);
                (int_arg(pinned), int_arg(c.last_sort_timestamp), int_arg(c.last_ingest_seq), text_arg(peer.as_str()))
            },
            None => (SqlArg::Null, SqlArg::Null, SqlArg::Null, SqlArg::Null),
        };
        let fetch = (limit + 1) as i64;
        let rows = storage(self.rows(
            CONVERSATION_PAGE_SQL,
            &[int_arg(snapshot_seq), int_arg(unread_arg), pinned_arg, ts_arg, seq_arg, peer_arg, int_arg(fetch)],
        ))?;
        let page = conversation_page_from_rows(&rows, limit, store_id, snapshot_seq, epoch, unread_only)?;
        proof {
            if page.next_cursor is Some {
                assert(summary_from(rows@[limit - 1]@, page.items@[limit - 1]));
            }
            let rv = rows_view(rows@);
            assert forall|i: int| 0 <= i < page.items@.len() implies summary_from(rv[i], #[trigger] page.items@[i]) by {
                assert(rv[i] == rows@[i]@);
            }
            if rows@.len() > limit {
                assert(rv[limit - 1] == rows@[limit - 1]@);
            }
            assert(page_from_rows(page, rv, limit, unread_only));
        }
        Ok(page)
    }
}

/// Whether page `p` is what the rows of its query make: the first `limit`
/// summaries, each holding its row, and a next cursor exactly when more rows
/// follow, after the last summary shown and under the same filter.
pub open spec fn page_from_rows(p: ConversationPage, rows: Seq<Seq<SqlValue>>, limit: usize, unread_only: bool) -> bool {
    &&& p.items@.len() == shown(rows.len() as int, limit)
    &&& forall|i: int| 0 <= i < p.items@.len() ==> summary_from(rows[i], #[trigger] p.items@[i])
    &&& (p.next_cursor is Some <==> rows.len() > limit)
    &&& (p.next_cursor matches Some(n) ==> {
        &&& n.unread_only == unread_only
        &&& n.pinned == (int_of(rows[limit - 1][5]) != 0)
        &&& n.last_sort_timestamp == int_of(rows[limit - 1][1])
        &&& n.last_ingest_seq == int_of(rows[limit - 1][7])
        &&& n.peer@ == spec_hex_decode(text_value(rows[limit - 1][0]).unwrap())
    })
}

/// Whether `a` are the parameters of a page query: snapshot, unread filter,
/// the cursor's boundary (pin, time, sequence, peer in hex; all `NULL`
/// without a cursor) and one more row than the page holds.
pub open spec fn page_args(a: Seq<ArgView>, limit: usize, unread_only: bool, cursor: Option<ConversationCursorFields>) -> bool {
    &&& a.len() == 7
    &&& a[1] == ArgView::Int(if unread_only { 1i64 } else { 0i64 })
    &&& a[6] == ArgView::Int((limit + 1) as i64)
    &&& (cursor matches Some(c) ==> {
        &&& a[0] == ArgView::Int(c.snapshot_seq)
        &&& a[2] == ArgView::Int(if c.pinned { 1i64 } else { 0i64 })
        &&& a[3] == ArgView::Int(c.last_sort_timestamp)
        &&& a[4] == ArgView::Int(c.last_ingest_seq)
        &&& a[5] == ArgView::Text(crate::outside::spec_hex_encode(c.peer@))
    })
    &&& (cursor is None ==> a[2] == ArgView::Null && a[3] == ArgView::Null && a[4] == ArgView::Null && a[5] == ArgView::Null)
}

/// Whether `call` is the page query, with its parameters, and `p` the page
/// its rows make.
pub open spec fn page_query(call: SqlCall, p: ConversationPage, limit: usize, unread_only: bool, cursor: Option<ConversationCursorFields>) -> bool {
    call matches SqlCall::Query(q, a, Some(rows)) && q == CONVERSATION_PAGE_SQL@ && page_args(a, limit, unread_only, cursor)
        && page_from_rows(p, rows, limit, unread_only)
}

/// What a conversation page promises: at most `limit` items; a cursor that
/// was used fits the query's filter; a next cursor only after a full page,
/// in the same scope as the cursor used, after the page's last summary.
pub open spec fn page_ok(p: ConversationPage, limit: usize, unread_only: bool, cursor: Option<ConversationCursorFields>) -> bool {
    &&& p.items@.len() <= limit
    &&& (cursor matches Some(c) ==> c.unread_only == unread_only)
    &&& (p.next_cursor matches Some(n) ==> {
        &&& p.items@.len() == limit
        &&& n.unread_only == unread_only
        &&& n.pinned == p.items@[limit - 1].pinned
        &&& Some(n.last_sort_timestamp) == p.items@[limit - 1].last_message_timestamp
        &&& (cursor matches Some(c) ==> n.store_id@ == c.store_id@ && n.conversation_epoch == c.conversation_epoch
            && n.snapshot_seq == c.snapshot_seq)
    })
}

} // verus!
