//! Conversations with a peer: reading and clearing unread state, deleting
//! messages while their delivery allows it, search, per-conversation flags,
//! drafts and contacts.
use vstd::prelude::*;
use crate::error::{invalid, StoreError};
use crate::lifecycle::{
    contact_outcome_kind, delete_conflicts, delete_is_blocked, flag_outcome_spec, mark_read_outcome_of,
    mark_read_outcome_spec, message_delete_outcome_spec, opt_str_eq,
};
use crate::limits::{
    escape_like, like_escaped, search_ok, validate_search, MAX_CONTACT_ALIAS_BYTES, MAX_CONTACT_NOTES_BYTES,
    MAX_DRAFT_AGGREGATE_BYTES, MAX_DRAFT_BYTES, MAX_RETAINED_DRAFTS,
};
use crate::message_rows::{draft_row, listed_contact_row, message_row, summary_row};
use crate::message_store::{copy_message, nonneg_u64};
use crate::records::{
    ContactMutationOutcome, ContactRecord, ConversationDraft, ConversationMutationOutcome, ConversationSummary,
    MessageMutationOutcome, MessageProjectionSnapshot, MessageRecord, MessageSearchSnapshot, MutationDisposition,
};
use crate::sql::{col_int, col_opt_text, col_text, ArgView, SqlArg, SqlCall, SqlValue};
use crate::store::{int_arg, opt_text_arg, text_arg, unix_now, MessagesStore};
use crate::text::{opt_view, str_eq, string_from_chars, utf8_len};

verus! {

/// The `LIKE` pattern that finds `query` anywhere in a text, literally.
pub open spec fn search_pattern_of(query: Seq<char>) -> Seq<char> {
    seq!['%'] + like_escaped(query) + seq!['%']
}

/// `search_pattern_of` computed.
pub fn search_pattern(query: &str) -> (r: String)
    ensures
        r@ == search_pattern_of(query@),
{
    let escaped = escape_like(query);
    let mut out: Vec<char> = Vec::new();
    out.push('%');
    let mut i: usize = 0;
    while i < escaped.len()
        invariant
            i <= escaped.len(),
            out@ == seq!['%'] + escaped@.subrange(0, i as int),
        decreases escaped.len() - i,
    {
        out.push(escaped[i]);
        assert(escaped@.subrange(0, i + 1) =~= escaped@.subrange(0, i as int).push(escaped@[i as int]));
        i = i + 1;
    }
    assert(escaped@.subrange(0, escaped@.len() as int) =~= escaped@);
    out.push('%');
    string_from_chars(out.as_slice())
}

/// Whether a contact's alias and notes are within their byte bounds.
pub open spec fn contact_fields_ok(alias: Option<&str>, notes: Option<&str>) -> bool {
    &&& (alias matches Some(a) ==> utf8_len(a@) <= MAX_CONTACT_ALIAS_BYTES)
    &&& (notes matches Some(n) ==> utf8_len(n@) <= MAX_CONTACT_NOTES_BYTES)
}

/// The view of an optional borrowed string.
pub open spec fn opt_str_view(o: Option<&str>) -> Option<Seq<char>> {
    match o {
        Some(s) => Some(s@),
        None => None,
    }
}

/// The outcome of a contact upsert: `Unchanged` with the stored contact when
/// it already held the alias and notes, otherwise `Created` or `Updated`
/// with one affected contact.
pub open spec fn contact_outcome_ok(out: ContactMutationOutcome, alias: Option<&str>, notes: Option<&str>) -> bool {
    &&& out.contact is Some
    &&& (out.disposition == MutationDisposition::Unchanged ==> out.affected_count == 0 && opt_view(
        out.contact->0.alias,
    ) == opt_str_view(alias) && opt_view(out.contact->0.notes) == opt_str_view(notes))
    &&& (out.disposition == MutationDisposition::Created || out.disposition == MutationDisposition::Updated)
        ==> out.affected_count == 1
    &&& (out.disposition == MutationDisposition::Unchanged || out.disposition == MutationDisposition::Created
        || out.disposition == MutationDisposition::Updated)
}

/// The statement that lists conversations.
fn conversations_sql(unread_only: bool) -> (r: &'static str) {
    if unread_only {
        "SELECT g.peer, g.last_ts,
                (SELECT m2.content FROM messages m2
                 WHERE (CASE WHEN m2.direction = 'out' THEN
                            CASE WHEN length(m2.destination) = 32
                                      AND m2.destination NOT GLOB '*[^0-9A-Fa-f]*'
                                 THEN lower(m2.destination) ELSE m2.destination END
                        ELSE CASE WHEN length(m2.source) = 32
                                      AND m2.source NOT GLOB '*[^0-9A-Fa-f]*'
                                 THEN lower(m2.source) ELSE m2.source END END) = g.peer
                 ORDER BY m2.timestamp DESC, m2.id DESC LIMIT 1) AS last_content,
                g.unread, g.total, COALESCE(s.pinned, 0), COALESCE(s.muted, 0)
                FROM (
                    SELECT CASE WHEN direction = 'out' THEN
                                CASE WHEN length(destination) = 32
                                          AND destination NOT GLOB '*[^0-9A-Fa-f]*'
                                     THEN lower(destination) ELSE destination END
                                ELSE CASE WHEN length(source) = 32
                                               AND source NOT GLOB '*[^0-9A-Fa-f]*'
                                          THEN lower(source) ELSE source END END AS peer,
                           MAX(timestamp) AS last_ts,
                           SUM(CASE WHEN direction = 'in' AND COALESCE(read, 0) = 0 THEN 1 ELSE 0 END) AS unread,
                           COUNT(*) AS total
                    FROM messages GROUP BY peer
                ) g
                LEFT JOIN conversation_state s ON s.peer_hash = g.peer WHERE g.unread > 0
             ORDER BY COALESCE(s.pinned, 0) DESC, g.last_ts DESC, g.peer ASC"
    } else {
        "SELECT g.peer, g.last_ts,
                (SELECT m2.content FROM messages m2
                 WHERE (CASE WHEN m2.direction = 'out' THEN
                            CASE WHEN length(m2.destination) = 32
                                      AND m2.destination NOT GLOB '*[^0-9A-Fa-f]*'
                                 THEN lower(m2.destination) ELSE m2.destination END
                        ELSE CASE WHEN length(m2.source) = 32
                                      AND m2.source NOT GLOB '*[^0-9A-Fa-f]*'
                                 THEN lower(m2.source) ELSE m2.source END END) = g.peer
                 ORDER BY m2.timestamp DESC, m2.id DESC LIMIT 1) AS last_content,
                g.unread, g.total, COALESCE(s.pinned, 0), COALESCE(s.muted, 0)
                FROM (
                    SELECT CASE WHEN direction = 'out' THEN
                                CASE WHEN length(destination) = 32
                                          AND destination NOT GLOB '*[^0-9A-Fa-f]*'
                                     THEN lower(destination) ELSE destination END
                                ELSE CASE WHEN length(source) = 32
                                               AND source NOT GLOB '*[^0-9A-Fa-f]*'
                                          THEN lower(source) ELSE source END END AS peer,
                           MAX(timestamp) AS last_ts,
                           SUM(CASE WHEN direction = 'in' AND COALESCE(read, 0) = 0 THEN 1 ELSE 0 END) AS unread,
                           COUNT(*) AS total
                    FROM messages GROUP BY peer
                ) g
                LEFT JOIN conversation_state s ON s.peer_hash = g.peer ORDER BY COALESCE(s.pinned, 0) DESC, g.last_ts DESC, g.peer ASC"
    }
}

impl MessagesStore {
    /// Whether any message was exchanged with `peer_hash`.
    fn conversation_exists(&mut self, peer_hash: &str) -> (r: Result<bool, StoreError>)
        ensures
            crate::store::extends(old(self)@, final(self)@),
            final(self)@.len() == old(self)@.len() + 1,
            r matches Ok(e) ==> existence_read(final(self)@.last(), peer_hash@, e),
    {
        let read_args = [text_arg(peer_hash)];
        assert(crate::sql::args_view(read_args@) =~= seq![ArgView::Text(peer_hash@)]);
        self.bool_query(CONVERSATION_EXISTS_SQL, &read_args)
    }

    /// The summary of the conversation with `peer_hash`, if it has messages.
    fn conversation_summary(&mut self, peer_hash: &str) -> (r: Result<Option<ConversationSummary>, StoreError>)
        ensures
            crate::store::extends(old(self)@, final(self)@),
    {
        match self.first_row(
            "SELECT ?1,
                    (SELECT timestamp FROM messages
                     WHERE lower(source) = ?1 OR lower(destination) = ?1
                     ORDER BY timestamp DESC, id DESC LIMIT 1),
                    (SELECT content FROM messages
                     WHERE lower(source) = ?1 OR lower(destination) = ?1
                     ORDER BY timestamp DESC, id DESC LIMIT 1),
                    SUM(CASE WHEN direction = 'in' AND lower(source) = ?1
                                  AND COALESCE(read, 0) = 0 THEN 1 ELSE 0 END),
                    COUNT(*), COALESCE(s.pinned, 0), COALESCE(s.muted, 0)
             FROM messages LEFT JOIN conversation_state s ON s.peer_hash = ?1
             WHERE lower(source) = ?1 OR lower(destination) = ?1
             HAVING COUNT(*) > 0",
            &[text_arg(peer_hash)],
        )? {
            Some(row) => Ok(Some(summary_row(row.as_slice())?)),
            None => Ok(None),
        }
    }

    /// Marks read every unread inbound message from a peer.
    pub fn mark_read_outcome(&mut self, peer_hash: &str) -> (r: Result<ConversationMutationOutcome, StoreError>)
        ensures
            r matches Ok(out) ==> exists|e: bool, n: nat, s: Option<ConversationSummary>|
                #[trigger] mark_read_outcome_spec(e, n, s, out) && mark_read_reads(final(self)@, old(self)@.len() + 1int, peer_hash@, e, n),
            r is Ok ==> crate::store::succeeded_atomically(old(self)@, final(self)@),
            r is Err ==> crate::store::failed_cleanly(old(self)@, final(self)@),
    {
        self.begin_immediate()?;
        let ghost began = self@;
        let done = self.mark_read_step(peer_hash);
        let ghost stepped = self@;
        let out = self.finish(done);
        proof {
            if out is Ok {
                let (e, n, s) = choose|e: bool, n: nat, s: Option<ConversationSummary>|
                    #[trigger] mark_read_outcome_spec(e, n, s, out->Ok_0) && mark_read_reads(stepped, began.len() as int, peer_hash@, e, n);
                let at = began.len() as int;
                assert(self@[at] == stepped[at]);
                if e {
                    assert(self@[at + 1] == stepped[at + 1]);
                }
            }
        }
        out
    }

    fn mark_read_step(&mut self, peer_hash: &str) -> (r: Result<ConversationMutationOutcome, StoreError>)
        ensures
            r matches Ok(out) ==> exists|e: bool, n: nat, s: Option<ConversationSummary>|
                #[trigger] mark_read_outcome_spec(e, n, s, out) && mark_read_reads(final(self)@, old(self)@.len() as int, peer_hash@, e, n),
    {
        if !self.conversation_exists(peer_hash)? {
            let out = mark_read_outcome_of(false, 0, None);
            assert(mark_read_outcome_spec(false, 0, None, out));
            assert(mark_read_reads(self@, old(self)@.len() as int, peer_hash@, false, 0));
            return Ok(out);
        }
        let ghost read = self@;
        let mark_args = [text_arg(peer_hash)];
        assert(crate::sql::args_view(mark_args@) =~= seq![ArgView::Text(peer_hash@)]);
        let count = self.exec(MARK_READ_SQL, &mark_args)?;
        let ghost marked = self@;
        let summary = self.conversation_summary(peer_hash)?;
        let ghost s = summary;
        let out = mark_read_outcome_of(true, count, summary);
        assert(mark_read_outcome_spec(true, count as nat, s, out));
        proof {
            let at = old(self)@.len() as int;
            assert(self@[at] == marked[at]);
            assert(self@[at + 1] == marked[at + 1]);
            assert(marked[at] == read[at]);
            assert(mark_read_reads(self@, at, peer_hash@, true, count as nat));
        }
        Ok(out)
    }

    /// Marks read every unread inbound message from a peer; returns how many.
    pub fn mark_read(&mut self, peer_hash: &str) -> (r: Result<u64, StoreError>)
        ensures
            r matches Ok(n) ==> exists|e: bool, c: nat, s: Option<ConversationSummary>, out: ConversationMutationOutcome|
                #[trigger] mark_read_outcome_spec(e, c, s, out) && n == out.affected_count,
            r is Ok ==> crate::store::succeeded_atomically(old(self)@, final(self)@),
            r is Err ==> crate::store::failed_cleanly(old(self)@, final(self)@),
    {
        let out = self.mark_read_outcome(peer_hash)?;
        Ok(out.affected_count)
    }

    /// Deletes the conversation with a peer: its messages, state and draft.
    /// Refused while one of its messages is still being delivered.
    pub fn delete_conversation_outcome(&mut self, peer_hash: &str) -> (r: Result<ConversationMutationOutcome, StoreError>)
        ensures
            r matches Ok(out) ==> out.disposition == MutationDisposition::NotFound
                || out.disposition == MutationDisposition::TerminalConflict
                || out.disposition == MutationDisposition::Applied,
            r matches Ok(out) ==> (out.disposition == MutationDisposition::TerminalConflict
                <==> out.terminal_state is Some),
    {
        let (outcome, _ids) = self.delete_conversation_outcome_with_ids(peer_hash)?;
        Ok(outcome)
    }

    /// `delete_conversation_outcome`, with the ids of the deleted messages.
    pub(crate) fn delete_conversation_outcome_with_ids(&mut self, peer_hash: &str) -> (r: Result<
        (ConversationMutationOutcome, Vec<String>),
        StoreError,
    >)
        ensures
            r matches Ok((out, ids)) ==> (out.disposition == MutationDisposition::NotFound
                || out.disposition == MutationDisposition::TerminalConflict
                || out.disposition == MutationDisposition::Applied),
            r matches Ok((out, ids)) ==> (out.disposition == MutationDisposition::TerminalConflict
                <==> out.terminal_state is Some),
            r matches Ok((out, ids)) ==> (out.disposition == MutationDisposition::Applied <==> ids@.len() > 0),
            r matches Ok((out, ids)) ==> (out.disposition != MutationDisposition::TerminalConflict
                ==> out.summary is None),
            r matches Ok((out, ids)) ==> (out.disposition != MutationDisposition::Applied ==> out.affected_count
                == 0),
            r matches Ok((out, ids)) ==> exists|read: Seq<Seq<char>>| final(self)@.len() > old(self)@.len() + 1
                && #[trigger] conversation_ids_read(final(self)@[old(self)@.len() + 1int], peer_hash@, read)
                && (out.disposition == MutationDisposition::NotFound <==> read.len() == 0)
                && (out.disposition == MutationDisposition::Applied ==> crate::text::views(ids@) == read),
            r is Ok ==> crate::store::succeeded_atomically(old(self)@, final(self)@),
            r is Err ==> crate::store::failed_cleanly(old(self)@, final(self)@),
    {
        self.begin_immediate()?;
        let ghost began = self@;
        let done = self.delete_conversation_step(peer_hash);
        let ghost stepped = self@;
        let out = self.finish(done);
        proof {
            if out is Ok {
                let read = choose|read: Seq<Seq<char>>| stepped.len() > began.len()
                    && #[trigger] conversation_ids_read(stepped[began.len() as int], peer_hash@, read)
                    && (out->Ok_0.0.disposition == MutationDisposition::NotFound <==> read.len() == 0)
                    && (out->Ok_0.0.disposition == MutationDisposition::Applied ==> crate::text::views(out->Ok_0.1@) == read);
                assert(self@[began.len() as int] == stepped[began.len() as int]);
            }
        }
        out
    }

    fn delete_conversation_step(&mut self, peer_hash: &str) -> (r: Result<
        (ConversationMutationOutcome, Vec<String>),
        StoreError,
    >)
        ensures
            r matches Ok((out, ids)) ==> (out.disposition == MutationDisposition::NotFound
                || out.disposition == MutationDisposition::TerminalConflict
                || out.disposition == MutationDisposition::Applied),
            r matches Ok((out, ids)) ==> (out.disposition == MutationDisposition::TerminalConflict
                <==> out.terminal_state is Some),
            r matches Ok((out, ids)) ==> (out.disposition == MutationDisposition::Applied <==> ids@.len() > 0),
            r matches Ok((out, ids)) ==> (out.disposition != MutationDisposition::TerminalConflict
                ==> out.summary is None),
            r matches Ok((out, ids)) ==> (out.disposition != MutationDisposition::Applied ==> out.affected_count
                == 0),
            r matches Ok((out, ids)) ==> exists|read: Seq<Seq<char>>| final(self)@.len() > old(self)@.len()
                && #[trigger] conversation_ids_read(final(self)@[old(self)@.len() as int], peer_hash@, read)
                && (out.disposition == MutationDisposition::NotFound <==> read.len() == 0)
                && (out.disposition == MutationDisposition::Applied ==> crate::text::views(ids@) == read),
    {
        let read_args = [text_arg(peer_hash)];
        assert(crate::sql::args_view(read_args@) =~= seq![ArgView::Text(peer_hash@)]);
        let rows = self.rows(CONVERSATION_IDS_SQL, &read_args)?;
        let ghost read_trace = self@;
        let ghost at: int = old(self)@.len() as int;
        let message_ids = crate::message_store::ids_of(&rows, rows.len())?;
        let ghost read = crate::text::views(message_ids@);
        proof {
            assert forall|k: int| 0 <= k < read.len() implies Some(#[trigger] read[k]) == crate::sql::text_value(
                crate::sql::rows_view(rows@)[k][0],
            ) by {
                assert(crate::sql::rows_view(rows@)[k] == rows@[k]@);
            }
            assert(conversation_ids_read(read_trace[at], peer_hash@, read));
        }
        if message_ids.len() == 0 {
            return Ok(
                (
                    ConversationMutationOutcome {
                        disposition: MutationDisposition::NotFound,
                        affected_count: 0,
                        summary: None,
                        terminal_state: None,
                    },
                    message_ids,
                ),
            );
        }
        let active_state = self.opt_text_query(
            "SELECT state FROM outbound_routes WHERE message_id IN (
                 SELECT id FROM messages WHERE lower(source) = ?1 OR lower(destination) = ?1
              ) AND state NOT IN ('delivered', 'failed', 'cancelled', 'expired', 'rejected')
                AND NOT (state = 'sent' AND actual_method = 'propagated')
             ORDER BY message_id LIMIT 1",
            &[text_arg(peer_hash)],
        )?;
        if let Some(state) = active_state {
            let summary = self.conversation_summary(peer_hash)?;
            assert(self@[at] == read_trace[at]);
            return Ok(
                (
                    ConversationMutationOutcome {
                        disposition: MutationDisposition::TerminalConflict,
                        affected_count: 0,
                        summary,
                        terminal_state: Some(state),
                    },
                    Vec::new(),
                ),
            );
        }
        self.detach_retry_children(message_ids.as_slice())?;
        self.tombstone_standard_propagation_links(message_ids.as_slice())?;
        let count = self.exec(
            "DELETE FROM messages WHERE lower(source) = ?1 OR lower(destination) = ?1",
            &[text_arg(peer_hash)],
        )?;
        self.gc_attachment_blobs()?;
        self.exec("DELETE FROM conversation_state WHERE peer_hash = ?1", &[text_arg(peer_hash)])?;
        self.exec("DELETE FROM conversation_drafts WHERE peer_hash = ?1", &[text_arg(peer_hash)])?;
        assert(self@[at] == read_trace[at]);
        Ok(
            (
                ConversationMutationOutcome {
                    disposition: MutationDisposition::Applied,
                    affected_count: count as u64,
                    summary: None,
                    terminal_state: None,
                },
                message_ids,
            ),
        )
    }

    /// Deletes the conversation with a peer; returns how many messages went.
    pub fn delete_conversation(&mut self, peer_hash: &str) -> (r: Result<u64, StoreError>) {
        Ok(self.delete_conversation_outcome(peer_hash)?.affected_count)
    }

    /// Deletes one message, unless its delivery is still in progress: a
    /// message without a route, with a terminal route, or sent to a
    /// propagation node may go.
    pub fn delete_message_outcome(&mut self, message_id: &str) -> (r: Result<MessageMutationOutcome, StoreError>)
        ensures
            r matches Ok(out) ==> exists|found: Option<(Option<Seq<char>>, Option<Seq<char>>)>, n: nat|
                #[trigger] message_delete_outcome_spec(found, n, out) && final(self)@.len() > old(self)@.len() + 1
                && delete_read(final(self)@[old(self)@.len() + 1int], message_id@, found),
            r is Ok ==> crate::store::succeeded_atomically(old(self)@, final(self)@),
            r is Err ==> crate::store::failed_cleanly(old(self)@, final(self)@),
    {
        self.begin_immediate()?;
        let ghost began = self@;
        let done = self.delete_message_step(message_id);
        let ghost stepped = self@;
        let out = self.finish(done);
        proof {
            if out is Ok {
                let (found, n) = choose|found: Option<(Option<Seq<char>>, Option<Seq<char>>)>, n: nat|
                    #[trigger] message_delete_outcome_spec(found, n, out->Ok_0) && stepped.len() > began.len()
                    && delete_read(stepped[began.len() as int], message_id@, found);
                assert(self@[began.len() as int] == stepped[began.len() as int]);
            }
        }
        out
    }

    fn delete_message_step(&mut self, message_id: &str) -> (r: Result<MessageMutationOutcome, StoreError>)
        ensures
            r matches Ok(out) ==> exists|found: Option<(Option<Seq<char>>, Option<Seq<char>>)>, n: nat|
                #[trigger] message_delete_outcome_spec(found, n, out) && final(self)@.len() > old(self)@.len()
                && delete_read(final(self)@[old(self)@.len() as int], message_id@, found),
    {
        let read_args = [text_arg(message_id)];
        assert(crate::sql::args_view(read_args@) =~= seq![ArgView::Text(message_id@)]);
        let row = self.first_row(MESSAGE_DELETE_READ_SQL, &read_args)?;
        let ghost read = self@;
        let ghost at: int = old(self)@.len() as int;
        proof {
            if row is None {
                assert(delete_read(read[at], message_id@, None));
            }
        }
        let row = match row {
            Some(row) => row,
            None => {
                let out = MessageMutationOutcome {
                    disposition: MutationDisposition::NotFound,
                    affected_count: 0,
                    terminal_state: None,
                };
                assert(message_delete_outcome_spec(None, 0, out));
                return Ok(out);
            },
        };
        let state = col_opt_text(row.as_slice(), 0)?;
        let method = col_opt_text(row.as_slice(), 1)?;
        let ghost found = Some((opt_view(state), opt_view(method)));
        assert(delete_read(read[at], message_id@, found));
        if delete_is_blocked(&state, &method) {
            let out = MessageMutationOutcome {
                disposition: MutationDisposition::TerminalConflict,
                affected_count: 0,
                terminal_state: state,
            };
            assert(message_delete_outcome_spec(found, 0, out));
            return Ok(out);
        }
        let ids = vec![crate::text::owned(message_id)];
        self.detach_retry_children(ids.as_slice())?;
        self.tombstone_standard_propagation_links(ids.as_slice())?;
        let count = self.exec("DELETE FROM messages WHERE id = ?1", &[text_arg(message_id)])?;
        self.gc_attachment_blobs()?;
        let out = MessageMutationOutcome {
            disposition: MutationDisposition::Applied,
            affected_count: count as u64,
            terminal_state: None,
        };
        assert(message_delete_outcome_spec(found, count as nat, out));
        assert(self@[at] == read[at]);
        Ok(out)
    }

    /// Deletes one message; true when it was deleted.
    pub fn delete_message(&mut self, message_id: &str) -> (r: Result<bool, StoreError>) {
        let out = self.delete_message_outcome(message_id)?;
        Ok(matches!(out.disposition, MutationDisposition::Applied))
    }

    // ── Search ──────────────────────────────────────────────────────────

    /// The messages whose content holds `query` literally, optionally only
    /// those of a peer, newest first, with their projections: at most
    /// `limit`, whether more matched, and how many matched in all.
    pub fn search_message_projection_outcome(
        &mut self,
        query: &str,
        peer_hash: Option<&str>,
        limit: usize,
    ) -> (r: Result<MessageSearchSnapshot, StoreError>)
        ensures
            !search_ok(query, limit) ==> (r matches Err(e) && e is InvalidParameter),
            !search_ok(query, limit) ==> final(self)@ == old(self)@,
            r matches Ok(out) ==> out.items@.len() <= limit,
            r matches Ok(out) ==> (out.truncated ==> out.items@.len() == limit),
            r is Ok ==> crate::store::succeeded_atomically(old(self)@, final(self)@),
            r is Err ==> crate::store::failed_cleanly(old(self)@, final(self)@),
    {
        validate_search(query, limit)?;
        self.begin()?;
        let done = self.search_step(query, peer_hash, limit);
        self.finish(done)
    }

    fn search_step(&mut self, query: &str, peer_hash: Option<&str>, limit: usize) -> (r: Result<
        MessageSearchSnapshot,
        StoreError,
    >)
        requires
            1 <= limit <= crate::limits::MAX_MESSAGE_QUERY_LIMIT,
        ensures
            r matches Ok(out) ==> out.items@.len() <= limit,
            r matches Ok(out) ==> (out.truncated ==> out.items@.len() == limit),
    {
        let pattern = search_pattern(query);
        let fetch_limit = limit + 1;
        let matched = match peer_hash {
            Some(peer) => self.int_query(
                "SELECT COUNT(*) FROM messages WHERE
                 (lower(source) = ?1 OR lower(destination) = ?1)
                 AND content LIKE ?2 ESCAPE '\\'",
                &[text_arg(peer), text_arg(pattern.as_str())],
            )?,
            None => self.int_query(
                "SELECT COUNT(*) FROM messages WHERE content LIKE ?1 ESCAPE '\\'",
                &[text_arg(pattern.as_str())],
            )?,
        };
        let rows = match peer_hash {
            Some(peer) => self.rows(
                "SELECT id, source, destination, title, content, timestamp, direction,
                        fields, receipt_status, COALESCE(read, 0)
                 FROM messages
                   WHERE (lower(source) = ?1 OR lower(destination) = ?1)
                     AND content LIKE ?2 ESCAPE '\\'
                   ORDER BY timestamp DESC, id DESC LIMIT ?3",
                &[text_arg(peer), text_arg(pattern.as_str()), int_arg(fetch_limit as i64)],
            )?,
            None => self.rows(
                "SELECT id, source, destination, title, content, timestamp, direction,
                        fields, receipt_status, COALESCE(read, 0)
                 FROM messages WHERE content LIKE ?1 ESCAPE '\\'
                   ORDER BY timestamp DESC, id DESC LIMIT ?2",
                &[text_arg(pattern.as_str()), int_arg(fetch_limit as i64)],
            )?,
        };
        let mut used: usize = 0;
        let mut messages = crate::message_store::charged_messages_of(&rows, fetch_limit, &mut used)?;
        let truncated = messages.len() > limit;
        if truncated {
            messages.pop();
        }
        let items = self.load_projection_snapshots(messages, used)?;
        Ok(MessageSearchSnapshot { items, truncated, matched_count: nonneg_u64(matched) })
    }

    /// The projections of the messages that a search finds.
    pub fn search_message_projection_snapshot(
        &mut self,
        query: &str,
        peer_hash: Option<&str>,
        limit: usize,
    ) -> (r: Result<Vec<MessageProjectionSnapshot>, StoreError>)
        ensures
            !search_ok(query, limit) ==> (r matches Err(e) && e is InvalidParameter),
            !search_ok(query, limit) ==> final(self)@ == old(self)@,
            r matches Ok(v) ==> v@.len() <= limit,
    {
        Ok(self.search_message_projection_outcome(query, peer_hash, limit)?.items)
    }

    /// The messages that a search finds.
    pub fn search_messages(&mut self, query: &str, peer_hash: Option<&str>, limit: usize) -> (r: Result<
        Vec<MessageRecord>,
        StoreError,
    >)
        ensures
            !search_ok(query, limit) ==> (r matches Err(e) && e is InvalidParameter),
            !search_ok(query, limit) ==> final(self)@ == old(self)@,
            r matches Ok(v) ==> v@.len() <= limit,
    {
        let items = self.search_message_projection_outcome(query, peer_hash, limit)?.items;
        let mut out: Vec<MessageRecord> = Vec::new();
        let mut i: usize = 0;
        while i < items.len()
            invariant
                i <= items.len(),
                items@.len() <= limit,
                out@.len() == i,
                forall|k: int| 0 <= k < i ==> #[trigger] out@[k] == items@[k].message,
            decreases items.len() - i,
        {
            out.push(copy_message(&items[i].message));
            i = i + 1;
        }
        Ok(out)
    }

    // ── Conversation lists and flags ─────────────────────────────────────

    /// A summary per peer — outbound messages by destination, inbound by
    /// source, hexadecimal peers lowercased — pinned first, then by most
    /// recent message; with `unread_only` only those with unread messages.
    pub fn list_conversations(&mut self, unread_only: bool) -> (r: Result<Vec<ConversationSummary>, StoreError>) {
        let rows = self.rows(conversations_sql(unread_only), &[])?;
        let mut out: Vec<ConversationSummary> = Vec::new();
        let mut i: usize = 0;
        while i < rows.len()
            invariant
                i <= rows.len(),
            decreases rows.len() - i,
        {
            out.push(summary_row(rows[i].as_slice())?);
            i = i + 1;
        }
        Ok(out)
    }

    /// Pins or unpins a conversation; true when the flag changed.
    pub fn set_conversation_pinned(&mut self, peer_hash: &str, pinned: bool) -> (r: Result<bool, StoreError>) {
        let out = self.set_conversation_flag_outcome(peer_hash, "pinned", pinned)?;
        Ok(matches!(out.disposition, MutationDisposition::Applied))
    }

    /// Mutes or unmutes a conversation; true when the flag changed.
    pub fn set_conversation_muted(&mut self, peer_hash: &str, muted: bool) -> (r: Result<bool, StoreError>) {
        let out = self.set_conversation_flag_outcome(peer_hash, "muted", muted)?;
        Ok(matches!(out.disposition, MutationDisposition::Applied))
    }

    /// Sets the `pinned` or `muted` flag of an existing conversation. A
    /// conversation without messages is not found and gets no state.
    pub fn set_conversation_flag_outcome(&mut self, peer_hash: &str, column: &str, value: bool) -> (r: Result<
        ConversationMutationOutcome,
        StoreError,
    >)
        ensures
            r matches Ok(out) ==> exists|e: bool, c: bool, s: Option<ConversationSummary>|
                #[trigger] flag_outcome_spec(e, c, value, s, out),
            (r matches Ok(out) && out.disposition == MutationDisposition::Applied) ==> (column@ == "pinned"@
                || column@ == "muted"@),
            r is Ok ==> crate::store::succeeded_atomically(old(self)@, final(self)@),
            r is Err ==> crate::store::failed_cleanly(old(self)@, final(self)@),
    {
        self.begin_immediate()?;
        let done = self.set_flag_step(peer_hash, column, value);
        self.finish(done)
    }

    fn set_flag_step(&mut self, peer_hash: &str, column: &str, value: bool) -> (r: Result<
        ConversationMutationOutcome,
        StoreError,
    >)
        ensures
            r matches Ok(out) ==> exists|e: bool, c: bool, s: Option<ConversationSummary>|
                #[trigger] flag_outcome_spec(e, c, value, s, out),
            (r matches Ok(out) && out.disposition == MutationDisposition::Applied) ==> (column@ == "pinned"@
                || column@ == "muted"@),
    {
        if !self.conversation_exists(peer_hash)? {
            let out = ConversationMutationOutcome {
                disposition: MutationDisposition::NotFound,
                affected_count: 0,
                summary: None,
                terminal_state: None,
            };
            assert(flag_outcome_spec(false, false, value, None, out));
            return Ok(out);
        }
        let (pinned, muted) = match self.first_row(
            "SELECT pinned, muted FROM conversation_state WHERE peer_hash = ?1",
            &[text_arg(peer_hash)],
        )? {
            Some(row) => (crate::sql::col_bool(row.as_slice(), 0)?, crate::sql::col_bool(row.as_slice(), 1)?),
            None => (false, false),
        };
        let current = if str_eq(column, "pinned") {
            pinned
        } else {
            muted
        };
        if current == value {
            let summary = self.conversation_summary(peer_hash)?;
            let ghost s = summary;
            let out = ConversationMutationOutcome {
                disposition: MutationDisposition::Unchanged,
                affected_count: 0,
                summary,
                terminal_state: None,
            };
            assert(flag_outcome_spec(true, current, value, s, out));
            return Ok(out);
        }
        let now = unix_now();
        let flag = int_arg(if value { 1 } else { 0 });
        if str_eq(column, "pinned") {
            self.exec(
                "INSERT INTO conversation_state (peer_hash, pinned, muted, updated_at)
                 VALUES (?1, ?2, 0, ?3)
                 ON CONFLICT(peer_hash) DO UPDATE SET pinned = excluded.pinned,
                     updated_at = excluded.updated_at",
                &[text_arg(peer_hash), flag, int_arg(now)],
            )?;
        } else if str_eq(column, "muted") {
            self.exec(
                "INSERT INTO conversation_state (peer_hash, pinned, muted, updated_at)
                 VALUES (?1, 0, ?2, ?3)
                 ON CONFLICT(peer_hash) DO UPDATE SET muted = excluded.muted,
                     updated_at = excluded.updated_at",
                &[text_arg(peer_hash), flag, int_arg(now)],
            )?;
        } else {
            return Err(invalid("unknown conversation flag"));
        }
        let summary = self.conversation_summary(peer_hash)?;
        let ghost s = summary;
        let out = ConversationMutationOutcome {
            disposition: MutationDisposition::Applied,
            affected_count: 1,
            summary,
            terminal_state: None,
        };
        assert(flag_outcome_spec(true, current, value, s, out));
        Ok(out)
    }

    // ── Drafts ──────────────────────────────────────────────────────────

    /// Saves the draft for a peer, replacing any earlier one. A draft is at
    /// most 64 KiB; at most 128 other drafts may exist, and all drafts
    /// together stay within 4 MiB.
    pub fn set_draft(&mut self, peer_hash: &str, content: &str) -> (r: Result<ConversationDraft, StoreError>)
        ensures
            utf8_len(content@) > MAX_DRAFT_BYTES ==> (r matches Err(e) && e is InvalidParameter),
            utf8_len(content@) > MAX_DRAFT_BYTES ==> final(self)@ == old(self)@,
            r matches Ok(d) ==> d.peer_hash@ == peer_hash@ && d.content@ == content@ && d.updated_at >= 0,
            r is Ok ==> crate::store::succeeded_atomically(old(self)@, final(self)@),
            r is Err ==> crate::store::failed_cleanly(old(self)@, final(self)@),
    {
        let content_bytes = content.len();
        if content_bytes > MAX_DRAFT_BYTES {
            return Err(invalid("draft exceeds its byte limit"));
        }
        self.begin_immediate()?;
        let done = self.set_draft_step(peer_hash, content);
        self.finish(done)
    }

    fn set_draft_step(&mut self, peer_hash: &str, content: &str) -> (r: Result<ConversationDraft, StoreError>)
        ensures
            r matches Ok(d) ==> d.peer_hash@ == peer_hash@ && d.content@ == content@ && d.updated_at >= 0,
    {
        let row = match self.first_row(
            "SELECT COUNT(*), COALESCE(SUM(length(CAST(content AS BLOB))), 0)
             FROM conversation_drafts WHERE peer_hash <> ?1",
            &[text_arg(peer_hash)],
        )? {
            Some(row) => row,
            None => return Err(StoreError::QueryReturnedNoRows),
        };
        let other_count = col_int(row.as_slice(), 0)?;
        let other_bytes = col_int(row.as_slice(), 1)?;
        if other_count >= MAX_RETAINED_DRAFTS as i64 {
            return Err(invalid("draft count exceeds its limit"));
        }
        let others: usize = match crate::sql::i64_to_usize(other_bytes, "draft size") {
            Ok(v) => v,
            Err(_) => usize::MAX,
        };
        let aggregate = others.saturating_add(content.len());
        if aggregate > MAX_DRAFT_AGGREGATE_BYTES {
            return Err(invalid("draft storage exceeds its byte limit"));
        }
        let updated_at = unix_now();
        self.exec(
            "INSERT INTO conversation_drafts (peer_hash, content, updated_at)
             VALUES (?1, ?2, ?3)
             ON CONFLICT(peer_hash) DO UPDATE SET content = excluded.content,
                 updated_at = excluded.updated_at",
            &[text_arg(peer_hash), text_arg(content), int_arg(updated_at)],
        )?;
        Ok(
            ConversationDraft {
                peer_hash: crate::text::owned(peer_hash),
                content: crate::text::owned(content),
                updated_at,
            },
        )
    }

    /// The draft for a peer, if any; a draft not stored as text is an error.
    pub fn draft(&mut self, peer_hash: &str) -> (r: Result<Option<ConversationDraft>, StoreError>) {
        match self.first_row(
            "SELECT peer_hash, content, updated_at FROM conversation_drafts WHERE peer_hash = ?1",
            &[text_arg(peer_hash)],
        )? {
            Some(row) => Ok(Some(draft_row(row.as_slice())?)),
            None => Ok(None),
        }
    }

    /// Deletes the draft for a peer; true when there was one.
    pub fn clear_draft(&mut self, peer_hash: &str) -> (r: Result<bool, StoreError>) {
        let count = self.exec("DELETE FROM conversation_drafts WHERE peer_hash = ?1", &[text_arg(peer_hash)])?;
        Ok(count > 0)
    }

    // ── Contacts ────────────────────────────────────────────────────────

    /// Saves a contact and returns it as stored.
    pub fn set_contact(&mut self, peer_hash: &str, alias: Option<&str>, notes: Option<&str>) -> (r: Result<
        ContactRecord,
        StoreError,
    >)
        ensures
            !contact_fields_ok(alias, notes) ==> (r matches Err(e) && e is InvalidParameter),
            !contact_fields_ok(alias, notes) ==> final(self)@ == old(self)@,
    {
        match self.set_contact_outcome(peer_hash, alias, notes)?.contact {
            Some(c) => Ok(c),
            None => Err(StoreError::QueryReturnedNoRows),
        }
    }

    /// Saves a contact's alias and notes (an alias of at most 256 bytes,
    /// notes of at most 4096). Saving what is stored already changes nothing;
    /// otherwise the update time moves forward by at least one second.
    pub fn set_contact_outcome(&mut self, peer_hash: &str, alias: Option<&str>, notes: Option<&str>) -> (r: Result<
        ContactMutationOutcome,
        StoreError,
    >)
        ensures
            !contact_fields_ok(alias, notes) ==> (r matches Err(e) && e is InvalidParameter),
            !contact_fields_ok(alias, notes) ==> final(self)@ == old(self)@,
            r matches Ok(out) ==> contact_outcome_ok(out, alias, notes),
            r is Ok ==> crate::store::succeeded_atomically(old(self)@, final(self)@),
            r is Err ==> crate::store::failed_cleanly(old(self)@, final(self)@),
    {
        match alias {
            Some(a) => if a.len() > MAX_CONTACT_ALIAS_BYTES {
                return Err(invalid("contact alias exceeds its byte limit"));
            },
            None => {},
        }
        match notes {
            Some(n) => if n.len() > MAX_CONTACT_NOTES_BYTES {
                return Err(invalid("contact notes exceed their byte limit"));
            },
            None => {},
        }
        self.begin_immediate()?;
        let done = self.set_contact_step(peer_hash, alias, notes);
        self.finish(done)
    }

    fn set_contact_step(&mut self, peer_hash: &str, alias: Option<&str>, notes: Option<&str>) -> (r: Result<
        ContactMutationOutcome,
        StoreError,
    >)
        ensures
            r matches Ok(out) ==> contact_outcome_ok(out, alias, notes),
    {
        let existing = match self.first_row(
            "SELECT peer_hash, alias, notes, created_at, updated_at FROM contacts
             WHERE peer_hash = ?1",
            &[text_arg(peer_hash)],
        )? {
            Some(row) => Some(crate::schema::contact_row(row.as_slice())?),
            None => None,
        };
        let unchanged = match &existing {
            Some(c) => opt_str_eq(&c.alias, alias) && opt_str_eq(&c.notes, notes),
            None => false,
        };
        if unchanged {
            return Ok(ContactMutationOutcome {
                disposition: MutationDisposition::Unchanged,
                affected_count: 0,
                contact: existing,
            });
        }
        let now = unix_now();
        self.exec(
            "INSERT INTO contacts (peer_hash, alias, notes, created_at, updated_at) VALUES (?1, ?2, ?3, ?4, ?4)
             ON CONFLICT(peer_hash) DO UPDATE SET alias = ?2, notes = ?3,
                 updated_at = MAX(?4, contacts.updated_at + 1)",
            &[text_arg(peer_hash), opt_text_arg(alias), opt_text_arg(notes), int_arg(now)],
        )?;
        let contact = match self.first_row(
            "SELECT peer_hash, alias, notes, created_at, updated_at
             FROM contacts WHERE peer_hash = ?1",
            &[text_arg(peer_hash)],
        )? {
            Some(row) => crate::schema::contact_row(row.as_slice())?,
            None => return Err(StoreError::QueryReturnedNoRows),
        };
        Ok(ContactMutationOutcome {
            disposition: if existing.is_some() {
                MutationDisposition::Updated
            } else {
                MutationDisposition::Created
            },
            affected_count: 1,
            contact: Some(contact),
        })
    }

    /// Deletes a contact; true when it existed.
    pub fn remove_contact(&mut self, peer_hash: &str) -> (r: Result<bool, StoreError>) {
        let out = self.remove_contact_outcome(peer_hash)?;
        Ok(matches!(out.disposition, MutationDisposition::Applied))
    }

    /// Deletes a contact.
    pub fn remove_contact_outcome(&mut self, peer_hash: &str) -> (r: Result<ContactMutationOutcome, StoreError>)
        ensures
            r matches Ok(out) ==> out.contact is None && (out.disposition == MutationDisposition::NotFound
                <==> out.affected_count == 0) && (out.disposition == MutationDisposition::NotFound
                || out.disposition == MutationDisposition::Applied),
            r matches Ok(out) ==> final(self)@.len() == old(self)@.len() + 3 && contact_removed(
                final(self)@[old(self)@.len() + 1int],
                peer_hash@,
                out.affected_count,
            ),
            r is Ok ==> crate::store::succeeded_atomically(old(self)@, final(self)@),
            r is Err ==> crate::store::failed_cleanly(old(self)@, final(self)@),
    {
        self.begin_immediate()?;
        let done = self.remove_contact_step(peer_hash);
        self.finish(done)
    }

    fn remove_contact_step(&mut self, peer_hash: &str) -> (r: Result<ContactMutationOutcome, StoreError>)
        ensures
            r matches Ok(out) ==> out.contact is None && (out.disposition == MutationDisposition::NotFound
                <==> out.affected_count == 0) && (out.disposition == MutationDisposition::NotFound
                || out.disposition == MutationDisposition::Applied),
            r matches Ok(out) ==> final(self)@.len() == old(self)@.len() + 1 && contact_removed(
                final(self)@.last(),
                peer_hash@,
                out.affected_count,
            ),
    {
        let remove_args = [text_arg(peer_hash)];
        assert(crate::sql::args_view(remove_args@) =~= seq![ArgView::Text(peer_hash@)]);
        let count = self.exec(REMOVE_CONTACT_SQL, &remove_args)?;
        Ok(ContactMutationOutcome {
            disposition: if count == 0 {
                MutationDisposition::NotFound
            } else {
                MutationDisposition::Applied
            },
            affected_count: count as u64,
            contact: None,
        })
    }

    /// Every contact, most recently updated first. A peer hash or field that
    /// is not stored as valid text is shown as a legacy label, or left out.
    pub fn list_contacts(&mut self) -> (r: Result<Vec<ContactRecord>, StoreError>) {
        let rows = self.rows(
            "SELECT CAST(peer_hash AS BLOB), typeof(peer_hash),
                    CAST(alias AS BLOB), typeof(alias),
                    CAST(notes AS BLOB), typeof(notes),
                    CASE WHEN typeof(created_at) = 'integer' AND created_at >= 0
                         THEN created_at ELSE 0 END,
                    CASE WHEN typeof(updated_at) = 'integer' AND updated_at >= 0
                         THEN updated_at ELSE 0 END
             FROM contacts
             ORDER BY CASE WHEN typeof(updated_at) = 'integer' AND updated_at >= 0
                           THEN updated_at ELSE 0 END DESC,
                      hex(CAST(peer_hash AS BLOB)) ASC",
            &[],
        )?;
        let mut out: Vec<ContactRecord> = Vec::new();
        let mut i: usize = 0;
        while i < rows.len()
            invariant
                i <= rows.len(),
            decreases rows.len() - i,
        {
            out.push(listed_contact_row(rows[i].as_slice())?);
            i = i + 1;
        }
        Ok(out)
    }
}

/// The read of whether any message is exchanged with a peer.
pub const CONVERSATION_EXISTS_SQL: &'static str = "SELECT EXISTS(SELECT 1 FROM messages
             WHERE lower(source) = ?1 OR lower(destination) = ?1)";

/// The statement that marks read the unread inbound messages from a peer.
pub const MARK_READ_SQL: &'static str = "UPDATE messages SET read = 1
             WHERE direction = 'in' AND lower(source) = ?1 AND COALESCE(read, 0) = 0";

/// Whether `call` asked whether a conversation with `peer` exists and `e`
/// is its answer.
pub open spec fn existence_read(call: SqlCall, peer: Seq<char>, e: bool) -> bool {
    &&& call matches SqlCall::Query(q, a, Some(_))
    &&& q == CONVERSATION_EXISTS_SQL@
    &&& a == seq![ArgView::Text(peer)]
    &&& crate::store::query_int(call) is Some
    &&& e == (crate::store::query_int(call)->0 != 0)
}

/// Whether `t` holds at `at` the existence read for `peer` that answered
/// `e`, and, when it did, next the marking of its unread messages, which
/// changed `n` rows.
pub open spec fn mark_read_reads(t: Seq<SqlCall>, at: int, peer: Seq<char>, e: bool, n: nat) -> bool {
    &&& 0 <= at < t.len()
    &&& existence_read(t[at], peer, e)
    &&& e ==> {
        &&& at + 1 < t.len()
        &&& t[at + 1] matches SqlCall::Execute(q, a, Some(c))
        &&& q == MARK_READ_SQL@
        &&& a == seq![ArgView::Text(peer)]
        &&& n == c
    }
}

/// The read of a message's route state and method, which decides whether
/// it may be deleted.
pub const MESSAGE_DELETE_READ_SQL: &'static str = "SELECT r.state, r.actual_method
             FROM messages m LEFT JOIN outbound_routes r ON r.message_id = m.id
             WHERE m.id = ?1";

/// Whether `call` read the route of message `id` and `found` is what it
/// found: nothing when there is no such message, else the route's state and
/// method, each absent when `NULL`.
pub open spec fn delete_read(call: SqlCall, id: Seq<char>, found: Option<(Option<Seq<char>>, Option<Seq<char>>)>) -> bool {
    &&& call matches SqlCall::Query(q, a, Some(rows))
    &&& q == MESSAGE_DELETE_READ_SQL@
    &&& a == seq![ArgView::Text(id)]
    &&& match found {
        None => rows.len() == 0,
        Some((state, method)) => rows.len() > 0 && rows[0].len() > 1 && crate::sql::opt_text_col(rows[0], 0) == state
            && crate::sql::opt_text_col(rows[0], 1) == method,
    }
}

/// The statement that removes a contact.
pub const REMOVE_CONTACT_SQL: &'static str = "DELETE FROM contacts WHERE peer_hash = ?1";

/// Whether `call` removed the contact of `peer` and changed `n` rows.
pub open spec fn contact_removed(call: SqlCall, peer: Seq<char>, n: u64) -> bool {
    &&& call matches SqlCall::Execute(q, a, Some(c))
    &&& q == REMOVE_CONTACT_SQL@
    &&& a == seq![ArgView::Text(peer)]
    &&& n == c
}

/// The read of the ids of a peer's messages.
pub const CONVERSATION_IDS_SQL: &'static str = "SELECT id FROM messages
             WHERE lower(source) = ?1 OR lower(destination) = ?1
             ORDER BY id";

/// Whether `call` read the ids of `peer`'s messages and `ids` are the ids it
/// returned, in its order.
pub open spec fn conversation_ids_read(call: SqlCall, peer: Seq<char>, ids: Seq<Seq<char>>) -> bool {
    &&& call matches SqlCall::Query(q, a, Some(rows))
    &&& q == CONVERSATION_IDS_SQL@
    &&& a == seq![ArgView::Text(peer)]
    &&& ids.len() == rows.len()
    &&& forall|k: int| 0 <= k < ids.len() ==> Some(#[trigger] ids[k]) == crate::sql::text_value(rows[k][0])
}

} // verus!
