//! Messages: writing and reading them, the projections that carry their
//! canonical and outbound state, the byte budget of a projection, and the
//! retention of outbound messages.
use vstd::prelude::*;
use crate::error::{invalid, StoreError};
use crate::limits::{
    message_limit_ok, validated_message_limit, MAX_MESSAGE_PROJECTION_BYTES, MESSAGE_PROJECTION_OVERHEAD_BYTES,
};
use crate::message_rows::{attempt_row, canonical_row, message_row, route_row};
use crate::outside::{json_reserialize, json_reserialized};
use crate::records::{
    CanonicalInboundRecord, MessageProjectionSnapshot, MessageRecord, OutboundAttemptRecord, OutboundRouteRecord,
};
use crate::sql::{col_int, col_text, ArgView, SqlArg, SqlCall, SqlValue};
use crate::store::{int_arg, opt_text_arg, text_arg, MessagesStore};
use crate::text::{opt_view, str_eq, to_ascii_lower, trim_str, utf8_len, views};
use crate::text_order::{has_text, sorted_unique, strictly_sorted_texts, text_lt};

verus! {

// ── The projection byte budget ──────────────────────────────────────────

/// `a + b`, saturating at `usize::MAX`.
pub open spec fn sat_add(a: usize, b: usize) -> usize {
    if a + b > usize::MAX {
        usize::MAX
    } else {
        (a + b) as usize
    }
}

/// The byte length of an optional text, zero when absent.
pub open spec fn opt_text_len(t: Option<String>) -> usize {
    match t {
        Some(s) => utf8_len(s@),
        None => 0,
    }
}

/// The byte length of optional bytes, zero when absent.
pub open spec fn opt_bytes_len(b: Option<Vec<u8>>) -> usize {
    match b {
        Some(v) => v@.len() as usize,
        None => 0,
    }
}

/// What a message costs in a projection: a fixed overhead plus the bytes of
/// its texts and fields, saturating.
pub open spec fn message_cost(m: MessageRecord) -> usize {
    sat_add(
        sat_add(
            sat_add(
                sat_add(
                    sat_add(
                        sat_add(
                            sat_add(
                                sat_add(MESSAGE_PROJECTION_OVERHEAD_BYTES, utf8_len(m.id@)),
                                utf8_len(m.source@),
                            ),
                            utf8_len(m.destination@),
                        ),
                        utf8_len(m.title@),
                    ),
                    utf8_len(m.content@),
                ),
                utf8_len(m.direction@),
            ),
            opt_text_len(m.receipt_status),
        ),
        opt_text_len(m.fields),
    )
}

/// What a canonical message adds to a projection: the bytes it carries.
pub open spec fn canonical_cost(c: CanonicalInboundRecord) -> usize {
    sat_add(
        sat_add(
            sat_add(
                sat_add(sat_add(c.title@.len() as usize, c.content@.len() as usize), opt_bytes_len(c.fields_msgpack)),
                opt_bytes_len(c.signature),
            ),
            opt_bytes_len(c.stamp),
        ),
        c.wire@.len() as usize,
    )
}

/// The total cost of the messages of `ms`.
pub open spec fn messages_cost(ms: Seq<MessageRecord>) -> int
    decreases ms.len(),
{
    if ms.len() == 0 {
        0
    } else {
        messages_cost(ms.drop_last()) + message_cost(ms.last())
    }
}

/// The total cost of the canonical messages that the snapshots of `ss` carry.
pub open spec fn canonical_total(ss: Seq<MessageProjectionSnapshot>) -> int
    decreases ss.len(),
{
    if ss.len() == 0 {
        0
    } else {
        canonical_total(ss.drop_last()) + match ss.last().canonical {
            Some(c) => canonical_cost(c) as int,
            None => 0,
        }
    }
}

fn opt_str_len(t: &Option<String>) -> (r: usize)
    ensures
        r == opt_text_len(*t),
{
    match t {
        Some(s) => s.as_str().len(),
        None => 0,
    }
}

fn opt_vec_len(b: &Option<Vec<u8>>) -> (r: usize)
    ensures
        r == opt_bytes_len(*b),
{
    match b {
        Some(v) => v.len(),
        None => 0,
    }
}

/// `message_cost` computed.
pub fn message_projection_cost(m: &MessageRecord) -> (r: usize)
    ensures
        r == message_cost(*m),
{
    MESSAGE_PROJECTION_OVERHEAD_BYTES.saturating_add(m.id.as_str().len()).saturating_add(
        m.source.as_str().len(),
    ).saturating_add(m.destination.as_str().len()).saturating_add(m.title.as_str().len()).saturating_add(
        m.content.as_str().len(),
    ).saturating_add(m.direction.as_str().len()).saturating_add(opt_str_len(&m.receipt_status)).saturating_add(
        opt_str_len(&m.fields),
    )
}

/// `canonical_cost` computed.
pub fn canonical_projection_cost(c: &CanonicalInboundRecord) -> (r: usize)
    ensures
        r == canonical_cost(*c),
{
    c.title.len().saturating_add(c.content.len()).saturating_add(opt_vec_len(&c.fields_msgpack)).saturating_add(
        opt_vec_len(&c.signature),
    ).saturating_add(opt_vec_len(&c.stamp)).saturating_add(c.wire.len())
}

/// Adds `additional` bytes to the projection budget in use; fails when the
/// total would pass the budget.
pub fn charge_projection_budget(used: &mut usize, additional: usize) -> (r: Result<(), StoreError>)
    ensures
        r is Ok <==> *old(used) + additional <= MAX_MESSAGE_PROJECTION_BYTES,
        r is Ok ==> *final(used) == *old(used) + additional,
        r matches Err(e) ==> e is InvalidParameter,
{
    match used.checked_add(additional) {
        Some(total) => {
            *used = total;
            if total > MAX_MESSAGE_PROJECTION_BYTES {
                return Err(invalid("message projection exceeds its byte budget"));
            }
            Ok(())
        },
        None => Err(invalid("message projection byte budget overflow")),
    }
}

/// The stored JSON text for a message's fields: its compact form, or empty
/// text when it is not JSON.
pub open spec fn fields_text(fields: Option<Seq<char>>) -> Option<Seq<char>> {
    match fields {
        Some(t) => Some(
            match json_reserialized(t) {
                Some(c) => c,
                None => Seq::empty(),
            },
        ),
        None => None,
    }
}

/// The stored form of a message's fields, as a parameter.
pub open spec fn fields_view(fields: Option<String>) -> ArgView {
    match fields_text(opt_view(fields)) {
        Some(t) => ArgView::Text(t),
        None => ArgView::Null,
    }
}

/// The parameter that stores a message's fields.
pub fn fields_arg(fields: &Option<String>) -> (a: SqlArg)
    ensures
        fields_text(opt_view(*fields)) is None ==> a == SqlArg::Null,
        fields_text(opt_view(*fields)) matches Some(t) ==> (a matches SqlArg::Text(s) && s@ == t),
{
    match fields {
        Some(t) => match json_reserialize(t.as_str()) {
            Some(c) => SqlArg::Text(c),
            None => SqlArg::Text(String::new()),
        },
        None => SqlArg::Null,
    }
}

/// The parameters of a message, in column order.
fn message_args(record: &MessageRecord) -> (args: Vec<SqlArg>)
    ensures
        args@.len() == 10,
{
    vec![
        text_arg(record.id.as_str()),
        text_arg(record.source.as_str()),
        text_arg(record.destination.as_str()),
        text_arg(record.title.as_str()),
        text_arg(record.content.as_str()),
        int_arg(record.timestamp),
        text_arg(record.direction.as_str()),
        fields_arg(&record.fields),
        opt_text_arg(crate::store::opt_str(&record.receipt_status)),
        int_arg(if record.read { 1 } else { 0 }),
    ]
}

/// How many of `n` rows a read of at most `limit` takes.
pub open spec fn taken(n: int, limit: usize) -> int {
    if n < limit {
        n
    } else {
        limit as int
    }
}

/// The byte length of an optional text view, zero when absent.
pub open spec fn opt_seq_len(t: Option<Seq<char>>) -> usize {
    match t {
        Some(s) => utf8_len(s),
        None => 0,
    }
}

/// What the message a row holds costs in a projection (`message_cost` of it).
pub open spec fn row_cost(row: Seq<SqlValue>) -> usize {
    sat_add(
        sat_add(
            sat_add(
                sat_add(
                    sat_add(
                        sat_add(
                            sat_add(
                                sat_add(
                                    MESSAGE_PROJECTION_OVERHEAD_BYTES,
                                    utf8_len(crate::sql::text_value(row[0]).unwrap()),
                                ),
                                utf8_len(crate::sql::text_value(row[1]).unwrap()),
                            ),
                            utf8_len(crate::sql::text_value(row[2]).unwrap()),
                        ),
                        utf8_len(crate::sql::text_value(row[3]).unwrap()),
                    ),
                    utf8_len(crate::sql::text_value(row[4]).unwrap()),
                ),
                utf8_len(crate::sql::text_value(row[6]).unwrap()),
            ),
            opt_seq_len(crate::sql::opt_text_col(row, 8)),
        ),
        opt_seq_len(crate::message_rows::stored_fields(crate::sql::opt_text_col(row, 7))),
    )
}

/// The total cost of the messages that the first `n` rows hold.
pub open spec fn rows_cost(rows: Seq<Vec<SqlValue>>, n: int) -> int
    decreases n,
{
    if n <= 0 {
        0
    } else {
        rows_cost(rows, n - 1) + row_cost(rows[n - 1]@)
    }
}

proof fn lemma_row_cost(row: Seq<SqlValue>, m: MessageRecord)
    requires
        crate::message_rows::message_from(row, m),
    ensures
        message_cost(m) == row_cost(row),
{
    assert(crate::sql::text_value(row[0]).unwrap() == m.id@);
    assert(crate::sql::text_value(row[1]).unwrap() == m.source@);
    assert(crate::sql::text_value(row[2]).unwrap() == m.destination@);
    assert(crate::sql::text_value(row[3]).unwrap() == m.title@);
    assert(crate::sql::text_value(row[4]).unwrap() == m.content@);
    assert(crate::sql::text_value(row[6]).unwrap() == m.direction@);
    assert(opt_text_len(m.receipt_status) == opt_seq_len(opt_view(m.receipt_status)));
    assert(opt_text_len(m.fields) == opt_seq_len(opt_view(m.fields)));
}

proof fn lemma_rows_cost_mono(rows: Seq<Vec<SqlValue>>, a: int, b: int)
    requires
        a <= b,
    ensures
        rows_cost(rows, a) <= rows_cost(rows, b),
    decreases b - a,
{
    if a < b {
        lemma_rows_cost_mono(rows, a, b - 1);
    }
}

/// Reads up to `limit` messages from rows, in row order: it succeeds when
/// each row it takes reads as a message.
fn messages_of(rows: &Vec<Vec<SqlValue>>, limit: usize) -> (r: Result<Vec<MessageRecord>, StoreError>)
    ensures
        r is Ok <==> forall|k: int| 0 <= k < taken(rows@.len() as int, limit)
            ==> crate::message_rows::message_row_ok(#[trigger] rows@[k]@),
        r matches Ok(v) ==> v@.len() == taken(rows@.len() as int, limit),
        r matches Ok(v) ==> v@.len() <= limit && v@.len() <= rows@.len(),
        r matches Ok(v) ==> forall|i: int| 0 <= i < v@.len() ==> crate::message_rows::message_from(
            rows@[i]@,
            #[trigger] v@[i],
        ),
{
    let mut out: Vec<MessageRecord> = Vec::new();
    let mut i: usize = 0;
    while i < rows.len() && i < limit
        invariant
            i <= rows.len(),
            i <= limit,
            out@.len() == i,
            forall|k: int| 0 <= k < i ==> crate::message_rows::message_row_ok(#[trigger] rows@[k]@),
            forall|k: int| 0 <= k < i ==> crate::message_rows::message_from(rows@[k]@, #[trigger] out@[k]),
        decreases rows.len() - i,
    {
        let m = message_row(rows[i].as_slice())?;
        out.push(m);
        i = i + 1;
    }
    Ok(out)
}

/// Reads messages from rows while charging each to the projection budget:
/// it succeeds when each row it takes reads as a message and, if it takes
/// any, the budget in use plus what they cost stays within the budget.
pub(crate) fn charged_messages_of(rows: &Vec<Vec<SqlValue>>, limit: usize, used: &mut usize) -> (r: Result<
    Vec<MessageRecord>,
    StoreError,
>)
    ensures
        r is Ok <==> (forall|k: int| 0 <= k < taken(rows@.len() as int, limit)
            ==> crate::message_rows::message_row_ok(#[trigger] rows@[k]@))
            && (taken(rows@.len() as int, limit) == 0
                || *old(used) + rows_cost(rows@, taken(rows@.len() as int, limit)) <= MAX_MESSAGE_PROJECTION_BYTES),
        r matches Ok(v) ==> v@.len() == taken(rows@.len() as int, limit)
            && *final(used) == *old(used) + rows_cost(rows@, v@.len() as int),
        r matches Ok(v) ==> forall|i: int| 0 <= i < v@.len() ==> crate::message_rows::message_from(
            rows@[i]@,
            #[trigger] v@[i],
        ),
        r matches Ok(v) ==> v@.len() <= limit && *final(used) == *old(used) + messages_cost(v@)
            && *final(used) <= MAX_MESSAGE_PROJECTION_BYTES || (v@.len() == 0 && *final(used) == *old(used)),
{
    let ghost start = *used;
    let ghost n = taken(rows@.len() as int, limit);
    let mut out: Vec<MessageRecord> = Vec::new();
    let mut i: usize = 0;
    while i < rows.len() && i < limit
        invariant
            n == taken(rows@.len() as int, limit),
            start == *old(used),
            i <= rows.len(),
            i <= limit,
            out@.len() == i,
            *used == start + messages_cost(out@),
            *used == start + rows_cost(rows@, i as int),
            i == 0 || *used <= MAX_MESSAGE_PROJECTION_BYTES,
            forall|k: int| 0 <= k < i ==> crate::message_rows::message_row_ok(#[trigger] rows@[k]@),
            forall|k: int| 0 <= k < i ==> crate::message_rows::message_from(rows@[k]@, #[trigger] out@[k]),
        decreases rows.len() - i,
    {
        let m = message_row(rows[i].as_slice())?;
        let cost = message_projection_cost(&m);
        proof {
            lemma_row_cost(rows@[i as int]@, m);
            assert(rows_cost(rows@, i + 1) == rows_cost(rows@, i as int) + cost);
        }
        let ghost pre = *used;
        let charged = charge_projection_budget(used, cost);
        if charged.is_err() {
            proof {
                assert(pre + cost > MAX_MESSAGE_PROJECTION_BYTES);
                assert(n >= i + 1);
                lemma_rows_cost_mono(rows@, i + 1, n);
                assert(start + rows_cost(rows@, n) > MAX_MESSAGE_PROJECTION_BYTES);
            }
            return Err(charged.unwrap_err());
        }
        let ghost before = out@;
        out.push(m);
        proof {
            assert(out@.drop_last() =~= before);
        }
        i = i + 1;
    }
    Ok(out)
}

/// The statement that lists messages, with or without a time bound.
fn list_sql(before: bool) -> (r: &'static str) {
    if before {
        "SELECT id, source, destination, title, content, timestamp, direction, fields, receipt_status, COALESCE(read, 0) FROM messages WHERE timestamp < ?1 ORDER BY timestamp DESC, id DESC LIMIT ?2"
    } else {
        "SELECT id, source, destination, title, content, timestamp, direction, fields, receipt_status, COALESCE(read, 0) FROM messages ORDER BY timestamp DESC, id DESC LIMIT ?1"
    }
}

/// The statement that lists the messages of a peer, with or without a time bound.
fn peer_list_sql(before: bool) -> (r: &'static str) {
    if before {
        "SELECT id, source, destination, title, content, timestamp, direction, fields, receipt_status, COALESCE(read, 0) FROM messages WHERE (lower(source) = ?1 OR lower(destination) = ?1) AND timestamp < ?2 ORDER BY timestamp DESC, id DESC LIMIT ?3"
    } else {
        "SELECT id, source, destination, title, content, timestamp, direction, fields, receipt_status, COALESCE(read, 0) FROM messages WHERE lower(source) = ?1 OR lower(destination) = ?1 ORDER BY timestamp DESC, id DESC LIMIT ?2"
    }
}

/// The statement that reads a canonical message with its inspection.
pub(crate) fn canonical_sql() -> (r: &'static str) {
    "SELECT c.message_id, c.source, c.destination, c.title, c.content, c.timestamp,
            c.fields_msgpack, c.signature, c.stamp, c.wire, c.authentication_state,
            c.stamp_state, c.stamp_value, i.stamp_target
     FROM canonical_inbound_messages c
     LEFT JOIN canonical_inbound_inspection i ON i.message_id = c.message_id
     WHERE c.message_id = ?1"
}

/// The statement that reads one route by message id.
pub(crate) fn route_sql() -> (r: &'static str) {
    "SELECT message_id, requested_method, actual_method, representation, fallback_reason, correlation_id, retry_of, deadline_unix_ms, state, attempt_count FROM outbound_routes WHERE message_id = ?1"
}

/// The statement that reads every attempt of a correlation.
pub(crate) fn correlation_attempts_sql() -> (r: &'static str) {
    "SELECT a.message_id, a.attempt_number, a.started_unix_ms, a.deadline_unix_ms, a.state
     FROM outbound_attempts a
     JOIN outbound_routes r ON r.message_id = a.message_id
     WHERE r.correlation_id = ?1
     ORDER BY a.attempt_number, a.started_unix_ms, a.message_id"
}

/// Whether a list of snapshots carries exactly the messages of `ms`, in order.
pub open spec fn snapshots_of(ss: Seq<MessageProjectionSnapshot>, ms: Seq<MessageRecord>) -> bool {
    &&& ss.len() == ms.len()
    &&& forall|i: int| 0 <= i < ss.len() ==> #[trigger] ss[i].message == ms[i]
}

impl MessagesStore {
    /// Every attempt of the routes that share `correlation_id`, by attempt
    /// number, start time and message id.
    pub(crate) fn attempts_of_correlation(&mut self, correlation_id: &str) -> (r: Result<
        Vec<OutboundAttemptRecord>,
        StoreError,
    >) {
        let rows = self.rows(correlation_attempts_sql(), &[text_arg(correlation_id)])?;
        let mut out: Vec<OutboundAttemptRecord> = Vec::new();
        let mut i: usize = 0;
        while i < rows.len()
            invariant
                i <= rows.len(),
            decreases rows.len() - i,
        {
            out.push(attempt_row(rows[i].as_slice())?);
            i = i + 1;
        }
        Ok(out)
    }

    /// Loads the canonical form and outbound lifecycle of each message,
    /// charging the canonical bytes to the budget already used by the
    /// messages themselves.
    pub(crate) fn load_projection_snapshots(
        &mut self,
        messages: Vec<MessageRecord>,
        projection_bytes: usize,
    ) -> (r: Result<Vec<MessageProjectionSnapshot>, StoreError>)
        ensures
            r matches Ok(ss) ==> snapshots_of(ss@, messages@),
            r matches Ok(ss) ==> projection_bytes + canonical_total(ss@) <= MAX_MESSAGE_PROJECTION_BYTES || (
            canonical_total(ss@) == 0),
    {
        let mut used = projection_bytes;
        let mut out: Vec<MessageProjectionSnapshot> = Vec::new();
        let mut i: usize = 0;
        let n = messages.len();
        while i < n
            invariant
                n == messages@.len(),
                i <= n,
                out@.len() == i,
                forall|k: int| 0 <= k < i ==> #[trigger] out@[k].message == messages@[k],
                used == projection_bytes + canonical_total(out@),
                canonical_total(out@) == 0 || used <= MAX_MESSAGE_PROJECTION_BYTES,
            decreases n - i,
        {
            let message = copy_message(&messages[i]);
            let canonical = match self.first_row(canonical_sql(), &[text_arg(message.id.as_str())])? {
                Some(row) => Some(canonical_row(row.as_slice())?),
                None => None,
            };
            match &canonical {
                Some(c) => {
                    let cost = canonical_projection_cost(c);
                    charge_projection_budget(&mut used, cost)?;
                },
                None => {},
            }
            let route = match self.first_row(route_sql(), &[text_arg(message.id.as_str())])? {
                Some(row) => Some(route_row(row.as_slice())?),
                None => None,
            };
            let lifecycle = match route {
                Some(route) => {
                    let attempts = self.attempts_of_correlation(route.correlation_id.as_str())?;
                    Some((route, attempts))
                },
                None => None,
            };
            let ghost before = out@;
            let snapshot = MessageProjectionSnapshot { message, canonical, lifecycle };
            out.push(snapshot);
            proof {
                assert(out@.drop_last() =~= before);
                assert(out@[i as int].message == messages@[i as int]);
            }
            i = i + 1;
        }
        Ok(out)
    }

    fn upsert_message(&mut self, record: &MessageRecord) -> (r: Result<usize, StoreError>) {
        let args = message_args(record);
        self.exec(
            "INSERT INTO messages
             (id, source, destination, title, content, timestamp, direction, fields,
              receipt_status, read)
             VALUES (?1, ?2, ?3, ?4, ?5, ?6, ?7, ?8, ?9, ?10)
             ON CONFLICT(id) DO UPDATE SET
                 title = excluded.title,
                 content = excluded.content,
                 fields = excluded.fields,
                 receipt_status = excluded.receipt_status,
                 read = excluded.read",
            args.as_slice(),
        )
    }

    fn insert_message_if_missing(&mut self, record: &MessageRecord) -> (r: Result<usize, StoreError>) {
        let args = message_args(record);
        self.exec(
            "INSERT OR IGNORE INTO messages
             (id, source, destination, title, content, timestamp, direction, fields,
              receipt_status, read)
             VALUES (?1, ?2, ?3, ?4, ?5, ?6, ?7, ?8, ?9, ?10)",
            args.as_slice(),
        )
    }

    /// Stores a message; one that exists already keeps its identity, time and
    /// direction, and takes the new title, content, fields, receipt and read flag.
    pub fn insert_message(&mut self, record: &MessageRecord) -> (r: Result<(), StoreError>) {
        self.upsert_message(record)?;
        Ok(())
    }

    /// Stores an inbound message unless one with its id exists: true only for
    /// the first accepted delivery.
    pub fn insert_message_if_absent(&mut self, record: &MessageRecord) -> (r: Result<bool, StoreError>) {
        let changed = self.insert_message_if_missing(record)?;
        Ok(changed > 0)
    }

    /// The newest messages, at most `limit`, optionally only those older than
    /// `before_ts`; a limit above the query maximum is refused.
    pub fn list_messages(&mut self, limit: usize, before_ts: Option<i64>) -> (r: Result<Vec<MessageRecord>, StoreError>)
        ensures
            !message_limit_ok(limit) ==> (r matches Err(e) && e is InvalidParameter),
            !message_limit_ok(limit) ==> final(self)@ == old(self)@,
            r matches Ok(v) ==> v@.len() <= limit,
    {
        let lim = validated_message_limit(limit)?;
        let rows = match before_ts {
            Some(ts) => self.rows(list_sql(true), &[int_arg(ts), int_arg(lim)])?,
            None => self.rows(list_sql(false), &[int_arg(lim)])?,
        };
        messages_of(&rows, limit)
    }

    /// The message with id `message_id`, if stored.
    pub fn get_message(&mut self, message_id: &str) -> (r: Result<Option<MessageRecord>, StoreError>) {
        match self.first_row(
            "SELECT id, source, destination, title, content, timestamp, direction, fields, receipt_status, COALESCE(read, 0) FROM messages WHERE id = ?1 LIMIT 1",
            &[text_arg(message_id)],
        )? {
            Some(row) => Ok(Some(message_row(row.as_slice())?)),
            None => Ok(None),
        }
    }

    /// The newest messages exchanged with a peer (as source or destination,
    /// compared in lowercase), at most `limit`.
    pub fn list_messages_for_peer(
        &mut self,
        peer_hash: &str,
        limit: usize,
        before_ts: Option<i64>,
    ) -> (r: Result<Vec<MessageRecord>, StoreError>)
        ensures
            !message_limit_ok(limit) ==> (r matches Err(e) && e is InvalidParameter),
            !message_limit_ok(limit) ==> final(self)@ == old(self)@,
            r matches Ok(v) ==> v@.len() <= limit,
    {
        let lim = validated_message_limit(limit)?;
        let rows = match before_ts {
            Some(ts) => self.rows(peer_list_sql(true), &[text_arg(peer_hash), int_arg(ts), int_arg(lim)])?,
            None => self.rows(peer_list_sql(false), &[text_arg(peer_hash), int_arg(lim)])?,
        };
        messages_of(&rows, limit)
    }

    /// The newest messages of a peer with their projections, read in one
    /// transaction; the messages and the canonical bytes they carry together
    /// stay within the projection byte budget, or the read fails.
    pub fn message_projection_snapshot_for_peer(
        &mut self,
        peer_hash: &str,
        limit: usize,
        before_ts: Option<i64>,
    ) -> (r: Result<Vec<MessageProjectionSnapshot>, StoreError>)
        ensures
            !message_limit_ok(limit) ==> (r matches Err(e) && e is InvalidParameter),
            !message_limit_ok(limit) ==> final(self)@ == old(self)@,
            r matches Ok(v) ==> v@.len() <= limit,
            r is Ok ==> crate::store::succeeded_atomically(old(self)@, final(self)@),
            r is Err ==> crate::store::failed_cleanly(old(self)@, final(self)@),
    {
        let lim = validated_message_limit(limit)?;
        self.begin()?;
        let done = self.projection_snapshot_step(peer_hash, limit, lim, before_ts);
        self.finish(done)
    }

    fn projection_snapshot_step(
        &mut self,
        peer_hash: &str,
        limit: usize,
        lim: i64,
        before_ts: Option<i64>,
    ) -> (r: Result<Vec<MessageProjectionSnapshot>, StoreError>)
        ensures
            r matches Ok(v) ==> v@.len() <= limit,
    {
        let rows = match before_ts {
            Some(ts) => self.rows(peer_list_sql(true), &[text_arg(peer_hash), int_arg(ts), int_arg(lim)])?,
            None => self.rows(peer_list_sql(false), &[text_arg(peer_hash), int_arg(lim)])?,
        };
        let mut used: usize = 0;
        let messages = charged_messages_of(&rows, limit, &mut used)?;
        self.load_projection_snapshots(messages, used)
    }

    // ── Counts and retention of outbound messages ───────────────────────

    /// How many messages are queued (no receipt status) and how many are in
    /// flight (a receipt status that is neither sent nor terminal).
    pub fn count_message_buckets(&mut self) -> (r: Result<(u64, u64), StoreError>) {
        match self.first_row(
            "SELECT
                COALESCE(SUM(CASE
                    WHEN receipt_status IS NULL OR TRIM(receipt_status) = '' THEN 1
                    ELSE 0
                END), 0) AS queued_count,
                COALESCE(SUM(CASE
                    WHEN receipt_status IS NOT NULL
                        AND TRIM(receipt_status) <> ''
                        AND LOWER(receipt_status) NOT LIKE 'sent%'
                        AND LOWER(receipt_status) NOT IN ('cancelled', 'delivered', 'failed', 'expired', 'rejected')
                    THEN 1
                    ELSE 0
                END), 0) AS in_flight_count
             FROM messages",
            &[],
        )? {
            Some(row) => {
                let queued = col_int(row.as_slice(), 0)?;
                let in_flight = col_int(row.as_slice(), 1)?;
                Ok((nonneg_u64(queued), nonneg_u64(in_flight)))
            },
            None => Err(StoreError::QueryReturnedNoRows),
        }
    }

    /// How many outbound messages are stored.
    pub fn count_outbound_messages(&mut self) -> (r: Result<u64, StoreError>) {
        let count = self.int_query("SELECT COUNT(*) FROM messages WHERE direction = 'out'", &[])?;
        Ok(nonneg_u64(count))
    }

    /// Marks expired every outbound message older than `cutoff_ts` whose
    /// receipt status is neither sent nor terminal; returns their ids, oldest first.
    pub fn expire_outbound_messages_before(&mut self, cutoff_ts: i64) -> (r: Result<Vec<String>, StoreError>)
        ensures
            r matches Ok(ids) ==> final(self)@.len() == old(self)@.len() + 1 + ids@.len() && expiry_read(
                final(self)@[old(self)@.len() as int],
                cutoff_ts,
                views(ids@),
            ) && forall|k: int| 0 <= k < ids@.len() ==> expiry_mark(#[trigger] final(self)@[old(self)@.len() + 1 + k], ids@[k]@),
    {
        let read_args = [int_arg(cutoff_ts)];
        assert(crate::sql::args_view(read_args@) =~= seq![ArgView::Int(cutoff_ts)]);
        let rows = self.rows(EXPIRY_READ_SQL, &read_args)?;
        let ghost at: int = old(self)@.len() as int;
        let ids = ids_of(&rows, rows.len())?;
        proof {
            assert forall|k: int| 0 <= k < ids@.len() implies Some(views(ids@)[k]) == crate::sql::text_value(
                crate::sql::rows_view(rows@)[k][0],
            ) by {
                assert(crate::sql::rows_view(rows@)[k] == rows@[k]@);
                assert(views(ids@)[k] == ids@[k]@);
            }
            assert(expiry_read(self@[at], cutoff_ts, views(ids@)));
        }
        let mut k: usize = 0;
        while k < ids.len()
            invariant
                k <= ids.len(),
                0 <= at,
                self@.len() == at + 1 + k,
                expiry_read(self@[at], cutoff_ts, views(ids@)),
                forall|m: int| 0 <= m < k ==> expiry_mark(#[trigger] self@[at + 1 + m], ids@[m]@),
            decreases ids.len() - k,
        {
            let mark_args = [text_arg(ids[k].as_str())];
            assert(crate::sql::args_view(mark_args@) =~= seq![ArgView::Text(ids@[k as int]@)]);
            let ghost before = self@;
            self.exec(EXPIRY_MARK_SQL, &mark_args)?;
            proof {
                assert(self@[at] == before[at]);
                assert forall|m: int| 0 <= m < k + 1 implies expiry_mark(#[trigger] self@[at + 1 + m], ids@[m]@) by {
                    if m < k {
                        assert(self@[at + 1 + m] == before[at + 1 + m]);
                    }
                }
            }
            k = k + 1;
        }
        Ok(ids)
    }

    /// Deletes up to `count` outbound messages, oldest first; with the
    /// priority `terminal_first` (trimmed, any case) those already sent or
    /// terminal go before the others. Returns the deleted ids, sorted and
    /// without duplicates.
    pub fn prune_outbound_messages(&mut self, count: usize, eviction_priority: &str) -> (r: Result<
        Vec<String>,
        StoreError,
    >)
        ensures
            count == 0 ==> (r matches Ok(ids) && ids@.len() == 0),
            r matches Ok(ids) ==> strictly_sorted_texts(views(ids@)) && ids@.len() <= count,
            r is Ok ==> crate::store::succeeded_atomically(old(self)@, final(self)@),
            r is Err ==> crate::store::failed_cleanly(old(self)@, final(self)@),
    {
        if count == 0 {
            return Ok(Vec::new());
        }
        self.begin_immediate()?;
        let done = self.prune_outbound_step(count, eviction_priority);
        self.finish(done)
    }

    fn prune_outbound_step(&mut self, count: usize, eviction_priority: &str) -> (r: Result<Vec<String>, StoreError>)
        ensures
            r matches Ok(ids) ==> strictly_sorted_texts(views(ids@)) && ids@.len() <= count,
    {
        let normalized = to_ascii_lower(trim_str(eviction_priority).as_str());
        let selected = if str_eq(normalized.as_str(), "terminal_first") {
            let mut first = self.oldest_outbound_ids(
                "SELECT id
                 FROM messages
                 WHERE direction = 'out'
                   AND receipt_status IS NOT NULL
                   AND TRIM(receipt_status) <> ''
                   AND (
                        LOWER(receipt_status) LIKE 'sent%'
                        OR LOWER(receipt_status) IN ('cancelled', 'delivered', 'failed', 'expired', 'rejected')
                   )
                 ORDER BY timestamp ASC, id ASC
                 LIMIT ?1",
                count,
            )?;
            let remaining = count - first.len();
            if remaining > 0 {
                let rest = self.oldest_outbound_ids(
                    "SELECT id
                     FROM messages
                     WHERE direction = 'out'
                       AND (
                            receipt_status IS NULL
                            OR TRIM(receipt_status) = ''
                            OR (
                                LOWER(receipt_status) NOT LIKE 'sent%'
                                AND LOWER(receipt_status) NOT IN ('cancelled', 'delivered', 'failed', 'expired', 'rejected')
                            )
                       )
                     ORDER BY timestamp ASC, id ASC
                     LIMIT ?1",
                    remaining,
                )?;
                let mut k: usize = 0;
                while k < rest.len()
                    invariant
                        k <= rest.len(),
                        first@.len() + rest@.len() - k <= count,
                    decreases rest.len() - k,
                {
                    first.push(rest[k].clone());
                    k = k + 1;
                }
            }
            first
        } else {
            self.oldest_outbound_ids(
                "SELECT id
                 FROM messages
                 WHERE direction = 'out'
                 ORDER BY timestamp ASC, id ASC
                 LIMIT ?1",
                count,
            )?
        };
        let ids = sorted_unique(selected);
        proof {
            lemma_unique_sorted_len(views(ids@), views(selected@));
        }
        self.detach_retry_children(ids.as_slice())?;
        self.tombstone_standard_propagation_links(ids.as_slice())?;
        let mut k: usize = 0;
        while k < ids.len()
            invariant
                k <= ids.len(),
            decreases ids.len() - k,
        {
            self.exec("DELETE FROM messages WHERE id = ?1", &[text_arg(ids[k].as_str())])?;
            k = k + 1;
        }
        self.gc_attachment_blobs()?;
        Ok(ids)
    }

    /// The ids a selection returns, at most `limit` of them.
    fn oldest_outbound_ids(&mut self, sql: &str, limit: usize) -> (r: Result<Vec<String>, StoreError>)
        ensures
            r matches Ok(v) ==> v@.len() <= limit,
    {
        if limit == 0 {
            return Ok(Vec::new());
        }
        let rows = self.rows(sql, &[int_arg(limit as i64)])?;
        ids_of(&rows, limit)
    }

    /// Sets the receipt status of a message; true when it exists.
    pub fn update_receipt_status(&mut self, message_id: &str, status: &str) -> (r: Result<bool, StoreError>)
        ensures
            final(self)@.len() == old(self)@.len() + 1,
            final(self)@.drop_last() == old(self)@,
            crate::store::change_reported(
                final(self)@.last(),
                RECEIPT_UPDATE_SQL@,
                seq![ArgView::Text(status@), ArgView::Text(message_id@)],
                r,
            ),
    {
        let update_args = [text_arg(status), text_arg(message_id)];
        assert(crate::sql::args_view(update_args@) =~= seq![ArgView::Text(status@), ArgView::Text(message_id@)]);
        let count = self.exec(RECEIPT_UPDATE_SQL, &update_args);
        match count {
            Ok(n) => Ok(n > 0),
            Err(e) => Err(e),
        }
    }

    /// Deletes every message, and the attachment blobs no message refers to any more.
    pub fn clear_messages(&mut self) -> (r: Result<(), StoreError>)
        ensures
            r is Ok ==> crate::store::succeeded_atomically(old(self)@, final(self)@),
            r is Err ==> crate::store::failed_cleanly(old(self)@, final(self)@),
    {
        self.begin_immediate()?;
        let done = self.clear_messages_step();
        self.finish(done)
    }

    fn clear_messages_step(&mut self) -> (r: Result<(), StoreError>) {
        self.exec("DELETE FROM messages", &[])?;
        self.gc_attachment_blobs()?;
        Ok(())
    }

    // ── What deleting messages leaves behind ─────────────────────────────

    /// Detaches the retries of the given messages from them.
    pub(crate) fn detach_retry_children(&mut self, message_ids: &[String]) -> (r: Result<(), StoreError>)
        ensures
            crate::store::extends(old(self)@, final(self)@),
    {
        let mut k: usize = 0;
        while k < message_ids.len()
            invariant
                crate::store::extends(old(self)@, self@),
                k <= message_ids.len(),
            decreases message_ids.len() - k,
        {
            self.exec(
                "UPDATE outbound_routes SET retry_of = NULL WHERE retry_of = ?1",
                &[text_arg(message_ids[k].as_str())],
            )?;
            k = k + 1;
        }
        Ok(())
    }

    /// Marks deleted the propagation links of the given messages and drops
    /// their outbound propagation jobs.
    pub(crate) fn tombstone_standard_propagation_links(&mut self, message_ids: &[String]) -> (r: Result<
        (),
        StoreError,
    >)
        ensures
            crate::store::extends(old(self)@, final(self)@),
    {
        let now = self.int_query("SELECT CAST(strftime('%s','now') AS INTEGER)", &[])?;
        let mut k: usize = 0;
        while k < message_ids.len()
            invariant
                crate::store::extends(old(self)@, self@),
                k <= message_ids.len(),
            decreases message_ids.len() - k,
        {
            self.exec(
                "UPDATE standard_lxmf_propagation_message_links
                 SET state = 'deleted', updated_at = MAX(updated_at, ?2)
                 WHERE message_id = ?1",
                &[text_arg(message_ids[k].as_str()), int_arg(now)],
            )?;
            self.exec(
                "DELETE FROM standard_lxmf_propagation_client_jobs WHERE message_id = ?1",
                &[text_arg(message_ids[k].as_str())],
            )?;
            k = k + 1;
        }
        Ok(())
    }
}

/// A copy of an optional string.
pub fn copy_opt_text(t: &Option<String>) -> (r: Option<String>)
    ensures
        r == *t,
{
    match t {
        Some(s) => Some(s.clone()),
        None => None,
    }
}

/// A copy of a message.
pub fn copy_message(m: &MessageRecord) -> (r: MessageRecord)
    ensures
        r == *m,
{
    MessageRecord {
        id: m.id.clone(),
        source: m.source.clone(),
        destination: m.destination.clone(),
        title: m.title.clone(),
        content: m.content.clone(),
        timestamp: m.timestamp,
        direction: m.direction.clone(),
        fields: copy_opt_text(&m.fields),
        receipt_status: copy_opt_text(&m.receipt_status),
        read: m.read,
    }
}

/// A count as a `u64`, negative values as zero.
pub fn nonneg_u64(v: i64) -> (r: u64)
    ensures
        r == crate::message_rows::count_of(v),
{
    if v < 0 {
        0
    } else {
        v as u64
    }
}

/// The text ids in the first column of up to `limit` rows: it succeeds when
/// each row it takes has text there.
pub fn ids_of(rows: &Vec<Vec<SqlValue>>, limit: usize) -> (r: Result<Vec<String>, StoreError>)
    ensures
        r is Ok <==> forall|k: int| 0 <= k < taken(rows@.len() as int, limit)
            ==> crate::sql::is_text_col(#[trigger] rows@[k]@, 0),
        r matches Err(e) ==> e is InvalidColumn,
        r matches Ok(v) ==> v@.len() == taken(rows@.len() as int, limit),
        r matches Ok(v) ==> v@.len() <= limit && v@.len() <= rows@.len(),
        r matches Ok(v) ==> forall|k: int| 0 <= k < v@.len()
            ==> Some((#[trigger] v@[k])@) == crate::sql::text_value(rows@[k]@[0]),
{
    let mut out: Vec<String> = Vec::new();
    let mut i: usize = 0;
    while i < rows.len() && i < limit
        invariant
            i <= rows.len(),
            i <= limit,
            out@.len() == i,
            forall|k: int| 0 <= k < i ==> crate::sql::is_text_col(#[trigger] rows@[k]@, 0),
            forall|k: int| 0 <= k < i ==> Some((#[trigger] out@[k])@) == crate::sql::text_value(rows@[k]@[0]),
        decreases rows.len() - i,
    {
        out.push(col_text(rows[i].as_slice(), 0)?);
        i = i + 1;
    }
    Ok(out)
}

/// A strictly sorted list whose texts all come from `s` is no longer than `s`.
pub proof fn lemma_unique_sorted_len(u: Seq<Seq<char>>, s: Seq<Seq<char>>)
    requires
        strictly_sorted_texts(u),
        forall|x: Seq<char>| has_text(u, x) <==> has_text(s, x),
    ensures
        u.len() <= s.len(),
{
    let f = |i: int| choose|j: int| 0 <= j < s.len() && s[j] == u[i];
    assert forall|i: int| 0 <= i < u.len() implies 0 <= #[trigger] f(i) < s.len() && s[f(i)] == u[i] by {
        assert(has_text(u, u[i]));
    }
    assert forall|i: int, j: int| 0 <= i < j < u.len() implies #[trigger] f(i) != #[trigger] f(j) by {
        crate::text_order::lemma_text_irrefl(u[i]);
        assert(text_lt(u[i], u[j]));
    }
    lemma_injective_len(f, u.len() as int, s.len() as int);
}

proof fn lemma_injective_len(f: spec_fn(int) -> int, n: int, m: int)
    requires
        0 <= n,
        0 <= m,
        forall|i: int| 0 <= i < n ==> 0 <= #[trigger] f(i) < m,
        forall|i: int, j: int| 0 <= i < j < n ==> #[trigger] f(i) != #[trigger] f(j),
    ensures
        n <= m,
    decreases n,
{
    if n > 0 {
        let top = f(n - 1);
        let g = |i: int| if f(i) < top { f(i) } else { f(i) - 1 };
        assert forall|i: int| 0 <= i < n - 1 implies 0 <= #[trigger] g(i) < m - 1 by {
            assert(f(i) != f(n - 1));
        }
        assert forall|i: int, j: int| 0 <= i < j < n - 1 implies #[trigger] g(i) != #[trigger] g(j) by {
            assert(f(i) != f(j));
            assert(f(i) != top && f(j) != top);
        }
        lemma_injective_len(g, n - 1, m - 1);
    }
}

/// The read of the outbound messages older than a cutoff that are neither
/// sent nor terminal, oldest first.
pub const EXPIRY_READ_SQL: &'static str = "SELECT id
             FROM messages
             WHERE direction = 'out'
               AND timestamp < ?1
               AND (
                    receipt_status IS NULL
                    OR TRIM(receipt_status) = ''
                    OR (
                        LOWER(receipt_status) NOT LIKE 'sent%'
                        AND LOWER(receipt_status) NOT IN ('cancelled', 'delivered', 'failed', 'expired', 'rejected')
                    )
               )
             ORDER BY timestamp ASC, id ASC";

/// The statement that marks one message expired.
pub const EXPIRY_MARK_SQL: &'static str = "UPDATE messages SET receipt_status = 'expired' WHERE id = ?1";

/// Whether `call` read the messages due to expire before `cutoff` and `ids`
/// are the ids it returned, in its order.
pub open spec fn expiry_read(call: SqlCall, cutoff: i64, ids: Seq<Seq<char>>) -> bool {
    &&& call matches SqlCall::Query(q, a, Some(rows))
    &&& q == EXPIRY_READ_SQL@
    &&& a == seq![ArgView::Int(cutoff)]
    &&& ids.len() == rows.len()
    &&& forall|k: int| 0 <= k < ids.len() ==> Some(#[trigger] ids[k]) == crate::sql::text_value(rows[k][0])
}

/// Whether `call` marked the message `id` expired, and did so without error.
pub open spec fn expiry_mark(call: SqlCall, id: Seq<char>) -> bool {
    &&& call matches SqlCall::Execute(q, a, Some(_))
    &&& q == EXPIRY_MARK_SQL@
    &&& a == seq![ArgView::Text(id)]
}

/// The statement that sets a message's receipt status.
pub const RECEIPT_UPDATE_SQL: &'static str = "UPDATE messages SET receipt_status = ?1 WHERE id = ?2";

} // verus!
