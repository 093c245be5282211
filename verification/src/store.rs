//! The message store: an SQLite connection and the plumbing that every
//! operation shares — statements, transactions and row readers.
use vstd::prelude::*;
use crate::error::{invalid, StoreError};
use crate::outside::system_unix_secs;
use crate::sql::{args_view, rows_view, ArgView, SqlCall, bind_args, db_execute, db_execute_batch, db_open_in_memory, db_query, SqlArg, SqlValue};

verus! {

/// Seconds since the Unix epoch, clamped to `i64`, or zero when the clock
/// reads before the epoch.
pub open spec fn clamp_secs(r: Option<u64>) -> i64 {
    match r {
        Some(s) => if s > i64::MAX as u64 { i64::MAX } else { s as i64 },
        None => 0,
    }
}

/// Whole seconds since the Unix epoch from a clock reading (`None` for a
/// reading before the epoch): saturated at `i64::MAX`, zero before the epoch.
pub fn clock_seconds(reading: Option<u64>) -> (r: i64)
    ensures
        r == clamp_secs(reading),
        r >= 0,
{
    match reading {
        Some(s) => if s > i64::MAX as u64 {
            i64::MAX
        } else {
            s as i64
        },
        None => 0,
    }
}

/// Current Unix time in seconds: `clock_seconds` of the system clock's
/// reading, so never negative.
pub fn unix_time_secs() -> (r: i64)
    ensures
        r >= 0,
        exists|reading: Option<u64>| r == clamp_secs(reading),
{
    let reading = system_unix_secs();
    clock_seconds(reading)
}

/// Current Unix time in seconds, read the same way as `unix_time_secs`.
pub fn unix_now() -> (r: i64)
    ensures
        r >= 0,
        exists|reading: Option<u64>| r == clamp_secs(reading),
{
    let reading = system_unix_secs();
    clock_seconds(reading)
}

/// The message store.
pub struct MessagesStore {
    pub(crate) conn: rusqlite::Connection,
    pub(crate) trace: Ghost<Seq<SqlCall>>,
}

/// A store is seen as the calls it has handed to SQLite, in order.
impl View for MessagesStore {
    type V = Seq<SqlCall>;

    closed spec fn view(&self) -> Seq<SqlCall> {
        self.trace@
    }
}

/// The call that starts a deferred transaction.
pub open spec fn begin_call() -> SqlCall {
    SqlCall::Batch("BEGIN DEFERRED"@)
}

/// The call that starts a transaction holding the write lock.
pub open spec fn begin_immediate_call() -> SqlCall {
    SqlCall::Batch("BEGIN IMMEDIATE"@)
}

/// The call that commits a transaction.
pub open spec fn commit_call() -> SqlCall {
    SqlCall::Batch("COMMIT"@)
}

/// The call that rolls a transaction back.
pub open spec fn rollback_call() -> SqlCall {
    SqlCall::Batch("ROLLBACK"@)
}

/// Whether an operation that succeeded handed nothing over, or ended its
/// calls by committing its transaction.
pub open spec fn succeeded_atomically(before: Seq<SqlCall>, after: Seq<SqlCall>) -> bool {
    ||| after == before
    ||| (after.len() > 0 && after.last() == commit_call())
}

/// Whether an operation that failed left nothing it started in effect: it
/// handed nothing over, or only a transaction start (which failed), or its
/// calls end by rolling back.
pub open spec fn failed_cleanly(before: Seq<SqlCall>, after: Seq<SqlCall>) -> bool {
    ||| after == before
    ||| after == before.push(begin_call())
    ||| after == before.push(begin_immediate_call())
    ||| (after.len() > 0 && after.last() == rollback_call())
}

/// A text parameter.
pub fn text_arg(s: &str) -> (a: SqlArg)
    ensures
        a matches SqlArg::Text(t) && t@ == s@,
{
    SqlArg::Text(crate::text::owned(s))
}

/// An optional text parameter: `NULL` when absent.
pub fn opt_text_arg(s: Option<&str>) -> (a: SqlArg)
    ensures
        s is None ==> a == SqlArg::Null,
        s matches Some(v) ==> (a matches SqlArg::Text(t) && t@ == v@),
{
    match s {
        Some(v) => text_arg(v),
        None => SqlArg::Null,
    }
}

/// An integer parameter.
pub fn int_arg(v: i64) -> (a: SqlArg)
    ensures
        a == SqlArg::Int(v),
{
    SqlArg::Int(v)
}

/// An optional integer parameter: `NULL` when absent.
pub fn opt_int_arg(v: Option<i64>) -> (a: SqlArg)
    ensures
        v is None ==> a == SqlArg::Null,
        v matches Some(x) ==> a == SqlArg::Int(x),
{
    match v {
        Some(x) => SqlArg::Int(x),
        None => SqlArg::Null,
    }
}

/// A copy of a byte slice.
pub fn bytes_vec(b: &[u8]) -> (v: Vec<u8>)
    ensures
        v@ == b@,
{
    let mut out: Vec<u8> = Vec::new();
    let mut i: usize = 0;
    while i < b.len()
        invariant
            i <= b.len(),
            out@ == b@.subrange(0, i as int),
        decreases b.len() - i,
    {
        out.push(b[i]);
        proof {
            assert(b@.subrange(0, i + 1) =~= b@.subrange(0, i as int).push(b@[i as int]));
        }
        i = i + 1;
    }
    assert(b@.subrange(0, b@.len() as int) =~= b@);
    out
}

/// A blob parameter.
pub fn blob_arg(b: &[u8]) -> (a: SqlArg)
    ensures
        a matches SqlArg::Blob(v) && v@ == b@,
{
    SqlArg::Blob(bytes_vec(b))
}

/// An optional blob parameter: `NULL` when absent.
pub fn opt_blob_arg(b: Option<&[u8]>) -> (a: SqlArg)
    ensures
        b is None ==> a == SqlArg::Null,
        b matches Some(v) ==> (a matches SqlArg::Blob(w) && w@ == v@),
{
    match b {
        Some(v) => blob_arg(v),
        None => SqlArg::Null,
    }
}

/// The borrowed bytes of an optional byte vector.
pub fn opt_slice(o: &Option<Vec<u8>>) -> (r: Option<&[u8]>)
    ensures
        r is None <==> o is None,
        r matches Some(s) ==> (o matches Some(v) && s@ == v@),
{
    match o {
        Some(v) => Some(v.as_slice()),
        None => None,
    }
}

/// The borrowed text of an optional string.
pub fn opt_str(o: &Option<String>) -> (r: Option<&str>)
    ensures
        r is None <==> o is None,
        r matches Some(s) ==> (o matches Some(v) && s@ == v@),
{
    match o {
        Some(v) => Some(v.as_str()),
        None => None,
    }
}

/// The first row of `rows`, if any.
pub fn first_of(rows: Vec<Vec<SqlValue>>) -> (r: Option<Vec<SqlValue>>)
    ensures
        rows@.len() == 0 ==> r is None,
        rows@.len() > 0 ==> r == Some(rows@[0]),
{
    let mut rows = rows;
    if rows.len() == 0 {
        None
    } else {
        Some(rows.swap_remove(0))
    }
}

impl MessagesStore {
    /// A store over an empty in-memory database with the full schema.
    pub fn in_memory() -> (r: Result<MessagesStore, StoreError>) {
        let conn = match db_open_in_memory() {
            Ok(c) => c,
            Err(e) => return Err(StoreError::Database(e)),
        };
        MessagesStore::from_connection(conn, &[])
    }

    /// A store over an opened connection: configures it and brings the schema
    /// up to date. `legacy` holds the decodings of the stored wires of legacy
    /// canonical messages, which one migration rewrites.
    pub fn from_connection(
        conn: rusqlite::Connection,
        legacy: &[crate::schema::LegacyInboundDecode],
    ) -> (r: Result<MessagesStore, StoreError>) {
        let mut store = MessagesStore { conn, trace: Ghost(Seq::empty()) };
        store.configure_connection()?;
        store.init_schema(legacy)?;
        Ok(store)
    }

    /// The underlying connection.
    pub fn connection(&self) -> &rusqlite::Connection {
        &self.conn
    }

    fn configure_connection(&mut self) -> (r: Result<(), StoreError>) {
        self.batch(
            "PRAGMA busy_timeout = 5000; PRAGMA foreign_keys = ON; PRAGMA journal_mode = WAL; PRAGMA synchronous = NORMAL;",
        )
    }

    /// Runs one statement with its parameters; returns the number of rows it
    /// changed.
    pub(crate) fn exec(&mut self, sql: &str, args: &[SqlArg]) -> (r: Result<usize, StoreError>)
        ensures
            extends(old(self)@, final(self)@),
            final(self)@ == old(self)@.push(SqlCall::Execute(sql@, args_view(args@), changed_count(r))),
            r matches Err(e) ==> e is Database,
    {
        let params = bind_args(args);
        let result = db_execute(&mut self.conn, sql, params.as_slice());
        let r = match result {
            Ok(n) => Ok(n),
            Err(e) => Err(StoreError::Database(e)),
        };
        proof {
            self.trace@ = self.trace@.push(SqlCall::Execute(sql@, args_view(args@), changed_count(r)));
        }
        r
    }

    /// Runs SQL text without parameters.
    pub(crate) fn batch(&mut self, sql: &str) -> (r: Result<(), StoreError>)
        ensures
            extends(old(self)@, final(self)@),
            final(self)@ == old(self)@.push(SqlCall::Batch(sql@)),
            r matches Err(e) ==> e is Database,
    {
        let result = db_execute_batch(&mut self.conn, sql);
        proof {
            self.trace@ = self.trace@.push(SqlCall::Batch(sql@));
        }
        match result {
            Ok(()) => Ok(()),
            Err(e) => Err(StoreError::Database(e)),
        }
    }

    /// Every row of a query with its parameters.
    pub(crate) fn rows(&mut self, sql: &str, args: &[SqlArg]) -> (r: Result<Vec<Vec<SqlValue>>, StoreError>)
        ensures
            extends(old(self)@, final(self)@),
            final(self)@ == old(self)@.push(query_call(sql@, args@, r)),
            r matches Err(e) ==> e is Database,
    {
        let params = bind_args(args);
        let result = db_query(&mut self.conn, sql, params.as_slice());
        let r = match result {
            Ok(rows) => Ok(rows),
            Err(e) => Err(StoreError::Database(e)),
        };
        proof {
            self.trace@ = self.trace@.push(query_call(sql@, args@, r));
        }
        r
    }

    /// The first row of a query, if any.
    pub(crate) fn first_row(&mut self, sql: &str, args: &[SqlArg]) -> (r: Result<Option<Vec<SqlValue>>, StoreError>)
        ensures
            extends(old(self)@, final(self)@),
            one_query(old(self)@, final(self)@, sql@, args@),
            r matches Ok(o) ==> (final(self)@.last() matches SqlCall::Query(_, _, Some(rows)) && (o is None <==> rows.len()
                == 0) && (o matches Some(row) ==> row@ == rows[0])),
            r matches Err(e) ==> e is Database,
    {
        let result = self.rows(sql, args);
        proof {
            assert(self@.drop_last() =~= old(self)@);
        }
        let rows = result?;
        proof {
            assert(final_rows_view_first(rows@));
        }
        Ok(first_of(rows))
    }

    /// The integer in the first column of the first row of a query.
    pub(crate) fn int_query(&mut self, sql: &str, args: &[SqlArg]) -> (r: Result<i64, StoreError>)
        ensures
            extends(old(self)@, final(self)@),
            one_query(old(self)@, final(self)@, sql@, args@),
            r matches Ok(v) ==> query_int(final(self)@.last()) == Some(v),
            r matches Err(e) ==> (e is Database || e is QueryReturnedNoRows || e is InvalidColumn),
    {
        match self.first_row(sql, args)? {
            Some(row) => crate::sql::col_int(row.as_slice(), 0),
            None => Err(StoreError::QueryReturnedNoRows),
        }
    }

    /// Whether the first column of the first row of a query is a non-zero integer.
    pub(crate) fn bool_query(&mut self, sql: &str, args: &[SqlArg]) -> (r: Result<bool, StoreError>)
        ensures
            extends(old(self)@, final(self)@),
            one_query(old(self)@, final(self)@, sql@, args@),
            r matches Ok(b) ==> (query_int(final(self)@.last()) matches Some(v) && b == (v != 0)),
            r matches Err(e) ==> (e is Database || e is QueryReturnedNoRows || e is InvalidColumn),
    {
        let v = self.int_query(sql, args)?;
        Ok(v != 0)
    }

    /// Starts a deferred transaction.
    pub(crate) fn begin(&mut self) -> (r: Result<(), StoreError>)
        ensures
            extends(old(self)@, final(self)@),
            final(self)@ == old(self)@.push(begin_call()),
    {
        self.batch("BEGIN DEFERRED")
    }

    /// Starts a transaction that takes the write lock at once.
    pub(crate) fn begin_immediate(&mut self) -> (r: Result<(), StoreError>)
        ensures
            extends(old(self)@, final(self)@),
            final(self)@ == old(self)@.push(begin_immediate_call()),
    {
        self.batch("BEGIN IMMEDIATE")
    }

    /// Ends a transaction: commits when `r` succeeded, rolls back when it
    /// failed. Succeeds with `r`'s value only when `r` did and the commit did;
    /// the last call is the commit on success and a rollback on failure.
    pub(crate) fn finish<T>(&mut self, r: Result<T, StoreError>) -> (out: Result<T, StoreError>)
        ensures
            extends(old(self)@, final(self)@),
            out matches Ok(v) ==> r matches Ok(w) && v == w,
            r is Err ==> out is Err,
            out is Ok ==> final(self)@ == old(self)@.push(commit_call()),
            out is Err ==> final(self)@.len() > old(self)@.len() && final(self)@.last() == rollback_call(),
    {
        match r {
            Ok(v) => match self.batch("COMMIT") {
                Ok(()) => Ok(v),
                Err(e) => {
                    let _ = self.batch("ROLLBACK");
                    Err(e)
                },
            },
            Err(e) => {
                let _ = self.batch("ROLLBACK");
                Err(e)
            },
        }
    }
}

/// The call a query makes: its text, its parameters and, when it succeeded,
/// its rows.
pub open spec fn query_call(sql: Seq<char>, args: Seq<SqlArg>, r: Result<Vec<Vec<SqlValue>>, StoreError>) -> SqlCall {
    SqlCall::Query(sql, args_view(args), match r {
        Ok(rows) => Some(rows_view(rows@)),
        Err(_) => None,
    })
}

/// The integer in the first column of the first row a query returned, when
/// there is one.
pub open spec fn query_int(call: SqlCall) -> Option<i64> {
    match call {
        SqlCall::Query(_, _, Some(rows)) => if rows.len() > 0 && rows[0].len() > 0 {
            match rows[0][0] {
                SqlValue::Int(v) => Some(v),
                _ => None,
            }
        } else {
            None
        },
        _ => None,
    }
}

/// The number of rows a statement changed, when it succeeded.
pub open spec fn changed_count(r: Result<usize, StoreError>) -> Option<usize> {
    match r {
        Ok(n) => Some(n),
        Err(_) => None,
    }
}

/// Whether `call` ran `sql` with `args` and `r` reports whether it changed a
/// row: true exactly when it changed at least one.
pub open spec fn change_reported(call: SqlCall, sql: Seq<char>, args: Seq<ArgView>, r: Result<bool, StoreError>) -> bool {
    &&& call matches SqlCall::Execute(q, a, n)
    &&& q == sql
    &&& a == args
    &&& match r {
        Ok(b) => n matches Some(c) && b == (c > 0),
        Err(_) => n is None,
    }
}

/// Whether `after` begins with every call of `before`.
pub open spec fn extends(before: Seq<SqlCall>, after: Seq<SqlCall>) -> bool {
    &&& before.len() <= after.len()
    &&& forall|i: int| 0 <= i < before.len() ==> #[trigger] after[i] == before[i]
}

/// Whether `after` is `before` with one more query of `sql` with `args`.
pub open spec fn one_query(before: Seq<SqlCall>, after: Seq<SqlCall>, sql: Seq<char>, args: Seq<SqlArg>) -> bool {
    &&& after.len() == before.len() + 1
    &&& after.drop_last() == before
    &&& after.last() matches SqlCall::Query(q, a, _) && q == sql && a == args_view(args)
}

/// The rows of a query seen as sequences keep their first row.
pub open spec fn final_rows_view_first(rows: Seq<Vec<SqlValue>>) -> bool {
    rows.len() > 0 ==> rows_view(rows)[0] == rows[0]@
}

} // verus!
