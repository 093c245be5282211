//! The SQLite connection, reached through `rusqlite`, and the plain values
//! that statements take and return.
//!
//! What a statement returns depends on what the database holds, which may be
//! on disk; the calls below promise nothing of it, and every row they return
//! is checked by the verified readers in this module before it is used.
use vstd::prelude::*;
use crate::error::StoreError;
use rusqlite::types::ValueRef;

verus! {

#[verifier::external_type_specification]
#[verifier::external_body]
pub struct ExConnection(rusqlite::Connection);

#[verifier::external_type_specification]
#[verifier::external_body]
pub struct ExSqliteError(rusqlite::Error);

#[verifier::external_type_specification]
#[verifier::external_body]
pub struct ExSqliteValue(rusqlite::types::Value);

#[verifier::external_type_specification]
#[verifier::external_body]
pub struct ExSqliteValueRef<'a>(rusqlite::types::ValueRef<'a>);

/// A statement parameter; `Value` carries a value the library passes
/// through without reading it, such as a `REAL`.
#[derive(Clone, Debug, PartialEq)]
pub enum SqlArg {
    Null,
    Int(i64),
    Text(String),
    Blob(Vec<u8>),
    Value(rusqlite::types::Value),
}

/// A column value as SQLite stores it; a `REAL` is kept as the value SQLite
/// gave, and `TEXT` as its raw bytes, which need not be valid UTF-8.
#[derive(Clone, Debug, PartialEq)]
pub enum SqlValue {
    Null,
    Int(i64),
    Real(rusqlite::types::Value),
    Text(Vec<u8>),
    Blob(Vec<u8>),
}

/// A statement parameter as a plain value.
pub enum ArgView {
    Null,
    Int(i64),
    Text(Seq<char>),
    Blob(Seq<u8>),
    Value(rusqlite::types::Value),
}

/// The plain value of a parameter.
pub open spec fn arg_view(a: SqlArg) -> ArgView {
    match a {
        SqlArg::Null => ArgView::Null,
        SqlArg::Int(v) => ArgView::Int(v),
        SqlArg::Text(s) => ArgView::Text(s@),
        SqlArg::Blob(b) => ArgView::Blob(b@),
        SqlArg::Value(v) => ArgView::Value(v),
    }
}

/// The plain values of a parameter list.
pub open spec fn args_view(args: Seq<SqlArg>) -> Seq<ArgView> {
    args.map_values(|a: SqlArg| arg_view(a))
}

/// The rows of a query as plain sequences.
pub open spec fn rows_view(rows: Seq<Vec<SqlValue>>) -> Seq<Seq<SqlValue>> {
    rows.map_values(|row: Vec<SqlValue>| row@)
}

/// One call the store hands to SQLite: a statement with its parameters and,
/// when it succeeded, the number of rows it changed; SQL text run as a
/// batch; or a query with its parameters and, when it succeeded, the rows it
/// returned.
pub enum SqlCall {
    Execute(Seq<char>, Seq<ArgView>, Option<usize>),
    Batch(Seq<char>),
    Query(Seq<char>, Seq<ArgView>, Option<Seq<Seq<SqlValue>>>),
}

/// The `rusqlite` value that binds a parameter, variant for variant.
#[verifier::external_body]
fn arg_value(arg: &SqlArg) -> rusqlite::types::Value {
    match arg {
        SqlArg::Null => rusqlite::types::Value::Null,
        SqlArg::Int(value) => rusqlite::types::Value::Integer(*value),
        SqlArg::Text(value) => rusqlite::types::Value::Text(value.clone()),
        SqlArg::Blob(value) => rusqlite::types::Value::Blob(value.clone()),
        SqlArg::Value(value) => value.clone(),
    }
}

/// The values that bind `args`, one for each, in order.
pub(crate) fn bind_args(args: &[SqlArg]) -> (values: Vec<rusqlite::types::Value>)
    ensures
        values@.len() == args@.len(),
{
    let mut values: Vec<rusqlite::types::Value> = Vec::new();
    let mut i: usize = 0;
    while i < args.len()
        invariant
            i <= args.len(),
            values@.len() == i,
        decreases args.len() - i,
    {
        values.push(arg_value(&args[i]));
        i = i + 1;
    }
    values
}

/// `rusqlite::Connection::open_in_memory`.
#[verifier::external_body]
pub(crate) fn db_open_in_memory() -> (r: Result<rusqlite::Connection, rusqlite::Error>) {
    rusqlite::Connection::open_in_memory()
}

/// `rusqlite::Connection::execute` of one statement with positional parameters;
/// returns the number of rows the statement changed.
#[verifier::external_body]
pub(crate) fn db_execute(conn: &rusqlite::Connection, sql: &str, params: &[rusqlite::types::Value]) -> (r: Result<
    usize,
    rusqlite::Error,
>) {
    conn.execute(sql, rusqlite::params_from_iter(params))
}

/// `rusqlite::Connection::execute_batch` of SQL text without parameters.
#[verifier::external_body]
pub(crate) fn db_execute_batch(conn: &rusqlite::Connection, sql: &str) -> (r: Result<
    (),
    rusqlite::Error,
>) {
    conn.execute_batch(sql)
}

/// Every row of a query (`rusqlite::Statement::query_map`), each as the list
/// of its columns, each column taken variant for variant.
#[verifier::external_body]
pub(crate) fn db_query(conn: &rusqlite::Connection, sql: &str, params: &[rusqlite::types::Value]) -> (r: Result<
    Vec<Vec<SqlValue>>,
    rusqlite::Error,
>) {
    let mut statement = conn.prepare(sql)?;
    let columns = statement.column_count();
    let rows = statement.query_map(rusqlite::params_from_iter(params), |row| {
        (0..columns)
            .map(|i| row.get_ref(i).map(|value| match value {
                ValueRef::Null => SqlValue::Null,
                ValueRef::Integer(v) => SqlValue::Int(v),
                ValueRef::Real(v) => SqlValue::Real(rusqlite::types::Value::Real(v)),
                ValueRef::Text(v) => SqlValue::Text(v.to_vec()),
                ValueRef::Blob(v) => SqlValue::Blob(v.to_vec()),
            }))
            .collect()
    })?;
    rows.collect()
}

// ── Readers of column values ───────────────────────────────────────────

/// The text a column value holds, when it is `TEXT` in valid UTF-8.
pub open spec fn text_value(v: SqlValue) -> Option<Seq<char>> {
    match v {
        SqlValue::Text(bytes) => if vstd::utf8::valid_utf8(bytes@) {
            Some(vstd::utf8::decode_utf8(bytes@))
        } else {
            None
        },
        _ => None,
    }
}

/// Whether column `i` of `row` reads as text.
pub open spec fn is_text_col(row: Seq<SqlValue>, i: int) -> bool {
    0 <= i < row.len() && text_value(row[i]) is Some
}

/// Whether column `i` of `row` reads as an optional text: `NULL` or text.
pub open spec fn is_opt_text_col(row: Seq<SqlValue>, i: int) -> bool {
    0 <= i < row.len() && (row[i] is Null || text_value(row[i]) is Some)
}

/// The optional text of column `i`.
pub open spec fn opt_text_col(row: Seq<SqlValue>, i: int) -> Option<Seq<char>> {
    if row[i] is Null {
        None
    } else {
        text_value(row[i])
    }
}

/// Whether column `i` of `row` is an integer.
pub open spec fn is_int_col(row: Seq<SqlValue>, i: int) -> bool {
    0 <= i < row.len() && row[i] is Int
}

/// Whether column `i` of `row` is `NULL` or an integer.
pub open spec fn is_opt_int_col(row: Seq<SqlValue>, i: int) -> bool {
    0 <= i < row.len() && (row[i] is Null || row[i] is Int)
}

/// The optional integer of column `i`.
pub open spec fn opt_int_col(row: Seq<SqlValue>, i: int) -> Option<i64> {
    match row[i] {
        SqlValue::Int(v) => Some(v),
        _ => None,
    }
}

/// Whether column `i` of `row` is a blob.
pub open spec fn is_blob_col(row: Seq<SqlValue>, i: int) -> bool {
    0 <= i < row.len() && row[i] is Blob
}

/// Whether column `i` of `row` is `NULL` or a blob.
pub open spec fn is_opt_blob_col(row: Seq<SqlValue>, i: int) -> bool {
    0 <= i < row.len() && (row[i] is Null || row[i] is Blob)
}

/// The optional blob of column `i`.
pub open spec fn opt_blob_col(row: Seq<SqlValue>, i: int) -> Option<Seq<u8>> {
    match row[i] {
        SqlValue::Blob(b) => Some(b@),
        _ => None,
    }
}

/// Column `i` as text.
pub fn col_text(row: &[SqlValue], i: usize) -> (r: Result<String, StoreError>)
    ensures
        r is Ok <==> is_text_col(row@, i as int),
        r matches Ok(s) ==> Some(s@) == text_value(row@[i as int]),
        r matches Err(e) ==> e is InvalidColumn,
{
    if i >= row.len() {
        return Err(StoreError::InvalidColumn(i));
    }
    match &row[i] {
        SqlValue::Text(bytes) => match crate::text::string_from_utf8(bytes.clone()) {
            Some(s) => Ok(s),
            None => Err(StoreError::InvalidColumn(i)),
        },
        _ => Err(StoreError::InvalidColumn(i)),
    }
}

/// Column `i` as optional text.
pub fn col_opt_text(row: &[SqlValue], i: usize) -> (r: Result<Option<String>, StoreError>)
    ensures
        r is Ok <==> is_opt_text_col(row@, i as int),
        r matches Ok(s) ==> crate::text::opt_view(s) == opt_text_col(row@, i as int),
        r matches Err(e) ==> e is InvalidColumn,
{
    if i >= row.len() {
        return Err(StoreError::InvalidColumn(i));
    }
    match &row[i] {
        SqlValue::Null => Ok(None),
        _ => match col_text(row, i) {
            Ok(s) => Ok(Some(s)),
            Err(e) => Err(e),
        },
    }
}

/// Column `i` as an integer.
pub fn col_int(row: &[SqlValue], i: usize) -> (r: Result<i64, StoreError>)
    ensures
        r is Ok <==> is_int_col(row@, i as int),
        r matches Ok(v) ==> row@[i as int] == SqlValue::Int(v),
        r matches Err(e) ==> e is InvalidColumn,
{
    if i >= row.len() {
        return Err(StoreError::InvalidColumn(i));
    }
    match &row[i] {
        SqlValue::Int(v) => Ok(*v),
        _ => Err(StoreError::InvalidColumn(i)),
    }
}

/// Column `i` as an optional integer.
pub fn col_opt_int(row: &[SqlValue], i: usize) -> (r: Result<Option<i64>, StoreError>)
    ensures
        r is Ok <==> is_opt_int_col(row@, i as int),
        r matches Ok(v) ==> v == opt_int_col(row@, i as int),
        r matches Err(e) ==> e is InvalidColumn,
{
    if i >= row.len() {
        return Err(StoreError::InvalidColumn(i));
    }
    match &row[i] {
        SqlValue::Null => Ok(None),
        SqlValue::Int(v) => Ok(Some(*v)),
        _ => Err(StoreError::InvalidColumn(i)),
    }
}

/// Column `i` as a blob.
pub fn col_blob(row: &[SqlValue], i: usize) -> (r: Result<Vec<u8>, StoreError>)
    ensures
        r is Ok <==> is_blob_col(row@, i as int),
        r matches Ok(b) ==> opt_blob_col(row@, i as int) == Some(b@),
        r matches Err(e) ==> e is InvalidColumn,
{
    if i >= row.len() {
        return Err(StoreError::InvalidColumn(i));
    }
    match &row[i] {
        SqlValue::Blob(v) => Ok(v.clone()),
        _ => Err(StoreError::InvalidColumn(i)),
    }
}

/// Column `i` as an optional blob.
pub fn col_opt_blob(row: &[SqlValue], i: usize) -> (r: Result<Option<Vec<u8>>, StoreError>)
    ensures
        r is Ok <==> is_opt_blob_col(row@, i as int),
        r matches Ok(v) ==> crate::text::opt_bytes(v) == opt_blob_col(row@, i as int),
        r matches Err(e) ==> e is InvalidColumn,
{
    if i >= row.len() {
        return Err(StoreError::InvalidColumn(i));
    }
    match &row[i] {
        SqlValue::Null => Ok(None),
        SqlValue::Blob(v) => Ok(Some(v.clone())),
        _ => Err(StoreError::InvalidColumn(i)),
    }
}

/// The bytes of a blob value; empty for any other value.
pub open spec fn blob_of(v: SqlValue) -> Seq<u8> {
    match v {
        SqlValue::Blob(b) => b@,
        _ => Seq::empty(),
    }
}

/// The integer of an integer value; zero for any other value.
pub open spec fn int_of(v: SqlValue) -> i64 {
    match v {
        SqlValue::Int(x) => x,
        _ => 0,
    }
}

/// Whether column `i` of `row` is a blob of exactly `n` bytes.
pub open spec fn is_blob_len_col(row: Seq<SqlValue>, i: int, n: nat) -> bool {
    0 <= i < row.len() && row[i] is Blob && blob_of(row[i]).len() == n
}

/// Whether column `i` of `row` is `NULL` or a blob of exactly `n` bytes.
pub open spec fn is_opt_blob_len_col(row: Seq<SqlValue>, i: int, n: nat) -> bool {
    0 <= i < row.len() && (row[i] is Null || (row[i] is Blob && blob_of(row[i]).len() == n))
}

/// Whether column `i` of `row` is an integer that fits `usize`.
pub open spec fn is_usize_col(row: Seq<SqlValue>, i: int) -> bool {
    0 <= i < row.len() && row[i] is Int && 0 <= int_of(row[i]) <= usize::MAX
}

/// Whether column `i` of `row` is `NULL` or an integer that fits `usize`.
pub open spec fn is_opt_usize_col(row: Seq<SqlValue>, i: int) -> bool {
    0 <= i < row.len() && (row[i] is Null || (row[i] is Int && 0 <= int_of(row[i]) <= usize::MAX))
}

/// Whether column `i` of `row` is an integer that fits `u32`.
pub open spec fn is_u32_col(row: Seq<SqlValue>, i: int) -> bool {
    0 <= i < row.len() && row[i] is Int && 0 <= int_of(row[i]) <= u32::MAX
}

/// Whether column `i` of `row` is `NULL` or an integer that fits `u32`.
pub open spec fn is_opt_u32_col(row: Seq<SqlValue>, i: int) -> bool {
    0 <= i < row.len() && (row[i] is Null || (row[i] is Int && 0 <= int_of(row[i]) <= u32::MAX))
}

/// An array holding the bytes of `v`, which has `N` of them.
pub fn array_of<const N: usize>(v: &[u8]) -> (a: [u8; N])
    requires
        v@.len() == N,
    ensures
        a@ == v@,
{
    let mut out = [0u8; N];
    let mut i: usize = 0;
    while i < N
        invariant
            i <= N,
            v@.len() == N,
            out@.len() == N,
            forall|j: int| 0 <= j < i ==> out@[j] == v@[j],
        decreases N - i,
    {
        out[i] = v[i];
        i = i + 1;
    }
    assert(out@ =~= v@);
    out
}

/// A blob of `N` bytes as an array; `InvalidParameter` for another length.
pub fn blob_array<const N: usize>(v: &[u8], field: &str) -> (r: Result<[u8; N], StoreError>)
    ensures
        r is Ok <==> v@.len() == N,
        r matches Ok(a) ==> a@ == v@,
        r matches Err(e) ==> e is InvalidParameter,
{
    if v.len() != N {
        return Err(crate::error::invalid(field));
    }
    Ok(array_of::<N>(v))
}

/// Column `i` as a blob of exactly `N` bytes.
pub fn col_array<const N: usize>(row: &[SqlValue], i: usize) -> (r: Result<[u8; N], StoreError>)
    ensures
        r is Ok <==> is_blob_len_col(row@, i as int, N as nat),
        r matches Ok(a) ==> a@ == blob_of(row@[i as int]),
        r matches Err(e) ==> (e is InvalidColumn || e is InvalidParameter),
{
    if i >= row.len() {
        return Err(StoreError::InvalidColumn(i));
    }
    match &row[i] {
        SqlValue::Blob(v) => blob_array::<N>(v.as_slice(), "blob column length"),
        _ => Err(StoreError::InvalidColumn(i)),
    }
}

/// Column `i` as `NULL` or a blob of exactly `N` bytes.
pub fn col_opt_array<const N: usize>(row: &[SqlValue], i: usize) -> (r: Result<Option<[u8; N]>, StoreError>)
    ensures
        r is Ok <==> is_opt_blob_len_col(row@, i as int, N as nat),
        r matches Ok(o) ==> (o is None <==> row@[i as int] is Null),
        r matches Ok(o) ==> (o matches Some(a) ==> a@ == blob_of(row@[i as int])),
        r matches Err(e) ==> (e is InvalidColumn || e is InvalidParameter),
{
    if i >= row.len() {
        return Err(StoreError::InvalidColumn(i));
    }
    match &row[i] {
        SqlValue::Null => Ok(None),
        SqlValue::Blob(v) => match blob_array::<N>(v.as_slice(), "blob column length") {
            Ok(a) => Ok(Some(a)),
            Err(e) => Err(e),
        },
        _ => Err(StoreError::InvalidColumn(i)),
    }
}

/// Column `i` as a `usize`: an integer column, `InvalidParameter` when negative
/// or too large.
pub fn col_usize(row: &[SqlValue], i: usize) -> (r: Result<usize, StoreError>)
    ensures
        r is Ok <==> is_usize_col(row@, i as int),
        r matches Ok(v) ==> v == int_of(row@[i as int]),
        r matches Err(e) ==> (e is InvalidColumn || e is InvalidParameter),
{
    if i >= row.len() {
        return Err(StoreError::InvalidColumn(i));
    }
    match &row[i] {
        SqlValue::Int(v) => i64_to_usize(*v, "integer column range"),
        _ => Err(StoreError::InvalidColumn(i)),
    }
}

/// Column `i` as `NULL` or a `usize`.
pub fn col_opt_usize(row: &[SqlValue], i: usize) -> (r: Result<Option<usize>, StoreError>)
    ensures
        r is Ok <==> is_opt_usize_col(row@, i as int),
        r matches Ok(o) ==> (o is None <==> row@[i as int] is Null),
        r matches Ok(o) ==> (o matches Some(v) ==> v == int_of(row@[i as int])),
        r matches Err(e) ==> (e is InvalidColumn || e is InvalidParameter),
{
    if i >= row.len() {
        return Err(StoreError::InvalidColumn(i));
    }
    match &row[i] {
        SqlValue::Null => Ok(None),
        SqlValue::Int(v) => match i64_to_usize(*v, "integer column range") {
            Ok(x) => Ok(Some(x)),
            Err(e) => Err(e),
        },
        _ => Err(StoreError::InvalidColumn(i)),
    }
}

/// Column `i` as a `u32`.
pub fn col_u32(row: &[SqlValue], i: usize) -> (r: Result<u32, StoreError>)
    ensures
        r is Ok <==> is_u32_col(row@, i as int),
        r matches Ok(v) ==> v == int_of(row@[i as int]),
        r matches Err(e) ==> (e is InvalidColumn || e is InvalidParameter),
{
    if i >= row.len() {
        return Err(StoreError::InvalidColumn(i));
    }
    match &row[i] {
        SqlValue::Int(v) => if 0 <= *v && *v <= u32::MAX as i64 {
            Ok(*v as u32)
        } else {
            Err(crate::error::invalid("integer column range"))
        },
        _ => Err(StoreError::InvalidColumn(i)),
    }
}

/// Column `i` as `NULL` or a `u32`.
pub fn col_opt_u32(row: &[SqlValue], i: usize) -> (r: Result<Option<u32>, StoreError>)
    ensures
        r is Ok <==> is_opt_u32_col(row@, i as int),
        r matches Ok(o) ==> (o is None <==> row@[i as int] is Null),
        r matches Ok(o) ==> (o matches Some(v) ==> v == int_of(row@[i as int])),
        r matches Err(e) ==> (e is InvalidColumn || e is InvalidParameter),
{
    if i >= row.len() {
        return Err(StoreError::InvalidColumn(i));
    }
    match &row[i] {
        SqlValue::Null => Ok(None),
        SqlValue::Int(_) => match col_u32(row, i) {
            Ok(x) => Ok(Some(x)),
            Err(e) => Err(e),
        },
        _ => Err(StoreError::InvalidColumn(i)),
    }
}

/// Column `i` as a boolean: an integer column, true when non-zero.
pub fn col_bool(row: &[SqlValue], i: usize) -> (r: Result<bool, StoreError>)
    ensures
        r is Ok <==> is_int_col(row@, i as int),
        r matches Ok(b) ==> b == (int_of(row@[i as int]) != 0),
        r matches Err(e) ==> e is InvalidColumn,
{
    match col_int(row, i) {
        Ok(v) => Ok(v != 0),
        Err(e) => Err(e),
    }
}

/// `v` as a `usize`; `InvalidParameter` when it does not fit.
pub fn i64_to_usize(v: i64, field: &str) -> (r: Result<usize, StoreError>)
    ensures
        r is Ok <==> (0 <= v && v <= usize::MAX),
        r matches Ok(x) ==> x == v,
        r matches Err(e) ==> e is InvalidParameter,
{
    if v < 0 {
        return Err(crate::error::invalid(field));
    }
    let u = v as u64;
    if u > usize::MAX as u64 {
        return Err(crate::error::invalid(field));
    }
    Ok(u as usize)
}

/// `v` as an `i64`; `InvalidParameter` when it does not fit.
pub fn usize_to_i64(v: usize, field: &str) -> (r: Result<i64, StoreError>)
    ensures
        r is Ok <==> v <= i64::MAX,
        r matches Ok(x) ==> x == v,
        r matches Err(e) ==> e is InvalidParameter,
{
    if v as u64 > i64::MAX as u64 {
        return Err(crate::error::invalid(field));
    }
    Ok(v as i64)
}

/// The bytes of a blob value, `None` for `NULL` or another value.
pub open spec fn opt_blob_view(v: SqlValue) -> Option<Seq<u8>> {
    match v {
        SqlValue::Blob(b) => Some(b@),
        _ => None,
    }
}

/// The integer of an integer value, `None` for `NULL` or another value.
pub open spec fn opt_int_view(v: SqlValue) -> Option<int> {
    match v {
        SqlValue::Int(x) => Some(x as int),
        _ => None,
    }
}

/// The bytes of an optional 16-byte array.
pub open spec fn opt16(o: Option<[u8; 16]>) -> Option<Seq<u8>> {
    match o {
        Some(a) => Some(a@),
        None => None,
    }
}

/// The bytes of an optional 32-byte array.
pub open spec fn opt32(o: Option<[u8; 32]>) -> Option<Seq<u8>> {
    match o {
        Some(a) => Some(a@),
        None => None,
    }
}

/// An optional `usize` as an integer.
pub open spec fn opt_usize_int(o: Option<usize>) -> Option<int> {
    match o {
        Some(v) => Some(v as int),
        None => None,
    }
}

/// An optional `u32` as an integer.
pub open spec fn opt_u32_int(o: Option<u32>) -> Option<int> {
    match o {
        Some(v) => Some(v as int),
        None => None,
    }
}

/// An optional `i64` as an integer.
pub open spec fn opt_i64_int(o: Option<i64>) -> Option<int> {
    match o {
        Some(v) => Some(v as int),
        None => None,
    }
}

/// `Clone` of a `rusqlite` value: the derived impl copies the variant and
/// its payload, so the copy equals the original.
pub assume_specification[<rusqlite::types::Value as std::clone::Clone>::clone](v: &rusqlite::types::Value) -> (r: rusqlite::types::Value)
    ensures
        r == *v,
;

/// Whether column `i` of `row` is a `REAL`.
pub open spec fn is_real_col(row: Seq<SqlValue>, i: int) -> bool {
    0 <= i < row.len() && row[i] is Real
}

/// Whether column `i` of `row` is `NULL` or a `REAL`.
pub open spec fn is_opt_real_col(row: Seq<SqlValue>, i: int) -> bool {
    0 <= i < row.len() && (row[i] is Null || row[i] is Real)
}

/// The `REAL` value of column `i`, if it holds one.
pub open spec fn opt_real_col(row: Seq<SqlValue>, i: int) -> Option<rusqlite::types::Value> {
    match row[i] {
        SqlValue::Real(v) => Some(v),
        _ => None,
    }
}

/// Column `i` as a `REAL`, carried as the value SQLite gave.
pub fn col_real(row: &[SqlValue], i: usize) -> (r: Result<rusqlite::types::Value, StoreError>)
    ensures
        r is Ok <==> is_real_col(row@, i as int),
        r matches Ok(v) ==> row@[i as int] == SqlValue::Real(v),
        r matches Err(e) ==> e is InvalidColumn,
{
    if i >= row.len() {
        return Err(StoreError::InvalidColumn(i));
    }
    match &row[i] {
        SqlValue::Real(v) => Ok(v.clone()),
        _ => Err(StoreError::InvalidColumn(i)),
    }
}

/// Column `i` as `NULL` or a `REAL`.
pub fn col_opt_real(row: &[SqlValue], i: usize) -> (r: Result<Option<rusqlite::types::Value>, StoreError>)
    ensures
        r is Ok <==> is_opt_real_col(row@, i as int),
        r matches Ok(v) ==> v == opt_real_col(row@, i as int),
        r matches Err(e) ==> e is InvalidColumn,
{
    if i >= row.len() {
        return Err(StoreError::InvalidColumn(i));
    }
    match &row[i] {
        SqlValue::Null => Ok(None),
        SqlValue::Real(v) => Ok(Some(v.clone())),
        _ => Err(StoreError::InvalidColumn(i)),
    }
}

/// Whether column `i` of `row` is `NULL` or a non-negative integer.
pub open spec fn is_opt_u64_col(row: Seq<SqlValue>, i: int) -> bool {
    0 <= i < row.len() && (row[i] is Null || (row[i] is Int && 0 <= int_of(row[i])))
}

/// Column `i` as `NULL` or a `u64`: a negative integer is out of range.
pub fn col_opt_u64(row: &[SqlValue], i: usize) -> (r: Result<Option<u64>, StoreError>)
    ensures
        r is Ok <==> is_opt_u64_col(row@, i as int),
        r matches Ok(o) ==> (o is None <==> row@[i as int] is Null),
        r matches Ok(o) ==> (o matches Some(v) ==> v == int_of(row@[i as int])),
        r matches Err(e) ==> (e is InvalidColumn || e is InvalidParameter),
{
    if i >= row.len() {
        return Err(StoreError::InvalidColumn(i));
    }
    match &row[i] {
        SqlValue::Null => Ok(None),
        SqlValue::Int(v) => if *v >= 0 {
            Ok(Some(*v as u64))
        } else {
            Err(crate::error::invalid("integer column range"))
        },
        _ => Err(StoreError::InvalidColumn(i)),
    }
}

/// Whether column `i` of `row` is `NULL` or an integer that fits `u8`.
pub open spec fn is_opt_u8_col(row: Seq<SqlValue>, i: int) -> bool {
    0 <= i < row.len() && (row[i] is Null || (row[i] is Int && 0 <= int_of(row[i]) <= 255))
}

/// Column `i` as `NULL` or a `u8`.
pub fn col_opt_u8(row: &[SqlValue], i: usize) -> (r: Result<Option<u8>, StoreError>)
    ensures
        r is Ok <==> is_opt_u8_col(row@, i as int),
        r matches Ok(o) ==> (o is None <==> row@[i as int] is Null),
        r matches Ok(o) ==> (o matches Some(v) ==> v == int_of(row@[i as int])),
        r matches Err(e) ==> (e is InvalidColumn || e is InvalidParameter),
{
    if i >= row.len() {
        return Err(StoreError::InvalidColumn(i));
    }
    match &row[i] {
        SqlValue::Null => Ok(None),
        SqlValue::Int(v) => if 0 <= *v && *v <= 255 {
            Ok(Some(*v as u8))
        } else {
            Err(crate::error::invalid("integer column range"))
        },
        _ => Err(StoreError::InvalidColumn(i)),
    }
}

/// An optional `u64` as an integer.
pub open spec fn opt_u64_int(o: Option<u64>) -> Option<int> {
    match o {
        Some(v) => Some(v as int),
        None => None,
    }
}

/// An optional `u8` as an integer.
pub open spec fn opt_u8_int(o: Option<u8>) -> Option<int> {
    match o {
        Some(v) => Some(v as int),
        None => None,
    }
}

/// Whether column `i` of `row` is `TEXT`, valid UTF-8 or not.
pub fn is_text_value(row: &[SqlValue], i: usize) -> (r: bool)
    ensures
        r == (0 <= i < row@.len() && row@[i as int] is Text),
{
    if i >= row.len() {
        return false;
    }
    match &row[i] {
        SqlValue::Text(_) => true,
        _ => false,
    }
}

} // verus!
