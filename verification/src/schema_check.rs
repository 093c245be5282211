//! The comparisons that schema attestation makes between what SQLite reports
//! about a table and what the schema requires of it.
use vstd::prelude::*;
use crate::sql::{text_value, SqlValue};
use crate::text::{chars_of, str_eq, string_from_utf8};

verus! {

// ── Substrings ──────────────────────────────────────────────────────────

/// Whether `needle` occurs in `hay` starting at position `i`.
pub open spec fn occurs_at(hay: Seq<char>, needle: Seq<char>, i: int) -> bool {
    0 <= i && i + needle.len() <= hay.len() && hay.subrange(i, i + needle.len()) == needle
}

/// Whether `needle` occurs anywhere in `hay`.
pub open spec fn contains_text(hay: Seq<char>, needle: Seq<char>) -> bool {
    exists|i: int| occurs_at(hay, needle, i)
}

fn matches_at(hay: &[char], needle: &[char], i: usize) -> (r: bool)
    requires
        i + needle.len() <= hay.len(),
    ensures
        r == (hay@.subrange(i as int, i + needle@.len()) == needle@),
{
    let mut k: usize = 0;
    while k < needle.len()
        invariant
            k <= needle.len(),
            i + needle.len() <= hay.len(),
            forall|j: int| 0 <= j < k ==> hay@[i + j] == needle@[j],
        decreases needle.len() - k,
    {
        if hay[i + k] != needle[k] {
            proof {
                assert(hay@.subrange(i as int, i + needle@.len())[k as int] != needle@[k as int]);
            }
            return false;
        }
        k = k + 1;
    }
    assert(hay@.subrange(i as int, i + needle@.len()) =~= needle@);
    true
}

/// Whether `needle` occurs in `hay`, as `str::contains` answers it.
pub fn text_contains(hay: &str, needle: &str) -> (r: bool)
    ensures
        r == contains_text(hay@, needle@),
{
    let h = chars_of(hay);
    let n = chars_of(needle);
    if n.len() > h.len() {
        return false;
    }
    let last: usize = h.len() - n.len();
    let mut i: usize = 0;
    while i < last
        invariant
            h@ == hay@,
            n@ == needle@,
            last == h@.len() - n@.len(),
            i <= last,
            forall|j: int| 0 <= j < i ==> !occurs_at(hay@, needle@, j),
        decreases last - i,
    {
        if matches_at(h.as_slice(), n.as_slice(), i) {
            assert(occurs_at(hay@, needle@, i as int));
            return true;
        }
        i = i + 1;
    }
    if matches_at(h.as_slice(), n.as_slice(), last) {
        assert(occurs_at(hay@, needle@, last as int));
        return true;
    }
    proof {
        assert forall|j: int| !occurs_at(hay@, needle@, j) by {
            if 0 <= j < last as int {
            } else if j == last as int {
            }
        }
    }
    false
}

/// Whether every one of `needles` occurs in `hay`.
pub fn contains_all(hay: &str, needles: &[&str]) -> (r: bool)
    ensures
        r == forall|k: int| 0 <= k < needles@.len() ==> contains_text(hay@, (#[trigger] needles@[k])@),
{
    let mut k: usize = 0;
    while k < needles.len()
        invariant
            k <= needles.len(),
            forall|j: int| 0 <= j < k ==> contains_text(hay@, (#[trigger] needles@[j])@),
        decreases needles.len() - k,
    {
        if !text_contains(hay, needles[k]) {
            return false;
        }
        k = k + 1;
    }
    true
}

// ── Column values ───────────────────────────────────────────────────────

/// Whether a column value is the text `s`.
pub open spec fn text_is(v: SqlValue, s: Seq<char>) -> bool {
    text_value(v) == Some(s)
}

/// `text_is` computed.
pub fn value_is_text(v: &SqlValue, s: &str) -> (r: bool)
    ensures
        r == text_is(*v, s@),
{
    match v {
        SqlValue::Text(bytes) => match string_from_utf8(bytes.clone()) {
            Some(t) => str_eq(t.as_str(), s),
            None => false,
        },
        _ => false,
    }
}

/// Whether a column value is the integer `x`.
pub fn value_is_int(v: &SqlValue, x: i64) -> (r: bool)
    ensures
        r == (*v == SqlValue::Int(x)),
{
    match v {
        SqlValue::Int(y) => *y == x,
        _ => false,
    }
}

// ── Columns of a table ──────────────────────────────────────────────────

/// One column a table must have: its name, declared type, whether it is
/// `NOT NULL` and its position in the primary key (0 when outside it).
#[derive(Clone, Copy)]
pub struct ColumnSpec {
    pub name: &'static str,
    pub data_type: &'static str,
    pub not_null: i64,
    pub primary_key: i64,
}

/// A column spec from its parts.
pub fn column(name: &'static str, data_type: &'static str, not_null: i64, primary_key: i64) -> (c: ColumnSpec)
    ensures
        c.name == name,
        c.data_type == data_type,
        c.not_null == not_null,
        c.primary_key == primary_key,
{
    ColumnSpec { name, data_type, not_null, primary_key }
}

/// Whether a `name, type, notnull, pk` row describes column `c`.
pub open spec fn column_row_matches(row: Seq<SqlValue>, c: ColumnSpec) -> bool {
    &&& row.len() >= 4
    &&& text_is(row[0], c.name@)
    &&& text_is(row[1], c.data_type@)
    &&& row[2] == SqlValue::Int(c.not_null)
    &&& row[3] == SqlValue::Int(c.primary_key)
}

/// Whether the rows describe exactly the expected columns, in order.
pub open spec fn columns_are(rows: Seq<Vec<SqlValue>>, expected: Seq<ColumnSpec>) -> bool {
    &&& rows.len() == expected.len()
    &&& forall|i: int| 0 <= i < rows.len() ==> column_row_matches((#[trigger] rows[i])@, expected[i])
}

fn row_matches(row: &Vec<SqlValue>, c: &ColumnSpec) -> (r: bool)
    ensures
        r == column_row_matches(row@, *c),
{
    row.len() >= 4 && value_is_text(&row[0], c.name) && value_is_text(&row[1], c.data_type)
        && value_is_int(&row[2], c.not_null) && value_is_int(&row[3], c.primary_key)
}

/// `columns_are` computed.
pub fn columns_match(rows: &[Vec<SqlValue>], expected: &[ColumnSpec]) -> (r: bool)
    ensures
        r == columns_are(rows@, expected@),
{
    if rows.len() != expected.len() {
        return false;
    }
    let mut i: usize = 0;
    while i < rows.len()
        invariant
            rows@.len() == expected@.len(),
            i <= rows.len(),
            forall|j: int| 0 <= j < i ==> column_row_matches((#[trigger] rows@[j])@, expected@[j]),
        decreases rows.len() - i,
    {
        if !row_matches(&rows[i], &expected[i]) {
            return false;
        }
        i = i + 1;
    }
    true
}

/// Whether the rows hold, in their first columns and in order, exactly the names.
pub open spec fn names_are(rows: Seq<Vec<SqlValue>>, expected: Seq<&'static str>) -> bool {
    &&& rows.len() == expected.len()
    &&& forall|i: int| 0 <= i < rows.len() ==> (#[trigger] rows[i])@.len() >= 1 && text_is(rows[i]@[0], expected[i]@)
}

/// `names_are` computed.
pub fn names_match(rows: &[Vec<SqlValue>], expected: &[&'static str]) -> (r: bool)
    ensures
        r == names_are(rows@, expected@),
{
    if rows.len() != expected.len() {
        return false;
    }
    let mut i: usize = 0;
    while i < rows.len()
        invariant
            rows@.len() == expected@.len(),
            i <= rows.len(),
            forall|j: int| 0 <= j < i ==> (#[trigger] rows@[j])@.len() >= 1 && text_is(rows@[j]@[0], expected@[j]@),
        decreases rows.len() - i,
    {
        if rows[i].len() < 1 || !value_is_text(&rows[i][0], expected[i]) {
            return false;
        }
        i = i + 1;
    }
    true
}

/// Whether some row holds, in its first column, the text `name`.
pub open spec fn has_name_row(rows: Seq<Vec<SqlValue>>, name: Seq<char>) -> bool {
    exists|i: int| 0 <= i < rows.len() && (#[trigger] rows[i])@.len() >= 2 && text_is(rows[i]@[1], name)
}

/// Whether every one of `names` is the second column of some row, as
/// `PRAGMA table_info` lists a table's column names.
pub fn has_all_names(rows: &[Vec<SqlValue>], names: &[&str]) -> (r: bool)
    ensures
        r == forall|k: int| 0 <= k < names@.len() ==> has_name_row(rows@, (#[trigger] names@[k])@),
{
    let mut k: usize = 0;
    while k < names.len()
        invariant
            k <= names.len(),
            forall|j: int| 0 <= j < k ==> has_name_row(rows@, (#[trigger] names@[j])@),
        decreases names.len() - k,
    {
        let mut found = false;
        let mut i: usize = 0;
        while i < rows.len()
            invariant
                k < names.len(),
                i <= rows.len(),
                found ==> has_name_row(rows@, names@[k as int]@),
                !found ==> forall|j: int| 0 <= j < i ==> !((#[trigger] rows@[j])@.len() >= 2 && text_is(rows@[j]@[1], names@[k as int]@)),
            decreases rows.len() - i,
        {
            if !found && rows[i].len() >= 2 && value_is_text(&rows[i][1], names[k]) {
                found = true;
            }
            i = i + 1;
        }
        if !found {
            assert(!has_name_row(rows@, names@[k as int]@));
            return false;
        }
        k = k + 1;
    }
    true
}

// ── Foreign keys ────────────────────────────────────────────────────────

/// A foreign key of a table: the child column, the parent table and column,
/// and its `ON DELETE` action.
#[derive(Clone)]
pub struct ForeignKey {
    pub table: String,
    pub from: String,
    pub parent: String,
    pub to: String,
    pub on_delete: String,
}

/// The five texts of a foreign key.
pub open spec fn fk_view(f: ForeignKey) -> (Seq<char>, Seq<char>, Seq<char>, Seq<char>, Seq<char>) {
    (f.table@, f.from@, f.parent@, f.to@, f.on_delete@)
}

/// How often foreign key `x` occurs in `s`.
pub open spec fn fk_count(s: Seq<ForeignKey>, x: ForeignKey) -> nat
    decreases s.len(),
{
    if s.len() == 0 {
        0
    } else {
        fk_count(s.drop_last(), x) + if fk_view(s.last()) == fk_view(x) {
            1nat
        } else {
            0nat
        }
    }
}

/// Whether two lists hold the same foreign keys, each as often, in any order.
pub open spec fn same_foreign_keys(a: Seq<ForeignKey>, b: Seq<ForeignKey>) -> bool {
    &&& a.len() == b.len()
    &&& forall|i: int| 0 <= i < a.len() ==> fk_count(a, #[trigger] a[i]) == fk_count(b, a[i])
    &&& forall|j: int| 0 <= j < b.len() ==> fk_count(a, #[trigger] b[j]) == fk_count(b, b[j])
}

/// A foreign key from its parts.
pub fn foreign_key(table: &str, from: &str, parent: &str, to: &str, on_delete: &str) -> (f: ForeignKey)
    ensures
        fk_view(f) == (table@, from@, parent@, to@, on_delete@),
{
    ForeignKey {
        table: crate::text::owned(table),
        from: crate::text::owned(from),
        parent: crate::text::owned(parent),
        to: crate::text::owned(to),
        on_delete: crate::text::owned(on_delete),
    }
}

fn fk_eq(a: &ForeignKey, b: &ForeignKey) -> (r: bool)
    ensures
        r == (fk_view(*a) == fk_view(*b)),
{
    str_eq(a.table.as_str(), b.table.as_str()) && str_eq(a.from.as_str(), b.from.as_str())
        && str_eq(a.parent.as_str(), b.parent.as_str()) && str_eq(a.to.as_str(), b.to.as_str())
        && str_eq(a.on_delete.as_str(), b.on_delete.as_str())
}

fn count_fk(s: &[ForeignKey], x: &ForeignKey) -> (n: usize)
    ensures
        n == fk_count(s@, *x),
{
    let mut n: usize = 0;
    let mut i: usize = 0;
    while i < s.len()
        invariant
            i <= s.len(),
            n == fk_count(s@.subrange(0, i as int), *x),
            n <= i,
        decreases s.len() - i,
    {
        proof {
            assert(s@.subrange(0, i + 1).drop_last() =~= s@.subrange(0, i as int));
        }
        if fk_eq(&s[i], x) {
            n = n + 1;
        }
        i = i + 1;
    }
    assert(s@.subrange(0, s@.len() as int) =~= s@);
    n
}

/// `same_foreign_keys` computed.
pub fn foreign_keys_match(a: &[ForeignKey], b: &[ForeignKey]) -> (r: bool)
    ensures
        r == same_foreign_keys(a@, b@),
{
    if a.len() != b.len() {
        return false;
    }
    let mut i: usize = 0;
    while i < a.len()
        invariant
            a@.len() == b@.len(),
            i <= a.len(),
            forall|k: int| 0 <= k < i ==> fk_count(a@, #[trigger] a@[k]) == fk_count(b@, a@[k]),
        decreases a.len() - i,
    {
        if count_fk(a, &a[i]) != count_fk(b, &a[i]) {
            return false;
        }
        i = i + 1;
    }
    let mut j: usize = 0;
    while j < b.len()
        invariant
            a@.len() == b@.len(),
            j <= b.len(),
            forall|k: int| 0 <= k < a@.len() ==> fk_count(a@, #[trigger] a@[k]) == fk_count(b@, a@[k]),
            forall|k: int| 0 <= k < j ==> fk_count(a@, #[trigger] b@[k]) == fk_count(b@, b@[k]),
        decreases b.len() - j,
    {
        if count_fk(a, &b[j]) != count_fk(b, &b[j]) {
            return false;
        }
        j = j + 1;
    }
    true
}

} // verus!
