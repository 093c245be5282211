//! Errors of the storage operations.
use vstd::prelude::*;

verus! {

/// Why a storage operation failed.
#[derive(Debug)]
pub enum StoreError {
    /// An argument, or a stored value that an operation depends on, is out of
    /// the range the operation accepts.
    InvalidParameter(String),
    /// A query that must yield a row yielded none.
    QueryReturnedNoRows,
    /// A row lacked the column at this index, or held a value of another type there.
    InvalidColumn(usize),
    /// SQLite refused or failed a statement.
    Database(rusqlite::Error),
}

/// An `InvalidParameter` error with the given explanation.
pub fn invalid(message: &str) -> (e: StoreError)
    ensures
        e is InvalidParameter,
{
    StoreError::InvalidParameter(crate::text::owned(message))
}

/// Why a paged query failed.
#[derive(Debug)]
pub enum PageError {
    InvalidCursor(String),
    CursorStale,
    Internal(String),
    Storage(StoreError),
}

/// The text `rusqlite` gives for one of its errors.
#[verifier::external_body]
fn sqlite_error_text(e: &rusqlite::Error) -> String {
    e.to_string()
}

/// A number in decimal, as `usize::to_string` writes it.
#[verifier::external_body]
fn decimal(n: usize) -> String {
    n.to_string()
}

impl StoreError {
    /// What went wrong, in words.
    pub fn message(&self) -> (r: String)
        ensures
            self matches StoreError::InvalidParameter(m) ==> r@ == m@,
    {
        match self {
            StoreError::InvalidParameter(m) => m.clone(),
            StoreError::QueryReturnedNoRows => crate::text::owned("query returned no rows"),
            StoreError::InvalidColumn(i) => {
                let index = decimal(*i);
                crate::text::concat("invalid column ", index.as_str())
            },
            StoreError::Database(e) => sqlite_error_text(e),
        }
    }
}

} // verus!
