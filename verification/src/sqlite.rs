//! The calls into `rusqlite`, and the plain values that cross them.
//!
//! What a statement returns depends on the database, so none of these
//! calls promises a result: callers state what they hand over and handle
//! whatever comes back.

use crate::storage::{Entry, FeedRow};
use crate::text::opt_texts;
use rusqlite::OptionalExtension;
use vstd::prelude::*;

verus! {

/// A connection to an SQLite database.
#[verifier::external_type_specification]
#[verifier::external_body]
pub struct ExConnection(rusqlite::Connection);

/// The error of a failed database call.
#[verifier::external_type_specification]
#[verifier::external_body]
pub struct ExSqliteError(rusqlite::Error);

/// The values bound to the placeholders of a statement: the numbers
/// first, then the texts, each in order. Absent text is bound as `NULL`.
#[derive(Debug)]
pub struct SqlParams {
    pub numbers: Vec<u64>,
    pub texts: Vec<Option<String>>,
}

/// The mathematical content of [`SqlParams`].
pub struct SqlParamsView {
    pub numbers: Seq<u64>,
    pub texts: Seq<Option<Seq<char>>>,
}

impl View for SqlParams {
    type V = SqlParamsView;

    open spec fn view(&self) -> SqlParamsView {
        SqlParamsView { numbers: self.numbers@, texts: opt_texts(self.texts@) }
    }
}

/// Trusted: `rusqlite::Connection::open`. Nothing is promised of the
/// outcome; it opens or creates the file at `path`.
#[verifier::external_body]
pub(crate) fn open(path: &str) -> (opened: Result<rusqlite::Connection, rusqlite::Error>) {
    rusqlite::Connection::open(path)
}

/// Trusted: `rusqlite::Connection::open_in_memory`. Nothing is promised
/// of the outcome.
#[verifier::external_body]
pub(crate) fn open_in_memory() -> (opened: Result<rusqlite::Connection, rusqlite::Error>) {
    rusqlite::Connection::open_in_memory()
}

/// Trusted: `rusqlite::Connection::execute` with the values of `params`
/// handed over by `rusqlite::params_from_iter`. Nothing is promised of
/// the outcome; the count of changed rows is dropped.
#[verifier::external_body]
pub(crate) fn execute(db: &rusqlite::Connection, sql: &str, params: &SqlParams) -> (done: Result<
    (),
    rusqlite::Error,
>) {
    let numbers = params.numbers.iter().map(|n| n as &dyn rusqlite::ToSql);
    let texts = params.texts.iter().map(|t| t as &dyn rusqlite::ToSql);
    db.execute(sql, rusqlite::params_from_iter(numbers.chain(texts))).map(|_| ())
}

/// Trusted: `rusqlite::Connection::query_row` on a statement with one
/// text parameter that selects the four columns of a feed, followed by
/// `optional`. Nothing is promised of the outcome; `None` stands for a
/// query without rows.
#[verifier::external_body]
pub(crate) fn query_feed_row(db: &rusqlite::Connection, sql: &str, key: &str) -> (row: Result<
    Option<FeedRow>,
    rusqlite::Error,
>) {
    db.query_row(sql, [key], |r| {
        Ok(FeedRow {
            id: r.get(0)?,
            last_modified: r.get(1)?,
            last_fetched: r.get(2)?,
            etag: r.get(3)?,
        })
    }).optional()
}

/// Trusted: `rusqlite::Connection::query_row` on a statement with one
/// text parameter that selects the seven columns of an entry, followed
/// by `optional`. Nothing is promised of the outcome; `None` stands for
/// a query without rows.
#[verifier::external_body]
pub(crate) fn query_entry_row(db: &rusqlite::Connection, sql: &str, key: &str) -> (row: Result<
    Option<Entry>,
    rusqlite::Error,
>) {
    db.query_row(sql, [key], |r| {
        Ok(Entry {
            feed_id: r.get(0)?,
            feed_entry_id: r.get(1)?,
            title: r.get(2)?,
            updated: r.get(3)?,
            authors: r.get(4)?,
            summary: r.get(5)?,
            content: r.get(6)?,
        })
    }).optional()
}

} // verus!
