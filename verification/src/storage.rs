//! The cache store: one row of fetch metadata per feed and one row per
//! entry ever seen, kept in an SQLite database.

use crate::sqlite::{
    execute, open, open_in_memory, query_entry_row, query_feed_row, SqlParams, SqlParamsView,
};
use crate::text::opt_text;
use crate::timestamp::{read_instant, timestamp_text, Timestamp};
use vstd::prelude::*;
use vstd::string::*;

verus! {

/// Creates the table of feeds where it does not exist yet.
pub const CREATE_FEEDS_TABLE: &'static str =
    "CREATE TABLE IF NOT EXISTS feeds (\
        id INTEGER PRIMARY KEY, \
        feed_url TEXT NOT NULL, \
        last_modified TEXT, \
        last_fetched TEXT, \
        etag TEXT\
    )";

/// Creates the table of entries where it does not exist yet.
pub const CREATE_ENTRIES_TABLE: &'static str =
    "CREATE TABLE IF NOT EXISTS entries (\
        id INTEGER PRIMARY KEY, \
        feed_id INTEGER NOT NULL, \
        feed_entry_id TEXT, \
        title TEXT, \
        updated TEXT, \
        authors TEXT, \
        summary TEXT, \
        content BLOB NOT NULL, \
        FOREIGN KEY(feed_id) REFERENCES feeds(id)\
    )";

/// Reads the row of the feed with a given URL.
pub const SELECT_FEED: &'static str =
    "SELECT id, last_modified, last_fetched, etag FROM feeds WHERE feed_url = ?1";

/// Writes every column of a feed's row; the row of the same URL keeps
/// its id, a new URL gets a fresh one.
pub const UPSERT_FEED: &'static str =
    "INSERT OR REPLACE INTO feeds (id, feed_url, etag, last_modified, last_fetched) \
     VALUES ((SELECT id FROM feeds WHERE feed_url = ?1), ?1, ?2, ?3, ?4)";

/// Adds a row that holds nothing but the URL, unless the URL has a row
/// already: no URL ever has two rows.
pub const INSERT_FEED: &'static str =
    "INSERT INTO feeds (feed_url) \
     SELECT ?1 WHERE NOT EXISTS (SELECT 1 FROM feeds WHERE feed_url = ?1)";

/// Reads the entry with a given feed-native id.
pub const SELECT_ENTRY: &'static str =
    "SELECT feed_id, feed_entry_id, title, updated, authors, summary, content \
     FROM entries WHERE feed_entry_id = ?1";

/// Writes every column of an entry's row; the row of the same feed and
/// feed-native id is overwritten.
pub const UPSERT_ENTRY: &'static str =
    "INSERT OR REPLACE INTO entries \
     (id, feed_id, feed_entry_id, title, updated, authors, summary, content) \
     VALUES ((SELECT id FROM entries WHERE feed_id = ?1 AND feed_entry_id IS ?2), \
     ?1, ?2, ?3, ?4, ?5, ?6, ?7)";

/// Why the store could not be opened or set up.
#[derive(Debug)]
pub enum ErrorNew {
    /// The database at `db_file` could not be opened.
    DBFileOpenError { db_file: String, source: rusqlite::Error },
    /// The tables could not be created.
    DBError(ErrorDBOperation),
}

/// Why a read or a write of the store failed.
#[derive(Debug)]
pub enum ErrorDBOperation {
    /// The database refused or failed the statement.
    DBError(rusqlite::Error),
    /// The query found no row.
    NotFound,
    /// The row holds a fetch time that stands for no instant in range.
    InvalidTimestamp { text: String },
}

/// Why the row of a new feed could not be made.
#[derive(Debug)]
pub enum ErrorNewFeedStats {
    /// The insert failed.
    DBInsertError(rusqlite::Error),
    /// Reading the row back failed.
    DBError(ErrorDBOperation),
    /// The row that was just inserted is not there.
    NewFeedNotFoundError,
}

/// What the cache knows of one feed.
#[derive(Clone, Debug, PartialEq)]
pub struct FeedStats {
    /// The identity the store gave the feed at its first insert.
    pub id: u64,
    /// The feed's URL, the key of the row.
    pub url: String,
    /// The `Last-Modified` token of the last fetch; never interpreted.
    pub last_modified: Option<String>,
    /// When the feed was last fetched with fresh data or found unchanged.
    pub last_fetched: Option<Timestamp>,
    /// The `ETag` token of the last fetch; never interpreted.
    pub etag: Option<String>,
}

/// The mathematical content of a [`FeedStats`].
pub struct FeedStatsView {
    pub id: u64,
    pub url: Seq<char>,
    pub last_modified: Option<Seq<char>>,
    pub last_fetched: Option<int>,
    pub etag: Option<Seq<char>>,
}

/// The instant of an optional timestamp.
pub open spec fn opt_instant(t: Option<Timestamp>) -> Option<int> {
    match t {
        Some(t) => Some(t@),
        None => None,
    }
}

impl View for FeedStats {
    type V = FeedStatsView;

    open spec fn view(&self) -> FeedStatsView {
        FeedStatsView {
            id: self.id,
            url: self.url@,
            last_modified: opt_text(self.last_modified),
            last_fetched: opt_instant(self.last_fetched),
            etag: opt_text(self.etag),
        }
    }
}

/// A row of the table of feeds, as the database holds it: the fetch
/// time is text.
#[derive(Debug)]
pub struct FeedRow {
    pub id: u64,
    pub last_modified: Option<String>,
    pub last_fetched: Option<String>,
    pub etag: Option<String>,
}

/// The mathematical content of a [`FeedRow`].
pub struct FeedRowView {
    pub id: u64,
    pub last_modified: Option<Seq<char>>,
    pub last_fetched: Option<Seq<char>>,
    pub etag: Option<Seq<char>>,
}

impl View for FeedRow {
    type V = FeedRowView;

    open spec fn view(&self) -> FeedRowView {
        FeedRowView {
            id: self.id,
            last_modified: opt_text(self.last_modified),
            last_fetched: opt_text(self.last_fetched),
            etag: opt_text(self.etag),
        }
    }
}

/// One feed item as the cache keeps it.
#[derive(Clone, Debug, PartialEq)]
pub struct Entry {
    /// The id of the feed's row.
    pub feed_id: u64,
    /// The id the feed itself gives the item.
    pub feed_entry_id: Option<String>,
    pub title: String,
    pub updated: Option<String>,
    pub authors: Option<String>,
    pub summary: String,
    pub content: String,
}

/// The mathematical content of an [`Entry`].
pub struct EntryView {
    pub feed_id: u64,
    pub feed_entry_id: Option<Seq<char>>,
    pub title: Seq<char>,
    pub updated: Option<Seq<char>>,
    pub authors: Option<Seq<char>>,
    pub summary: Seq<char>,
    pub content: Seq<char>,
}

impl View for Entry {
    type V = EntryView;

    open spec fn view(&self) -> EntryView {
        EntryView {
            feed_id: self.feed_id,
            feed_entry_id: opt_text(self.feed_entry_id),
            title: self.title@,
            updated: opt_text(self.updated),
            authors: opt_text(self.authors),
            summary: self.summary@,
            content: self.content@,
        }
    }
}

/// The row that holds `stats`: the fetch time in its text form, the
/// rest as it is.
pub open spec fn row_of(stats: FeedStatsView) -> FeedRowView {
    FeedRowView {
        id: stats.id,
        last_modified: stats.last_modified,
        last_fetched: match stats.last_fetched {
            Some(instant) => Some(timestamp_text(instant)),
            None => None,
        },
        etag: stats.etag,
    }
}

/// What a row under `url` holds once the text of its fetch time has
/// been read as `instant`, which is `None` where the text stands for
/// no instant in range: the stats, or the text that could not be read.
pub open spec fn stats_with(url: Seq<char>, row: FeedRowView, instant: Option<int>) -> Result<
    FeedStatsView,
    Seq<char>,
> {
    match row.last_fetched {
        None => Ok(
            FeedStatsView {
                id: row.id,
                url,
                last_modified: row.last_modified,
                last_fetched: None,
                etag: row.etag,
            },
        ),
        Some(text) => match instant {
            Some(at) => Ok(
                FeedStatsView {
                    id: row.id,
                    url,
                    last_modified: row.last_modified,
                    last_fetched: Some(at),
                    etag: row.etag,
                },
            ),
            None => Err(text),
        },
    }
}

/// What a row under `url` holds, or the text of its fetch time where
/// that text stands for no instant.
pub open spec fn stats_of(url: Seq<char>, row: FeedRowView) -> Result<FeedStatsView, Seq<char>> {
    stats_with(
        url,
        row,
        match row.last_fetched {
            Some(text) => read_instant(text),
            None => None,
        },
    )
}

/// The parameters of [`UPSERT_FEED`] for a row under `url`: the URL,
/// the entity tag, the modification date and the fetch time.
pub open spec fn feed_params(url: Seq<char>, row: FeedRowView) -> SqlParamsView {
    SqlParamsView {
        numbers: Seq::empty(),
        texts: seq![Some(url), row.etag, row.last_modified, row.last_fetched],
    }
}

/// The parameters of [`UPSERT_ENTRY`] for `entry`: the id of the feed,
/// then the feed-native id, the title, the date of the last change,
/// the authors, the summary and the content.
pub open spec fn entry_params(entry: EntryView) -> SqlParamsView {
    SqlParamsView {
        numbers: seq![entry.feed_id],
        texts: seq![
            entry.feed_entry_id,
            Some(entry.title),
            entry.updated,
            entry.authors,
            Some(entry.summary),
            Some(entry.content),
        ],
    }
}

/// Round trip of a row: the row that holds `stats`, read back under
/// the URL of the stats, holds the same stats again, every field of
/// them, absent ones as absent. For stats with a fetch time this rests
/// on the text of that time being read back as the same instant.
pub proof fn lemma_row_reads_back(stats: FeedStatsView)
    requires
        stats.last_fetched matches Some(at) ==> read_instant(timestamp_text(at)) == Some(at),
    ensures
        stats_of(stats.url, row_of(stats)) == Ok::<FeedStatsView, Seq<char>>(stats),
{
}

impl FeedStats {
    /// The row that stores these stats. Reading that row back under the
    /// same URL gives these stats again.
    pub fn to_row(&self) -> (row: FeedRow)
        ensures
            row@ == row_of(self@),
            stats_of(self.url@, row@) == Ok::<FeedStatsView, Seq<char>>(self@),
    {
        let last_fetched = match self.last_fetched {
            Some(instant) => Some(instant.to_text()),
            None => None,
        };
        proof {
            lemma_row_reads_back(self@);
        }
        FeedRow {
            id: self.id,
            last_modified: self.last_modified.clone(),
            last_fetched,
            etag: self.etag.clone(),
        }
    }

    /// The stats that a row under `url` holds, once the text of its
    /// fetch time has been read as `instant`: see [`stats_with`].
    pub fn from_row_with(url: &str, row: FeedRow, instant: Option<Timestamp>) -> (stats: Result<
        FeedStats,
        ErrorDBOperation,
    >)
        ensures
            match stats_with(url@, row@, opt_instant(instant)) {
                Ok(held) => stats.is_ok() && stats.unwrap()@ == held,
                Err(bad) => stats matches Err(ErrorDBOperation::InvalidTimestamp { text }) && text@
                    == bad,
            },
            stats matches Ok(read) ==> read.last_fetched.is_none() || read.last_fetched == instant,
    {
        let FeedRow { id, last_modified, last_fetched, etag } = row;
        let url = url.to_owned();
        match last_fetched {
            None => Ok(FeedStats { id, url, last_modified, last_fetched: None, etag }),
            Some(text) => match instant {
                Some(t) => Ok(FeedStats { id, url, last_modified, last_fetched: Some(t), etag }),
                None => Err(ErrorDBOperation::InvalidTimestamp { text }),
            },
        }
    }

    /// The stats that a row under `url` holds. A row whose fetch time
    /// stands for no instant in range is refused.
    pub fn from_row(url: &str, row: FeedRow) -> (stats: Result<FeedStats, ErrorDBOperation>)
        ensures
            match stats_of(url@, row@) {
                Ok(held) => stats.is_ok() && stats.unwrap()@ == held,
                Err(bad) => stats matches Err(ErrorDBOperation::InvalidTimestamp { text }) && text@
                    == bad,
            },
    {
        let instant = match &row.last_fetched {
            Some(text) => Timestamp::parse(text.as_str()),
            None => None,
        };
        FeedStats::from_row_with(url, row, instant)
    }

    /// The parameters that write these stats with [`UPSERT_FEED`]: every
    /// column but the id, absent ones as `NULL`.
    pub fn params(&self) -> (params: SqlParams)
        ensures
            params@ == feed_params(self.url@, row_of(self@)),
    {
        let FeedRow { id: _, last_modified, last_fetched, etag } = self.to_row();
        let mut texts: Vec<Option<String>> = Vec::new();
        texts.push(Some(self.url.clone()));
        texts.push(etag);
        texts.push(last_modified);
        texts.push(last_fetched);
        let params = SqlParams { numbers: Vec::new(), texts };
        proof {
            assert(params@.texts =~= feed_params(self.url@, row_of(self@)).texts);
        }
        params
    }
}

impl Entry {
    /// The parameters that write this entry with [`UPSERT_ENTRY`].
    pub fn params(&self) -> (params: SqlParams)
        ensures
            params@ == entry_params(self@),
    {
        let mut numbers: Vec<u64> = Vec::new();
        numbers.push(self.feed_id);
        let mut texts: Vec<Option<String>> = Vec::new();
        texts.push(self.feed_entry_id.clone());
        texts.push(Some(self.title.clone()));
        texts.push(self.updated.clone());
        texts.push(self.authors.clone());
        texts.push(Some(self.summary.clone()));
        texts.push(Some(self.content.clone()));
        let params = SqlParams { numbers, texts };
        proof {
            assert(params@.texts =~= entry_params(self@).texts);
        }
        params
    }
}

/// The stats that the answer to [`SELECT_FEED`] for `url` holds. No row
/// means that the feed was never polled; a failure of the database is
/// passed on and never read as absence.
pub fn feed_stats_from_answer(
    url: &str,
    answer: Result<Option<FeedRow>, rusqlite::Error>,
) -> (stats: Result<Option<FeedStats>, ErrorDBOperation>)
    ensures
        match answer {
            Err(e) => stats == Err::<Option<FeedStats>, ErrorDBOperation>(
                ErrorDBOperation::DBError(e),
            ),
            Ok(None) => stats matches Ok(None),
            Ok(Some(row)) => match stats_of(url@, row@) {
                Ok(held) => stats matches Ok(Some(found)) && found@ == held,
                Err(bad) => stats matches Err(ErrorDBOperation::InvalidTimestamp { text }) && text@
                    == bad,
            },
        },
{
    match answer {
        Err(e) => Err(ErrorDBOperation::DBError(e)),
        Ok(None) => Ok(None),
        Ok(Some(row)) => match FeedStats::from_row(url, row) {
            Ok(found) => Ok(Some(found)),
            Err(e) => Err(e),
        },
    }
}

/// The row of a new feed, from what reading it back gave: a row that
/// is not there right after its insert is an error of its own.
pub fn new_feed_stats_from_answer(read_back: Result<Option<FeedStats>, ErrorDBOperation>) -> (stats:
    Result<FeedStats, ErrorNewFeedStats>)
    ensures
        match read_back {
            Ok(Some(made)) => stats == Ok::<FeedStats, ErrorNewFeedStats>(made),
            Ok(None) => stats matches Err(ErrorNewFeedStats::NewFeedNotFoundError),
            Err(e) => stats == Err::<FeedStats, ErrorNewFeedStats>(ErrorNewFeedStats::DBError(e)),
        },
{
    match read_back {
        Ok(Some(made)) => Ok(made),
        Ok(None) => Err(ErrorNewFeedStats::NewFeedNotFoundError),
        Err(e) => Err(ErrorNewFeedStats::DBError(e)),
    }
}

/// The entry that the answer to [`SELECT_ENTRY`] holds; no row is
/// [`ErrorDBOperation::NotFound`].
pub fn entry_from_answer(answer: Result<Option<Entry>, rusqlite::Error>) -> (entry: Result<
    Entry,
    ErrorDBOperation,
>)
    ensures
        match answer {
            Ok(Some(found)) => entry == Ok::<Entry, ErrorDBOperation>(found),
            Ok(None) => entry matches Err(ErrorDBOperation::NotFound),
            Err(e) => entry == Err::<Entry, ErrorDBOperation>(ErrorDBOperation::DBError(e)),
        },
{
    match answer {
        Ok(Some(found)) => Ok(found),
        Ok(None) => Err(ErrorDBOperation::NotFound),
        Err(e) => Err(ErrorDBOperation::DBError(e)),
    }
}

/// The parameters of a statement without placeholders.
pub fn no_params() -> (params: SqlParams)
    ensures
        params@ == (SqlParamsView { numbers: Seq::empty(), texts: Seq::empty() }),
{
    let params = SqlParams { numbers: Vec::new(), texts: Vec::new() };
    proof {
        assert(params@.texts =~= Seq::empty());
    }
    params
}

/// The parameters of [`INSERT_FEED`] for a new feed: its URL and
/// nothing else.
pub fn new_feed_params(url: &str) -> (params: SqlParams)
    ensures
        params@ == (SqlParamsView { numbers: Seq::empty(), texts: seq![Some(url@)] }),
{
    let mut texts: Vec<Option<String>> = Vec::new();
    texts.push(Some(url.to_owned()));
    let params = SqlParams { numbers: Vec::new(), texts };
    proof {
        assert(params@.texts =~= seq![Some(url@)]);
    }
    params
}

/// The result of the insert of a new feed, from what the database
/// answered: a failure is an insert failure.
pub fn insert_result(answer: Result<(), rusqlite::Error>) -> (done: Result<(), ErrorNewFeedStats>)
    ensures
        match answer {
            Ok(()) => done.is_ok(),
            Err(e) => done == Err::<(), ErrorNewFeedStats>(ErrorNewFeedStats::DBInsertError(e)),
        },
{
    match answer {
        Ok(()) => Ok(()),
        Err(e) => Err(ErrorNewFeedStats::DBInsertError(e)),
    }
}

/// The result of a write, from what the database answered.
pub fn write_result(answer: Result<(), rusqlite::Error>) -> (done: Result<(), ErrorDBOperation>)
    ensures
        match answer {
            Ok(()) => done.is_ok(),
            Err(e) => done == Err::<(), ErrorDBOperation>(ErrorDBOperation::DBError(e)),
        },
{
    match answer {
        Ok(()) => Ok(()),
        Err(e) => Err(ErrorDBOperation::DBError(e)),
    }
}

/// The cache store.
pub struct Storage {
    db: rusqlite::Connection,
}

impl Storage {
    /// The connection of this store.
    pub closed spec fn connection(&self) -> rusqlite::Connection {
        self.db
    }

    /// The store on a connection that was opened for `db_file`, or the
    /// failure under the name of the file.
    pub fn from_opened(
        db_file: &str,
        opened: Result<rusqlite::Connection, rusqlite::Error>,
    ) -> (store: Result<Storage, ErrorNew>)
        ensures
            match opened {
                Ok(db) => store matches Ok(s) && s.connection() == db,
                Err(e) => store matches Err(ErrorNew::DBFileOpenError { db_file: named, source })
                    && named@ == db_file@ && source == e,
            },
    {
        match opened {
            Ok(db) => Ok(Storage { db }),
            Err(source) => Err(ErrorNew::DBFileOpenError { db_file: db_file.to_owned(), source }),
        }
    }

    /// Opens the database file at `db_file`, creating it where there is
    /// none. A failure names the file.
    pub fn new(db_file: &str) -> (store: Result<Storage, ErrorNew>)
        ensures
            store matches Err(e) ==> (e matches ErrorNew::DBFileOpenError { db_file: named, .. }
                && named@ == db_file@),
    {
        Storage::from_opened(db_file, open(db_file))
    }

    /// Opens a store that lives in memory and is gone with its handle.
    pub fn new_in_memory() -> (store: Result<Storage, ErrorNew>)
        ensures
            store matches Err(e) ==> (e matches ErrorNew::DBFileOpenError { db_file: named, .. }
                && named@ == "memory"@),
    {
        Storage::from_opened("memory", open_in_memory())
    }

    /// Makes sure both tables exist. A store that has them is left as
    /// it is.
    pub fn init_database(&self) -> (done: Result<(), ErrorDBOperation>)
        ensures
            done matches Err(e) ==> e is DBError,
    {
        let none = no_params();
        match write_result(execute(&self.db, CREATE_FEEDS_TABLE, &none)) {
            Ok(()) => write_result(execute(&self.db, CREATE_ENTRIES_TABLE, &none)),
            Err(e) => Err(e),
        }
    }

    /// The stats of the feed at `url`, or `None` for a feed that was
    /// never polled. A failure of the database is an error, never `None`.
    pub fn feed_stats_from_db(&self, url: &str) -> (stats: Result<
        Option<FeedStats>,
        ErrorDBOperation,
    >)
        ensures
            stats matches Ok(Some(found)) ==> found.url@ == url@,
            stats matches Err(e) ==> !(e is NotFound),
    {
        feed_stats_from_answer(url, query_feed_row(&self.db, SELECT_FEED, url))
    }

    /// Writes every field of `feed_stats` to the row of its URL, absent
    /// ones as `NULL`. The id is the store's: an existing row keeps its
    /// own, a new row gets the next.
    pub fn feed_stats_to_db(&self, feed_stats: &FeedStats) -> (done: Result<(), ErrorDBOperation>)
        ensures
            done matches Err(e) ==> e is DBError,
    {
        let params = feed_stats.params();
        write_result(execute(&self.db, UPSERT_FEED, &params))
    }

    /// Inserts a row for `url` with nothing but the URL and returns the
    /// row as the store holds it. A URL that has a row already gets no
    /// second one: its row is returned as it is.
    pub fn new_feed_stats_to_db(&self, url: &str) -> (stats: Result<FeedStats, ErrorNewFeedStats>)
        ensures
            stats matches Ok(made) ==> made.url@ == url@,
            stats matches Err(ErrorNewFeedStats::DBError(e)) ==> !(e is NotFound),
    {
        let params = new_feed_params(url);
        match insert_result(execute(&self.db, INSERT_FEED, &params)) {
            Ok(()) => new_feed_stats_from_answer(self.feed_stats_from_db(url)),
            Err(e) => Err(e),
        }
    }

    /// The entry with the feed-native id `feed_entry_id`.
    pub fn entry_from_db(&self, feed_entry_id: &str) -> (entry: Result<Entry, ErrorDBOperation>)
        ensures
            entry matches Err(e) ==> !(e is InvalidTimestamp),
    {
        entry_from_answer(query_entry_row(&self.db, SELECT_ENTRY, feed_entry_id))
    }

    /// Writes `feed_entry`, in place of the entry of the same feed with
    /// the same feed-native id where there is one.
    pub fn new_entry_to_db(&self, feed_entry: &Entry) -> (done: Result<(), ErrorDBOperation>)
        ensures
            done matches Err(e) ==> e is DBError,
    {
        let params = feed_entry.params();
        write_result(execute(&self.db, UPSERT_ENTRY, &params))
    }
}

} // verus!
