//! The poll coordinator: one poll of one feed, from the cache to the
//! request, and from the response back to the cache.

use crate::config::{Config, Feed};
use crate::feed::{
    entries_from_feed, entry_views, rejected_entries, rejection_views, rejections,
    stored_entries, FeedDocument, FeedEntryView, RejectedEntry,
};
use crate::fetch::{
    dispatch, is_outcome_of, is_request_for, request_for, FetchOutcome, FetchRequest,
    HttpResponse, TransportError,
};
use crate::storage::{
    opt_instant, Entry, EntryView, ErrorDBOperation, ErrorNew, ErrorNewFeedStats, FeedStats,
    FeedStatsView, Storage,
};
use crate::text::opt_text;
use crate::timestamp::{Timestamp, NANOS_PER_SECOND};
use vstd::prelude::*;
use vstd::string::*;

verus! {

/// Why a poll of a feed failed.
#[derive(Debug)]
pub enum FetchError {
    /// The body of the response is no feed; the text is the parser's.
    FeedParseError(String),
    /// The cache could not be read or written.
    StorageDBOperationError(ErrorDBOperation),
    /// The row of a feed that was never polled could not be made.
    StorageNewFeedError(ErrorNewFeedStats),
    /// The request failed, or the server answered with an error status.
    HTTPError(TransportError),
    /// No feed is configured under the name.
    UnknownFeed { name: String },
}

/// Why a poll brought no feed.
#[derive(Clone, Copy, Debug, PartialEq, Eq, Structural)]
pub enum SkipReason {
    /// The feed was fetched less than its interval ago.
    NotDue,
    /// The server has nothing new.
    NotModified,
    /// The server asks the client to slow down.
    RateLimited,
}

/// What a poll brought: the reason why it was skipped, or the feed of
/// fresh data together with the entries that could not be stored.
#[derive(Clone, Debug, PartialEq)]
pub enum Polled {
    Skipped(SkipReason),
    Fresh { feed: FeedDocument, rejected: Vec<RejectedEntry> },
}

/// What a fetch brought, with the body of fresh data parsed.
#[derive(Clone, Debug, PartialEq)]
pub enum PollEvent {
    /// The server asks the client to slow down.
    RateLimited,
    /// Nothing new; a server may still send new validators.
    NotModified { new_last_modified: Option<String>, new_etag: Option<String> },
    /// A new feed document, with the validators the server sent along.
    Fresh { feed: FeedDocument, new_last_modified: Option<String>, new_etag: Option<String> },
}

/// What one poll writes to the cache.
#[derive(Clone, Debug, PartialEq)]
pub struct CacheUpdate {
    /// The row of the feed to write; `None` leaves the row as it is.
    pub stats: Option<FeedStats>,
    /// The rows of entries to write, in order.
    pub entries: Vec<Entry>,
}

/// The mathematical content of a [`PollEvent`].
pub enum PollEventView {
    RateLimited,
    NotModified { new_last_modified: Option<Seq<char>>, new_etag: Option<Seq<char>> },
    Fresh {
        entries: Seq<FeedEntryView>,
        new_last_modified: Option<Seq<char>>,
        new_etag: Option<Seq<char>>,
    },
}

impl View for PollEvent {
    type V = PollEventView;

    open spec fn view(&self) -> PollEventView {
        match *self {
            PollEvent::RateLimited => PollEventView::RateLimited,
            PollEvent::NotModified { new_last_modified, new_etag } => PollEventView::NotModified {
                new_last_modified: opt_text(new_last_modified),
                new_etag: opt_text(new_etag),
            },
            PollEvent::Fresh { feed, new_last_modified, new_etag } => PollEventView::Fresh {
                entries: feed@,
                new_last_modified: opt_text(new_last_modified),
                new_etag: opt_text(new_etag),
            },
        }
    }
}

/// The mathematical content of a [`CacheUpdate`].
pub struct CacheUpdateView {
    pub stats: Option<FeedStatsView>,
    pub entries: Seq<EntryView>,
}

impl View for CacheUpdate {
    type V = CacheUpdateView;

    open spec fn view(&self) -> CacheUpdateView {
        CacheUpdateView {
            stats: match self.stats {
                Some(stats) => Some(stats@),
                None => None,
            },
            entries: entry_views(self.entries@),
        }
    }
}

/// What the due-ness gate decides for one poll.
#[derive(Clone, Debug, PartialEq)]
pub enum PollDecision {
    /// The feed was fetched too recently: nothing is sent.
    Skip,
    /// The request to send.
    Fetch(FetchRequest),
}

/// Whether a feed last fetched at `last_fetched` is due at `now`: a
/// feed that was never fetched always is, another one once
/// `min_interval_secs` seconds have passed.
pub open spec fn due(last_fetched: Option<int>, now: int, min_interval_secs: u64) -> bool {
    match last_fetched {
        None => true,
        Some(at) => now - at >= min_interval_secs * NANOS_PER_SECOND,
    }
}

/// The validator to keep: the new one where the server sent one, else
/// the one the cache holds.
pub open spec fn kept_validator(held: Option<Seq<char>>, sent: Option<Seq<char>>) -> Option<
    Seq<char>,
> {
    match sent {
        Some(token) => Some(token),
        None => held,
    }
}

/// The stats of a feed after a fetch at `now` that brought fresh data
/// or found the feed unchanged: same id and URL, the validators the
/// server sent in place of the old ones, and `now` as the fetch time.
pub open spec fn refreshed(
    stats: FeedStatsView,
    new_last_modified: Option<Seq<char>>,
    new_etag: Option<Seq<char>>,
    now: int,
) -> FeedStatsView {
    FeedStatsView {
        id: stats.id,
        url: stats.url,
        last_modified: kept_validator(stats.last_modified, new_last_modified),
        last_fetched: Some(now),
        etag: kept_validator(stats.etag, new_etag),
    }
}

/// Whether a feed last fetched at `last_fetched` is due at `now`.
pub fn is_due(last_fetched: &Option<Timestamp>, now: Timestamp, min_interval_secs: u64) -> (is_due:
    bool)
    ensures
        is_due == due(opt_instant(*last_fetched), now@, min_interval_secs),
{
    match last_fetched {
        None => true,
        Some(at) => {
            let elapsed: i128 = now.as_nanosecond() - at.as_nanosecond();
            let needed: i128 = (min_interval_secs as i128) * NANOS_PER_SECOND;
            elapsed >= needed
        },
    }
}

/// The due-ness gate: a feed that is not due is skipped and no request
/// is made for it; a feed that is due gets its one conditional request.
pub fn decide(feed: &Feed, stats: &FeedStats, now: Timestamp, timeout_secs: u64) -> (decision:
    PollDecision)
    ensures
        !due(stats@.last_fetched, now@, feed.poll_interval_secs) ==> decision is Skip,
        due(stats@.last_fetched, now@, feed.poll_interval_secs) ==> decision is Fetch
            && is_request_for(
            decision->Fetch_0,
            feed.url@,
            stats@.last_modified,
            stats@.etag,
            feed.conditional_type,
            timeout_secs,
        ),
{
    if is_due(&stats.last_fetched, now, feed.poll_interval_secs) {
        PollDecision::Fetch(
            request_for(
                feed.url.as_str(),
                &stats.last_modified,
                &stats.etag,
                feed.conditional_type,
                timeout_secs,
            ),
        )
    } else {
        PollDecision::Skip
    }
}

/// The validator to keep: the new one where the server sent one.
pub fn keep_validator(held: &Option<String>, sent: &Option<String>) -> (kept: Option<String>)
    ensures
        opt_text(kept) == kept_validator(opt_text(*held), opt_text(*sent)),
{
    match sent {
        Some(token) => Some(token.clone()),
        None => held.clone(),
    }
}

/// The stats of a feed after a fetch at `now` that brought fresh data
/// or found the feed unchanged.
pub fn refreshed_stats(
    stats: &FeedStats,
    new_last_modified: &Option<String>,
    new_etag: &Option<String>,
    now: Timestamp,
) -> (after: FeedStats)
    ensures
        after@ == refreshed(stats@, opt_text(*new_last_modified), opt_text(*new_etag), now@),
        after.last_fetched == Some(now),
{
    FeedStats {
        id: stats.id,
        url: stats.url.clone(),
        last_modified: keep_validator(&stats.last_modified, new_last_modified),
        last_fetched: Some(now),
        etag: keep_validator(&stats.etag, new_etag),
    }
}

/// What the poll of a feed with the cached `stats` writes to the cache
/// when the fetch at `now` brought `event`.
///
/// A rate-limited fetch writes nothing, so that the fetch time stays
/// what it was and the next poll tries again. A fetch that found the
/// feed unchanged writes the stats with the new validators and `now`
/// as the fetch time, and no entry. A fetch with fresh data writes the
/// same stats and a row for every entry that can be stored.
pub open spec fn planned_update(
    stats: FeedStatsView,
    event: PollEventView,
    now: int,
) -> CacheUpdateView {
    match event {
        PollEventView::RateLimited => CacheUpdateView { stats: None, entries: Seq::empty() },
        PollEventView::NotModified { new_last_modified, new_etag } => CacheUpdateView {
            stats: Some(refreshed(stats, new_last_modified, new_etag, now)),
            entries: Seq::empty(),
        },
        PollEventView::Fresh { entries, new_last_modified, new_etag } => CacheUpdateView {
            stats: Some(refreshed(stats, new_last_modified, new_etag, now)),
            entries: stored_entries(stats.id, entries),
        },
    }
}

/// What the poll of a feed with the cached `stats` writes to the cache
/// when the fetch at `now` brought `event`: see [`planned_update`].
pub fn plan_update(stats: &FeedStats, event: &PollEvent, now: Timestamp) -> (update: CacheUpdate)
    ensures
        update@ == planned_update(stats@, event@, now@),
        update.stats matches Some(after) ==> after.last_fetched == Some(now),
        event is RateLimited ==> update.stats.is_none() && update.entries@.len() == 0,
        event is NotModified ==> update.entries@.len() == 0,
        !(event is RateLimited) ==> update.stats.is_some() && update@.stats.unwrap().last_fetched
            == Some(now@) && update@.stats.unwrap().id == stats.id && update@.stats.unwrap().url
            == stats.url@,
        event@ matches PollEventView::NotModified { new_etag: Some(token), .. }
            ==> update@.stats.unwrap().etag == Some(token),
        event@ matches PollEventView::NotModified { new_last_modified: Some(token), .. }
            ==> update@.stats.unwrap().last_modified == Some(token),
{
    let update = match event {
        PollEvent::RateLimited => CacheUpdate { stats: None, entries: Vec::new() },
        PollEvent::NotModified { new_last_modified, new_etag } => CacheUpdate {
            stats: Some(refreshed_stats(stats, new_last_modified, new_etag, now)),
            entries: Vec::new(),
        },
        PollEvent::Fresh { feed, new_last_modified, new_etag } => CacheUpdate {
            stats: Some(refreshed_stats(stats, new_last_modified, new_etag, now)),
            entries: entries_from_feed(stats.id, &feed.entries),
        },
    };
    proof {
        assert(update@.entries =~= planned_update(stats@, event@, now@).entries);
    }
    update
}

/// Whether `event` is the event of a fetch with fresh data whose body
/// the parser read as `parsed`.
pub open spec fn is_fresh_event_of(
    parsed: Result<FeedDocument, String>,
    new_last_modified: Option<String>,
    new_etag: Option<String>,
    event: Result<PollEvent, FetchError>,
) -> bool {
    match parsed {
        Ok(feed) => event == Ok::<PollEvent, FetchError>(
            PollEvent::Fresh { feed, new_last_modified, new_etag },
        ),
        Err(e) => event == Err::<PollEvent, FetchError>(FetchError::FeedParseError(e)),
    }
}

/// The event of a fetch with fresh data whose body the parser read as
/// `parsed`: the feed with the validators, or the parser's complaint.
pub fn fresh_event(
    parsed: Result<FeedDocument, String>,
    new_last_modified: Option<String>,
    new_etag: Option<String>,
) -> (event: Result<PollEvent, FetchError>)
    ensures
        is_fresh_event_of(parsed, new_last_modified, new_etag, event),
{
    match parsed {
        Ok(feed) => Ok(PollEvent::Fresh { feed, new_last_modified, new_etag }),
        Err(e) => Err(FetchError::FeedParseError(e)),
    }
}

/// Turns the outcome of a fetch into the event of a poll: the body of
/// fresh data is handed to `parse`, the rest is taken as it is.
pub fn parse_outcome<P: Fn(&Vec<u8>) -> Result<FeedDocument, String>>(
    outcome: FetchOutcome,
    parse: &P,
) -> (event: Result<PollEvent, FetchError>)
    requires
        forall|body: &Vec<u8>| outcome is Fresh ==> call_requires(parse, (body,)),
    ensures
        outcome is RateLimited ==> event matches Ok(PollEvent::RateLimited),
        outcome matches FetchOutcome::NotModified { new_last_modified, new_etag } ==> event
            == Ok::<PollEvent, FetchError>(PollEvent::NotModified { new_last_modified, new_etag }),
        outcome matches FetchOutcome::Fresh { body, new_last_modified, new_etag } ==> exists|
            parsed: Result<FeedDocument, String>,
        |
            call_ensures(parse, (&body,), parsed) && is_fresh_event_of(
                parsed,
                new_last_modified,
                new_etag,
                event,
            ),
        event matches Err(e) ==> e is FeedParseError,
{
    match outcome {
        FetchOutcome::RateLimited => Ok(PollEvent::RateLimited),
        FetchOutcome::NotModified { new_last_modified, new_etag } => Ok(
            PollEvent::NotModified { new_last_modified, new_etag },
        ),
        FetchOutcome::Fresh { body, new_last_modified, new_etag } => {
            fresh_event(parse(&body), new_last_modified, new_etag)
        },
    }
}

/// Whether `polled` is what a poll with fresh data hands on: the feed
/// as the parser gave it, and with it the entries that cannot be
/// stored, for the caller to report.
pub open spec fn is_fresh(feed: FeedDocument, polled: Polled) -> bool {
    polled matches Polled::Fresh { feed: handed, rejected } && handed == feed && rejection_views(
        rejected@,
    ) == rejected_entries(feed@)
}

/// Whether `polled` is what the poll that met `event` hands on: the
/// reason of a skip, or the fresh feed.
pub open spec fn is_handed_on(event: PollEvent, polled: Polled) -> bool {
    match event {
        PollEvent::RateLimited => polled == Polled::Skipped(SkipReason::RateLimited),
        PollEvent::NotModified { .. } => polled == Polled::Skipped(SkipReason::NotModified),
        PollEvent::Fresh { feed, .. } => is_fresh(feed, polled),
    }
}

/// What the poll that met `event` hands on: see [`is_handed_on`].
pub fn handed_on(event: PollEvent) -> (polled: Polled)
    ensures
        is_handed_on(event, polled),
{
    match event {
        PollEvent::RateLimited => Polled::Skipped(SkipReason::RateLimited),
        PollEvent::NotModified { .. } => Polled::Skipped(SkipReason::NotModified),
        PollEvent::Fresh { feed, .. } => {
            let rejected = rejections(&feed.entries);
            Polled::Fresh { feed, rejected }
        },
    }
}

/// The result of a poll whose writes ended in `applied`: the failure
/// of the cache, else what the event hands on.
pub fn poll_result(applied: Result<(), ErrorDBOperation>, event: PollEvent) -> (fetched: Result<
    Polled,
    FetchError,
>)
    ensures
        match applied {
            Err(e) => fetched == Err::<Polled, FetchError>(FetchError::StorageDBOperationError(e)),
            Ok(()) => fetched.is_ok() && is_handed_on(event, fetched.unwrap()),
        },
{
    match applied {
        Ok(()) => Ok(handed_on(event)),
        Err(e) => Err(FetchError::StorageDBOperationError(e)),
    }
}

/// Whether `fetched` can be the result of a poll whose fresh data the
/// parser read as `parsed`: the parser's complaint fails the poll, a
/// feed is handed on unless the cache fails.
pub open spec fn is_result_of_parse(
    parsed: Result<FeedDocument, String>,
    fetched: Result<Polled, FetchError>,
) -> bool {
    match parsed {
        Ok(feed) => (fetched.is_ok() && is_fresh(feed, fetched.unwrap())) || fetched matches Err(
            FetchError::StorageDBOperationError(ErrorDBOperation::DBError(_)),
        ),
        Err(e) => fetched == Err::<Polled, FetchError>(FetchError::FeedParseError(e)),
    }
}

/// Whether `fetched` can be the result of a poll whose fetch ended in
/// `outcome`.
///
/// A failed fetch fails the poll with the same error. A rate-limited
/// fetch is skipped. A fetch that found the feed unchanged is skipped
/// too, unless the cache fails. The body of fresh data is handed to
/// `parse`, and what it returns decides: see [`is_result_of_parse`].
pub open spec fn is_result_of<P: Fn(&Vec<u8>) -> Result<FeedDocument, String>>(
    outcome: Result<FetchOutcome, TransportError>,
    parse: &P,
    fetched: Result<Polled, FetchError>,
) -> bool {
    match outcome {
        Err(e) => fetched == Err::<Polled, FetchError>(FetchError::HTTPError(e)),
        Ok(FetchOutcome::RateLimited) => fetched == Ok::<Polled, FetchError>(
            Polled::Skipped(SkipReason::RateLimited),
        ),
        Ok(FetchOutcome::NotModified { .. }) => fetched == Ok::<Polled, FetchError>(
            Polled::Skipped(SkipReason::NotModified),
        ) || fetched matches Err(
            FetchError::StorageDBOperationError(ErrorDBOperation::DBError(_)),
        ),
        Ok(FetchOutcome::Fresh { body, .. }) => exists|parsed: Result<FeedDocument, String>|
            call_ensures(parse, (&body,), parsed) && is_result_of_parse(parsed, fetched),
    }
}

/// Whether `fetched` can be the result of polling `feed`, whose row in
/// the cache is `stats`, at `now`.
///
/// A feed that is not due is skipped. A feed that is due has its one
/// conditional request handed to `send`; the answer is classified, and
/// the outcome decides as [`is_result_of`] says.
pub open spec fn is_poll_of<
    S: Fn(&FetchRequest) -> Result<HttpResponse, TransportError>,
    P: Fn(&Vec<u8>) -> Result<FeedDocument, String>,
>(
    timeout_secs: u64,
    feed: Feed,
    stats: FeedStatsView,
    now: int,
    send: &S,
    parse: &P,
    fetched: Result<Polled, FetchError>,
) -> bool {
    if due(stats.last_fetched, now, feed.poll_interval_secs) {
        exists|
            request: FetchRequest,
            answer: Result<HttpResponse, TransportError>,
            outcome: Result<FetchOutcome, TransportError>,
        |
            is_request_for(
                request,
                feed.url@,
                stats.last_modified,
                stats.etag,
                feed.conditional_type,
                timeout_secs,
            ) && call_ensures(send, (&request,), answer) && is_outcome_of(answer, outcome)
                && is_result_of(outcome, parse, fetched)
    } else {
        fetched == Ok::<Polled, FetchError>(Polled::Skipped(SkipReason::NotDue))
    }
}

/// Whether `e` can be the failure of reading the row of a feed: any
/// failure but [`ErrorDBOperation::NotFound`], since a feed without a
/// row is no failure.
pub open spec fn is_read_failure(e: ErrorDBOperation) -> bool {
    !(e is NotFound)
}

/// Whether `e` can be the failure of making the row of a feed: where
/// it is the failure of reading the row back, it is a read failure.
pub open spec fn is_create_failure(e: ErrorNewFeedStats) -> bool {
    e matches ErrorNewFeedStats::DBError(read) ==> is_read_failure(read)
}

/// What follows the read of the row of a feed: the row, or `None` for
/// a feed that was never polled and needs a row made. A failure of the
/// cache is passed on and never taken for a feed without a row.
pub fn loaded(read: Result<Option<FeedStats>, ErrorDBOperation>) -> (next: Result<
    Option<FeedStats>,
    FetchError,
>)
    ensures
        match read {
            Ok(row) => next == Ok::<Option<FeedStats>, FetchError>(row),
            Err(e) => next == Err::<Option<FeedStats>, FetchError>(
                FetchError::StorageDBOperationError(e),
            ),
        },
{
    match read {
        Ok(row) => Ok(row),
        Err(e) => Err(FetchError::StorageDBOperationError(e)),
    }
}

/// The row of a feed that was never polled, from what making it gave.
pub fn created(made: Result<FeedStats, ErrorNewFeedStats>) -> (stats: Result<FeedStats, FetchError>)
    ensures
        match made {
            Ok(row) => stats == Ok::<FeedStats, FetchError>(row),
            Err(e) => stats == Err::<FeedStats, FetchError>(FetchError::StorageNewFeedError(e)),
        },
{
    match made {
        Ok(row) => Ok(row),
        Err(e) => Err(FetchError::StorageNewFeedError(e)),
    }
}

/// Whether `fetched` can be the result of polling `feed` at `now`: the
/// cache fails to give the row of the feed, or the poll goes on from
/// the row it gives as [`is_poll_of`] says.
pub open spec fn is_fetch_of<
    S: Fn(&FetchRequest) -> Result<HttpResponse, TransportError>,
    P: Fn(&Vec<u8>) -> Result<FeedDocument, String>,
>(
    timeout_secs: u64,
    feed: Feed,
    now: int,
    send: &S,
    parse: &P,
    fetched: Result<Polled, FetchError>,
) -> bool {
    ||| fetched matches Err(FetchError::StorageDBOperationError(e)) && is_read_failure(e)
    ||| fetched matches Err(FetchError::StorageNewFeedError(e)) && is_create_failure(e)
    ||| exists|stats: FeedStats|
        stats.url@ == feed.url@ && is_poll_of(
            timeout_secs,
            feed,
            stats@,
            now,
            send,
            parse,
            fetched,
        )
}

/// Polls feeds against one cache.
pub struct FeedReader {
    storage: Storage,
    pub config: Config,
}

impl FeedReader {
    /// The configuration this reader polls by.
    pub closed spec fn settings(&self) -> Config {
        self.config
    }

    /// The cache this reader reads and writes.
    pub closed spec fn cache(&self) -> Storage {
        self.storage
    }

    /// Opens the cache that `config` names and makes sure its tables
    /// exist.
    pub fn new(config: Config) -> (reader: Result<FeedReader, ErrorNew>)
        ensures
            reader matches Ok(r) ==> r.settings() == config,
            reader matches Err(ErrorNew::DBFileOpenError { db_file, .. }) ==> db_file@
                == config.db_file@,
            reader matches Err(ErrorNew::DBError(e)) ==> e is DBError,
    {
        let storage = match Storage::new(config.db_file.as_str()) {
            Ok(storage) => storage,
            Err(e) => {
                return Err(e);
            },
        };
        FeedReader::with_storage(config, storage)
    }

    /// The reader over `storage`, once making sure of its tables ended
    /// in `initialised`: a failure there is the failure of the reader.
    pub fn initialised(
        config: Config,
        storage: Storage,
        initialised: Result<(), ErrorDBOperation>,
    ) -> (reader: Result<FeedReader, ErrorNew>)
        ensures
            match initialised {
                Ok(()) => reader matches Ok(r) && r.settings() == config && r.cache() == storage,
                Err(e) => reader matches Err(ErrorNew::DBError(failure)) && failure == e,
            },
    {
        match initialised {
            Ok(()) => Ok(FeedReader { storage, config }),
            Err(e) => Err(ErrorNew::DBError(e)),
        }
    }

    /// Polls against a cache that is already open, and makes sure its
    /// tables exist.
    pub fn with_storage(config: Config, storage: Storage) -> (reader: Result<FeedReader, ErrorNew>)
        ensures
            reader matches Ok(r) ==> r.settings() == config && r.cache() == storage,
            reader matches Err(e) ==> e matches ErrorNew::DBError(failure) && failure is DBError,
    {
        let done = storage.init_database();
        FeedReader::initialised(config, storage, done)
    }

    /// The cache this reader polls against: the one it was made with.
    pub fn storage(&self) -> (storage: &Storage)
        ensures
            *storage == self.cache(),
    {
        &self.storage
    }

    /// The row of the feed at `url`; a feed that has none gets a bare
    /// one first.
    pub fn load_or_create(&self, url: &str) -> (stats: Result<FeedStats, FetchError>)
        ensures
            stats matches Ok(found) ==> found.url@ == url@,
            stats matches Err(e) ==> e is StorageDBOperationError || e is StorageNewFeedError,
            stats matches Err(FetchError::StorageDBOperationError(e)) ==> !(e is NotFound),
            stats matches Err(FetchError::StorageNewFeedError(e)) ==> is_create_failure(e),
    {
        match loaded(self.storage.feed_stats_from_db(url)) {
            Ok(Some(found)) => Ok(found),
            Ok(None) => created(self.storage.new_feed_stats_to_db(url)),
            Err(e) => Err(e),
        }
    }

    /// Writes `update` to the cache: the entries in order, then the
    /// stats. The first write that fails ends it.
    pub fn apply_update(&self, update: &CacheUpdate) -> (done: Result<(), ErrorDBOperation>)
        ensures
            update.stats.is_none() && update.entries@.len() == 0 ==> done.is_ok(),
            done matches Err(e) ==> e is DBError,
    {
        let mut i: usize = 0;
        while i < update.entries.len()
            invariant
                i <= update.entries.len(),
            decreases update.entries.len() - i,
        {
            match self.storage.new_entry_to_db(&update.entries[i]) {
                Ok(()) => {},
                Err(e) => {
                    return Err(e);
                },
            }
            i += 1;
        }
        match &update.stats {
            Some(stats) => self.storage.feed_stats_to_db(stats),
            None => Ok(()),
        }
    }

    /// Ends the poll of a feed with the cached `stats` whose fetch at
    /// `now` brought `event`: writes what [`plan_update`] says and
    /// hands on the reason of a skip or the fresh feed.
    pub fn record_event(
        &self,
        stats: &FeedStats,
        event: PollEvent,
        now: Timestamp,
    ) -> (fetched: Result<Polled, FetchError>)
        ensures
            event is RateLimited ==> fetched == Ok::<Polled, FetchError>(
                Polled::Skipped(SkipReason::RateLimited),
            ),
            fetched matches Ok(polled) ==> is_handed_on(event, polled),
            fetched matches Err(e) ==> e matches FetchError::StorageDBOperationError(
                ErrorDBOperation::DBError(_),
            ),
    {
        let update = plan_update(stats, &event, now);
        poll_result(self.apply_update(&update), event)
    }

    /// Ends the poll of a feed with the cached `stats` whose fetch at
    /// `now` ended in `outcome`: a failed fetch fails the poll, the
    /// body of fresh data is parsed, and the event is recorded.
    pub fn record_outcome<P: Fn(&Vec<u8>) -> Result<FeedDocument, String>>(
        &self,
        stats: &FeedStats,
        outcome: Result<FetchOutcome, TransportError>,
        now: Timestamp,
        parse: &P,
    ) -> (fetched: Result<Polled, FetchError>)
        requires
            forall|body: &Vec<u8>| call_requires(parse, (body,)),
        ensures
            is_result_of(outcome, parse, fetched),
    {
        let outcome = match outcome {
            Ok(outcome) => outcome,
            Err(e) => {
                return Err(FetchError::HTTPError(e));
            },
        };
        let ghost seen = outcome;
        let event = match parse_outcome(outcome, parse) {
            Ok(event) => event,
            Err(e) => {
                proof {
                    if let FetchOutcome::Fresh { body, new_last_modified, new_etag } = seen {
                        let parsed = choose|parsed: Result<FeedDocument, String>|
                            call_ensures(parse, (&body,), parsed) && is_fresh_event_of(
                                parsed,
                                new_last_modified,
                                new_etag,
                                Err(e),
                            );
                        assert(call_ensures(parse, (&body,), parsed) && is_result_of_parse(
                            parsed,
                            Err(e),
                        ));
                    }
                }
                return Err(e);
            },
        };
        let fetched = self.record_event(stats, event, now);
        proof {
            if let FetchOutcome::Fresh { body, new_last_modified, new_etag } = seen {
                let parsed = choose|parsed: Result<FeedDocument, String>|
                    call_ensures(parse, (&body,), parsed) && is_fresh_event_of(
                        parsed,
                        new_last_modified,
                        new_etag,
                        Ok(event),
                    );
                assert(call_ensures(parse, (&body,), parsed) && is_result_of_parse(
                    parsed,
                    fetched,
                ));
            }
        }
        fetched
    }

    /// Polls `feed`, whose row in the cache is `stats`, once at `now`.
    ///
    /// A feed that is not due is skipped: `send` is not called, as it
    /// need not even accept a request then. A feed that is due has its
    /// one conditional request handed to `send`, and the answer decides
    /// the rest; the body of fresh data is read by `parse`.
    pub fn poll_cached<
        S: Fn(&FetchRequest) -> Result<HttpResponse, TransportError>,
        P: Fn(&Vec<u8>) -> Result<FeedDocument, String>,
    >(
        &self,
        feed: &Feed,
        stats: &FeedStats,
        now: Timestamp,
        send: &S,
        parse: &P,
    ) -> (fetched: Result<Polled, FetchError>)
        requires
            forall|body: &Vec<u8>| call_requires(parse, (body,)),
            forall|request: &FetchRequest|
                due(stats@.last_fetched, now@, feed.poll_interval_secs) && is_request_for(
                    *request,
                    feed.url@,
                    stats@.last_modified,
                    stats@.etag,
                    feed.conditional_type,
                    self.settings().http_request_timeout_secs,
                ) ==> call_requires(send, (request,)),
        ensures
            is_poll_of(
                self.settings().http_request_timeout_secs,
                *feed,
                stats@,
                now@,
                send,
                parse,
                fetched,
            ),
            fetched matches Err(e) ==> e is HTTPError || e is FeedParseError
                || e is StorageDBOperationError,
    {
        match decide(feed, stats, now, self.config.http_request_timeout_secs) {
            PollDecision::Skip => Ok(Polled::Skipped(SkipReason::NotDue)),
            PollDecision::Fetch(request) => {
                proof {
                    assert(is_request_for(
                        request,
                        feed.url@,
                        stats@.last_modified,
                        stats@.etag,
                        feed.conditional_type,
                        self.settings().http_request_timeout_secs,
                    ));
                }
                let outcome = dispatch(&request, send);
                self.record_outcome(stats, outcome, now, parse)
            },
        }
    }

    /// Polls `feed` once at `now`: loads its row from the cache, or
    /// creates a bare one, and goes on as [`FeedReader::poll_cached`].
    pub fn poll<
        S: Fn(&FetchRequest) -> Result<HttpResponse, TransportError>,
        P: Fn(&Vec<u8>) -> Result<FeedDocument, String>,
    >(
        &self,
        feed: &Feed,
        now: Timestamp,
        send: &S,
        parse: &P,
    ) -> (fetched: Result<Polled, FetchError>)
        requires
            forall|request: &FetchRequest| call_requires(send, (request,)),
            forall|body: &Vec<u8>| call_requires(parse, (body,)),
        ensures
            is_fetch_of(
                self.settings().http_request_timeout_secs,
                *feed,
                now@,
                send,
                parse,
                fetched,
            ),
            fetched matches Err(e) ==> !(e is UnknownFeed),
    {
        let stats = match self.load_or_create(feed.url.as_str()) {
            Ok(stats) => stats,
            Err(e) => {
                return Err(e);
            },
        };
        self.poll_cached(feed, &stats, now, send, parse)
    }

    /// Polls the feed called `feed_name` once at `now`. Returns the
    /// feed document where the server sent fresh data, and the reason
    /// where the poll was skipped: the feed was not due, unchanged, or
    /// the server asked to slow down.
    pub fn fetch_feed<
        S: Fn(&FetchRequest) -> Result<HttpResponse, TransportError>,
        P: Fn(&Vec<u8>) -> Result<FeedDocument, String>,
    >(
        &self,
        feed_name: &str,
        now: Timestamp,
        send: &S,
        parse: &P,
    ) -> (fetched: Result<Polled, FetchError>)
        requires
            forall|request: &FetchRequest| call_requires(send, (request,)),
            forall|body: &Vec<u8>| call_requires(parse, (body,)),
        ensures
            !self.settings().has_feed(feed_name@) ==> (fetched matches Err(
                FetchError::UnknownFeed { name },
            ) && name@ == feed_name@),
            self.settings().has_feed(feed_name@) ==> !(fetched matches Err(
                FetchError::UnknownFeed { .. },
            )) && exists|i: int|
                0 <= i < self.settings().feeds.len() && self.settings().feeds[i].0@ == feed_name@
                    && is_fetch_of(
                    self.settings().http_request_timeout_secs,
                    self.settings().feeds[i].1,
                    now@,
                    send,
                    parse,
                    fetched,
                ),
    {
        match self.config.find_feed(feed_name) {
            Some(feed) => self.poll(feed, now, send, parse),
            None => Err(FetchError::UnknownFeed { name: feed_name.to_owned() }),
        }
    }

    /// Polls every configured feed once at `now`, in the order of the
    /// configuration. The failure of one feed does not keep the others
    /// from being polled: each feed has its own result.
    pub fn fetch_all<
        S: Fn(&FetchRequest) -> Result<HttpResponse, TransportError>,
        P: Fn(&Vec<u8>) -> Result<FeedDocument, String>,
    >(
        &self,
        now: Timestamp,
        send: &S,
        parse: &P,
    ) -> (results: Vec<Result<Polled, FetchError>>)
        requires
            forall|request: &FetchRequest| call_requires(send, (request,)),
            forall|body: &Vec<u8>| call_requires(parse, (body,)),
        ensures
            results@.len() == self.settings().feeds@.len(),
            forall|i: int|
                0 <= i < results@.len() ==> is_fetch_of(
                    self.settings().http_request_timeout_secs,
                    self.settings().feeds[i].1,
                    now@,
                    send,
                    parse,
                    #[trigger] results@[i],
                ),
    {
        let mut results: Vec<Result<Polled, FetchError>> = Vec::new();
        let mut i: usize = 0;
        while i < self.config.feeds.len()
            invariant
                i <= self.config.feeds.len(),
                results@.len() == i,
                forall|request: &FetchRequest| call_requires(send, (request,)),
                forall|body: &Vec<u8>| call_requires(parse, (body,)),
                forall|k: int|
                    0 <= k < results@.len() ==> is_fetch_of(
                        self.settings().http_request_timeout_secs,
                        self.settings().feeds[k].1,
                        now@,
                        send,
                        parse,
                        #[trigger] results@[k],
                    ),
            decreases self.config.feeds.len() - i,
        {
            let fetched = self.poll(&self.config.feeds[i].1, now, send, parse);
            results.push(fetched);
            i += 1;
        }
        results
    }
}

} // verus!
