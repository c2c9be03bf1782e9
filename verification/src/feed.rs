//! Parsed feed documents, and how their entries become rows of the cache.
//!
//! Parsing itself is the caller's: a parser hands this crate a
//! [`FeedDocument`] with what it read of every entry.

use crate::storage::{Entry, EntryView};
use crate::text::{byte_len, byte_length, join, joined, opt_text, opt_texts, texts};
use vstd::prelude::*;
use vstd::string::*;

verus! {

/// A summary of this many bytes or more is taken for the whole content
/// stuffed into the summary field, and is not kept as a summary.
pub const MAX_SUMMARY_LENGTH_BYTES: usize = 1000;

/// Why an entry of a feed cannot be stored or rendered.
#[derive(Clone, Copy, Debug, PartialEq, Eq, Structural)]
pub enum EntryConversionError {
    /// The entry has a content element without a body.
    BodyExtractionError,
    /// The entry has neither content nor summary.
    SummaryExtractionError,
    /// The entry has no title.
    TitleExtractionError,
}

/// The content element of an entry.
#[derive(Clone, Debug, PartialEq)]
pub struct FeedContent {
    /// The text of the element, where it has any.
    pub body: Option<String>,
}

/// One entry of a parsed feed: what this crate reads of it.
#[derive(Clone, Debug, PartialEq)]
pub struct FeedEntry {
    /// The identity the feed gives the entry.
    pub id: String,
    pub title: Option<String>,
    /// When the entry was last changed, as RFC 3339 text.
    pub updated: Option<String>,
    /// When the entry was published, as RFC 3339 text.
    pub published: Option<String>,
    /// The name of each author, where the feed gives one.
    pub authors: Vec<Option<String>>,
    pub summary: Option<String>,
    pub content: Option<FeedContent>,
}

/// A parsed feed.
#[derive(Clone, Debug, PartialEq)]
pub struct FeedDocument {
    pub entries: Vec<FeedEntry>,
}

/// The mathematical content of a [`FeedEntry`]. The content is `None`
/// where the element is missing and `Some(None)` where it has no body.
pub struct FeedEntryView {
    pub id: Seq<char>,
    pub title: Option<Seq<char>>,
    pub updated: Option<Seq<char>>,
    pub published: Option<Seq<char>>,
    pub authors: Seq<Option<Seq<char>>>,
    pub summary: Option<Seq<char>>,
    pub content: Option<Option<Seq<char>>>,
}

impl View for FeedEntry {
    type V = FeedEntryView;

    open spec fn view(&self) -> FeedEntryView {
        FeedEntryView {
            id: self.id@,
            title: opt_text(self.title),
            updated: opt_text(self.updated),
            published: opt_text(self.published),
            authors: opt_texts(self.authors@),
            summary: opt_text(self.summary),
            content: match self.content {
                Some(content) => Some(opt_text(content.body)),
                None => None,
            },
        }
    }
}

/// The views of a list of feed entries.
pub open spec fn feed_entry_views(entries: Seq<FeedEntry>) -> Seq<FeedEntryView> {
    entries.map_values(|e: FeedEntry| e@)
}

impl View for FeedDocument {
    type V = Seq<FeedEntryView>;

    /// The entries of the feed, in order.
    open spec fn view(&self) -> Seq<FeedEntryView> {
        feed_entry_views(self.entries@)
    }
}

/// The views of a list of stored entries.
pub open spec fn entry_views(entries: Seq<Entry>) -> Seq<EntryView> {
    entries.map_values(|e: Entry| e@)
}

/// The HTML of an entry: the body of its content, or its summary where
/// it has no content element.
pub open spec fn html_of(entry: FeedEntryView) -> Result<Seq<char>, EntryConversionError> {
    match entry.content {
        Some(Some(body)) => Ok(body),
        Some(None) => Err(EntryConversionError::BodyExtractionError),
        None => match entry.summary {
            Some(summary) => Ok(summary),
            None => Err(EntryConversionError::SummaryExtractionError),
        },
    }
}

/// The names that are given, in order.
pub open spec fn present_names(authors: Seq<Option<Seq<char>>>) -> Seq<Seq<char>>
    decreases authors.len(),
{
    if authors.len() == 0 {
        Seq::empty()
    } else {
        match authors.last() {
            Some(name) => present_names(authors.drop_last()).push(name),
            None => present_names(authors.drop_last()),
        }
    }
}

/// The summary that is kept: the entry's own where it is shorter than
/// [`MAX_SUMMARY_LENGTH_BYTES`], else none.
pub open spec fn kept_summary(summary: Option<Seq<char>>) -> Option<Seq<char>> {
    match summary {
        Some(text) => if byte_len(text) < MAX_SUMMARY_LENGTH_BYTES {
            Some(text)
        } else {
            None
        },
        None => None,
    }
}

/// The text of an optional text, empty where absent.
pub open spec fn or_empty(text: Option<Seq<char>>) -> Seq<char> {
    match text {
        Some(t) => t,
        None => Seq::empty(),
    }
}

/// The row that stores an entry of the feed `feed_id`, or why the entry
/// cannot be stored.
pub open spec fn stored_entry(feed_id: u64, entry: FeedEntryView) -> Result<
    EntryView,
    EntryConversionError,
> {
    match html_of(entry) {
        Ok(content) => Ok(
            EntryView {
                feed_id,
                feed_entry_id: Some(entry.id),
                title: or_empty(entry.title),
                updated: entry.updated,
                authors: Some(joined(present_names(entry.authors), ","@)),
                summary: or_empty(kept_summary(entry.summary)),
                content,
            },
        ),
        Err(e) => Err(e),
    }
}

/// The rows for the entries that can be stored, in the order of the
/// feed. An entry that cannot be stored leaves no row and does not
/// touch the rows of the others.
pub open spec fn stored_entries(feed_id: u64, entries: Seq<FeedEntryView>) -> Seq<EntryView>
    decreases entries.len(),
{
    if entries.len() == 0 {
        Seq::empty()
    } else {
        match stored_entry(feed_id, entries.last()) {
            Ok(row) => stored_entries(feed_id, entries.drop_last()).push(row),
            Err(_) => stored_entries(feed_id, entries.drop_last()),
        }
    }
}

/// The rows of two runs of entries, one after the other, are the rows
/// of the first run followed by the rows of the second: what one entry
/// becomes does not depend on its neighbours.
pub proof fn lemma_stored_entries_of_concatenation(
    feed_id: u64,
    first: Seq<FeedEntryView>,
    second: Seq<FeedEntryView>,
)
    ensures
        stored_entries(feed_id, first + second) == stored_entries(feed_id, first) + stored_entries(
            feed_id,
            second,
        ),
    decreases second.len(),
{
    if second.len() > 0 {
        assert((first + second).drop_last() == first + second.drop_last());
        lemma_stored_entries_of_concatenation(feed_id, first, second.drop_last());
    }
}

/// An entry that cannot be stored is passed over, and the entries
/// before and after it are stored as if it were not there.
pub proof fn lemma_failing_entry_is_isolated(
    feed_id: u64,
    before: Seq<FeedEntryView>,
    failing: FeedEntryView,
    after: Seq<FeedEntryView>,
)
    requires
        stored_entry(feed_id, failing).is_err(),
    ensures
        stored_entries(feed_id, before.push(failing) + after) == stored_entries(feed_id, before)
            + stored_entries(feed_id, after),
{
    lemma_stored_entries_of_concatenation(feed_id, before.push(failing), after);
    assert(before.push(failing).drop_last() == before);
}

/// Every entry that can be stored has its row among the rows of the
/// feed, whatever the other entries are.
pub proof fn lemma_storable_entry_is_stored(feed_id: u64, entries: Seq<FeedEntryView>, i: int)
    requires
        0 <= i < entries.len(),
        stored_entry(feed_id, entries[i]).is_ok(),
    ensures
        stored_entries(feed_id, entries).contains(stored_entry(feed_id, entries[i]).unwrap()),
{
    let row = stored_entry(feed_id, entries[i]).unwrap();
    let before = entries.take(i);
    let after = entries.skip(i + 1);
    assert(entries == before.push(entries[i]) + after);
    lemma_stored_entries_of_concatenation(feed_id, before.push(entries[i]), after);
    assert(before.push(entries[i]).drop_last() == before);
    let rows = stored_entries(feed_id, before).push(row);
    assert((rows + stored_entries(feed_id, after))[rows.len() - 1] == row);
}

/// An entry of a feed that cannot be stored: where it stands in the
/// feed, and why.
#[derive(Clone, Copy, Debug, PartialEq, Eq)]
pub struct RejectedEntry {
    pub position: usize,
    pub error: EntryConversionError,
}

/// The positions and errors of a list of rejected entries.
pub open spec fn rejection_views(rejected: Seq<RejectedEntry>) -> Seq<(int, EntryConversionError)> {
    rejected.map_values(|r: RejectedEntry| (r.position as int, r.error))
}

/// The entries that cannot be stored, each with its position in the
/// feed and its error, in the order of the feed. These are the entries
/// that [`stored_entries`] passes over.
pub open spec fn rejected_entries(entries: Seq<FeedEntryView>) -> Seq<(int, EntryConversionError)>
    decreases entries.len(),
{
    if entries.len() == 0 {
        Seq::empty()
    } else {
        match html_of(entries.last()) {
            Ok(_) => rejected_entries(entries.drop_last()),
            Err(e) => rejected_entries(entries.drop_last()).push((entries.len() - 1, e)),
        }
    }
}

/// Every entry of a feed is either stored or rejected: none is passed
/// over without a report.
pub proof fn lemma_every_entry_is_stored_or_rejected(feed_id: u64, entries: Seq<FeedEntryView>)
    ensures
        stored_entries(feed_id, entries).len() + rejected_entries(entries).len() == entries.len(),
    decreases entries.len(),
{
    if entries.len() > 0 {
        lemma_every_entry_is_stored_or_rejected(feed_id, entries.drop_last());
    }
}

/// Why `entry` cannot be stored, where it cannot.
pub fn conversion_error(entry: &FeedEntry) -> (error: Option<EntryConversionError>)
    ensures
        match html_of(entry@) {
            Ok(_) => error.is_none(),
            Err(e) => error == Some(e),
        },
{
    match &entry.content {
        Some(content) => match &content.body {
            Some(_) => None,
            None => Some(EntryConversionError::BodyExtractionError),
        },
        None => match &entry.summary {
            Some(_) => None,
            None => Some(EntryConversionError::SummaryExtractionError),
        },
    }
}

/// The entries of a feed that cannot be stored, for the caller to
/// report: each with its position and its error, in the order of the
/// feed.
pub fn rejections(entries: &Vec<FeedEntry>) -> (rejected: Vec<RejectedEntry>)
    ensures
        rejection_views(rejected@) == rejected_entries(feed_entry_views(entries@)),
{
    let mut rejected: Vec<RejectedEntry> = Vec::new();
    let mut i: usize = 0;
    while i < entries.len()
        invariant
            i <= entries.len(),
            rejection_views(rejected@) == rejected_entries(
                feed_entry_views(entries@).take(i as int),
            ),
        decreases entries.len() - i,
    {
        proof {
            let all = feed_entry_views(entries@);
            assert(all.take(i + 1).drop_last() == all.take(i as int));
        }
        match conversion_error(&entries[i]) {
            Some(error) => {
                rejected.push(RejectedEntry { position: i, error });
            },
            None => {},
        }
        i += 1;
    }
    proof {
        assert(feed_entry_views(entries@).take(entries.len() as int) == feed_entry_views(
            entries@,
        ));
    }
    rejected
}

/// The HTML of `entry`: the body of its content, or its summary where
/// it has no content element.
pub fn extract_html_string_from_entry(entry: &FeedEntry) -> (html: Result<
    String,
    EntryConversionError,
>)
    ensures
        match html_of(entry@) {
            Ok(text) => html.is_ok() && html.unwrap()@ == text,
            Err(e) => html == Err::<String, EntryConversionError>(e),
        },
{
    match &entry.content {
        Some(content) => match &content.body {
            Some(body) => Ok(body.clone()),
            None => Err(EntryConversionError::BodyExtractionError),
        },
        None => match &entry.summary {
            Some(summary) => Ok(summary.clone()),
            None => Err(EntryConversionError::SummaryExtractionError),
        },
    }
}

/// The names of the authors that have one, in order.
pub fn author_names(authors: &Vec<Option<String>>) -> (names: Vec<String>)
    ensures
        texts(names@) == present_names(opt_texts(authors@)),
{
    let mut names: Vec<String> = Vec::new();
    let mut i: usize = 0;
    while i < authors.len()
        invariant
            i <= authors.len(),
            texts(names@) == present_names(opt_texts(authors@).take(i as int)),
        decreases authors.len() - i,
    {
        proof {
            let all = opt_texts(authors@);
            assert(all.take(i + 1).drop_last() == all.take(i as int));
        }
        match &authors[i] {
            Some(name) => {
                names.push(name.clone());
            },
            None => {},
        }
        i += 1;
    }
    proof {
        assert(opt_texts(authors@).take(authors.len() as int) == opt_texts(authors@));
    }
    names
}

/// The summary of `entry` that is kept: its own where that is shorter
/// than [`MAX_SUMMARY_LENGTH_BYTES`].
pub fn summary_to_keep(summary: &Option<String>) -> (kept: Option<String>)
    ensures
        opt_text(kept) == kept_summary(opt_text(*summary)),
{
    match summary {
        Some(text) => if byte_length(text.as_str()) < MAX_SUMMARY_LENGTH_BYTES {
            Some(text.clone())
        } else {
            None
        },
        None => None,
    }
}

/// The row that stores `feed_entry` as an entry of the feed `feed_id`.
/// An entry without HTML is refused.
pub fn entry_from_feed_entry(feed_id: u64, feed_entry: &FeedEntry) -> (entry: Result<
    Entry,
    EntryConversionError,
>)
    ensures
        match stored_entry(feed_id, feed_entry@) {
            Ok(row) => entry.is_ok() && entry.unwrap()@ == row,
            Err(e) => entry == Err::<Entry, EntryConversionError>(e),
        },
{
    let title = match &feed_entry.title {
        Some(title) => title.clone(),
        None => String::new(),
    };
    let names = author_names(&feed_entry.authors);
    let authors = join(&names, ",");
    let summary = match summary_to_keep(&feed_entry.summary) {
        Some(text) => text,
        None => String::new(),
    };
    let content = match extract_html_string_from_entry(feed_entry) {
        Ok(content) => content,
        Err(e) => {
            return Err(e);
        },
    };
    Ok(
        Entry {
            feed_id,
            feed_entry_id: Some(feed_entry.id.clone()),
            title,
            updated: feed_entry.updated.clone(),
            authors: Some(authors),
            summary,
            content,
        },
    )
}

/// The rows for the entries of a feed that can be stored, in the order
/// of the feed; the others are passed over.
pub fn entries_from_feed(feed_id: u64, entries: &Vec<FeedEntry>) -> (rows: Vec<Entry>)
    ensures
        entry_views(rows@) == stored_entries(feed_id, feed_entry_views(entries@)),
{
    let mut rows: Vec<Entry> = Vec::new();
    let mut i: usize = 0;
    while i < entries.len()
        invariant
            i <= entries.len(),
            entry_views(rows@) == stored_entries(
                feed_id,
                feed_entry_views(entries@).take(i as int),
            ),
        decreases entries.len() - i,
    {
        proof {
            let all = feed_entry_views(entries@);
            assert(all.take(i + 1).drop_last() == all.take(i as int));
        }
        match entry_from_feed_entry(feed_id, &entries[i]) {
            Ok(row) => {
                rows.push(row);
            },
            Err(_) => {},
        }
        i += 1;
    }
    proof {
        assert(feed_entry_views(entries@).take(entries.len() as int) == feed_entry_views(
            entries@,
        ));
    }
    rows
}

} // verus!
