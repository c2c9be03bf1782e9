//! The configuration of the feeds to poll, and the rules it must meet.

use crate::text::texts;
use vstd::prelude::*;
use vstd::string::*;

verus! {

/// The shortest interval, in seconds, at which anything may be polled.
pub const MIN_POLL_INTERVAL_SECS: u64 = 3600;

/// Which validator a conditional request carries.
#[derive(Clone, Copy, Debug, PartialEq, Eq, Structural)]
pub enum ConditionalType {
    /// The entity tag the server sent last.
    ETag,
    /// The modification date the server sent last.
    LastModified,
}

/// One feed to poll.
#[derive(Clone, Debug)]
pub struct Feed {
    /// Where the feed is fetched from; also its key in the cache.
    pub url: String,
    /// The least number of seconds between two fetches of this feed.
    pub poll_interval_secs: u64,
    /// The validator to send; `None` asks unconditionally.
    pub conditional_type: Option<ConditionalType>,
    /// The directory that receives the documents made from this feed.
    pub download_dir: String,
}

/// The whole configuration: the feeds by name, the cache file, the
/// request timeout and the pause between two polling cycles.
#[derive(Clone, Debug)]
pub struct Config {
    /// The feeds, each under its name.
    pub feeds: Vec<(String, Feed)>,
    /// The database file of the cache.
    pub db_file: String,
    /// The bound on the time one request may take, in seconds.
    pub http_request_timeout_secs: u64,
    /// The pause between two polling cycles, in seconds.
    pub poll_interval_secs: u64,
}

/// Why a configuration is refused.
#[derive(Debug)]
pub enum ConfigError {
    /// The named feeds ask to be polled more than once an hour.
    PollIntervalTooFastError { feeds: Vec<String> },
    /// The pause between two polling cycles is under an hour.
    CycleIntervalTooFastError,
    /// Two feeds are configured under the one name.
    RepeatedFeedNameError { name: String },
}

/// The pause between two polling cycles where none is configured.
pub fn default_poll_interval_secs() -> (secs: u64)
    ensures
        secs == 14400,
{
    14400
}

/// The cache file where none is configured.
pub fn default_db_file() -> (path: String)
    ensures
        path@ == "./feed-to-rss.db"@,
{
    "./feed-to-rss.db".to_owned()
}

/// The request timeout where none is configured.
pub fn default_http_request_timeout_secs() -> (secs: u64)
    ensures
        secs == 15,
{
    15
}

/// The poll interval of a feed that configures none.
pub fn default_feed_poll_interval_secs() -> (secs: u64)
    ensures
        secs == 14400,
{
    14400
}

/// The names, in order, of the feeds whose interval is under
/// [`MIN_POLL_INTERVAL_SECS`].
pub open spec fn too_fast_names(feeds: Seq<(String, Feed)>) -> Seq<Seq<char>>
    decreases feeds.len(),
{
    if feeds.len() == 0 {
        Seq::empty()
    } else {
        let before = too_fast_names(feeds.drop_last());
        if feeds.last().1.poll_interval_secs < MIN_POLL_INTERVAL_SECS {
            before.push(feeds.last().0@)
        } else {
            before
        }
    }
}

/// Whether the feed at `position` bears the name of a feed before it.
pub open spec fn repeats_a_name(feeds: Seq<(String, Feed)>, position: int) -> bool {
    exists|i: int| 0 <= i < position && feeds[i].0@ == feeds[position].0@
}

impl Config {
    /// No two feeds share a name.
    pub open spec fn names_distinct(&self) -> bool {
        forall|i: int, j: int|
            0 <= i < j < self.feeds.len() ==> self.feeds[i].0@ != self.feeds[j].0@
    }

    /// Whether a feed is configured under `name`.
    pub open spec fn has_feed(&self, name: Seq<char>) -> bool {
        exists|i: int| 0 <= i < self.feeds.len() && self.feeds[i].0@ == name
    }

    /// Whether the configuration meets the rules: every feed has a
    /// name of its own, and every interval is an hour or more.
    pub open spec fn is_valid(&self) -> bool {
        &&& self.names_distinct()
        &&& too_fast_names(self.feeds@).len() == 0
        &&& self.poll_interval_secs >= MIN_POLL_INTERVAL_SECS
    }

    /// A configuration without feeds, with every setting at its default.
    pub fn new() -> (config: Config)
        ensures
            config.feeds@.len() == 0,
            config.db_file@ == "./feed-to-rss.db"@,
            config.http_request_timeout_secs == 15,
            config.poll_interval_secs == 14400,
            config.names_distinct(),
            config.is_valid(),
    {
        Config {
            feeds: Vec::new(),
            db_file: default_db_file(),
            http_request_timeout_secs: default_http_request_timeout_secs(),
            poll_interval_secs: default_poll_interval_secs(),
        }
    }

    /// The position of the feed called `name`.
    pub fn feed_index(&self, name: &str) -> (index: Option<usize>)
        ensures
            index matches Some(i) ==> i < self.feeds.len() && self.feeds[i as int].0@ == name@
                && forall|k: int| 0 <= k < i ==> self.feeds[k].0@ != name@,
            index.is_none() ==> !self.has_feed(name@),
    {
        let wanted = name.to_owned();
        let mut i: usize = 0;
        while i < self.feeds.len()
            invariant
                i <= self.feeds.len(),
                wanted@ == name@,
                forall|k: int| 0 <= k < i ==> self.feeds[k].0@ != name@,
            decreases self.feeds.len() - i,
        {
            if self.feeds[i].0 == wanted {
                return Some(i);
            }
            i += 1;
        }
        None
    }

    /// The feed called `name`.
    pub fn find_feed(&self, name: &str) -> (feed: Option<&Feed>)
        ensures
            feed.is_some() == self.has_feed(name@),
            feed matches Some(f) ==> exists|i: int|
                0 <= i < self.feeds.len() && self.feeds[i].0@ == name@ && self.feeds[i].1 == *f
                    && forall|k: int| 0 <= k < i ==> self.feeds[k].0@ != name@,
    {
        match self.feed_index(name) {
            Some(i) => Some(&self.feeds[i].1),
            None => None,
        }
    }

    /// Puts `feed` under `name`, in place of the feed that had the name
    /// before, which is returned.
    pub fn insert_feed(&mut self, name: String, feed: Feed) -> (previous: Option<Feed>)
        ensures
            old(self).names_distinct() ==> final(self).names_distinct(),
            final(self).has_feed(name@),
            final(self).db_file == old(self).db_file,
            final(self).http_request_timeout_secs == old(self).http_request_timeout_secs,
            final(self).poll_interval_secs == old(self).poll_interval_secs,
            previous.is_some() == old(self).has_feed(name@),
            previous.is_none() ==> final(self).feeds@ == old(self).feeds@.push((name, feed)),
            previous.is_some() ==> exists|i: int|
                0 <= i < old(self).feeds.len() && old(self).feeds[i].0@ == name@ && Some(
                    old(self).feeds[i].1,
                ) == previous && final(self).feeds@ == old(self).feeds@.update(i, (name, feed)),
    {
        match self.feed_index(name.as_str()) {
            Some(i) => {
                let mut slot = (name, feed);
                std::mem::swap(&mut self.feeds[i], &mut slot);
                Some(slot.1)
            },
            None => {
                self.feeds.push((name, feed));
                assert(self.feeds[self.feeds.len() - 1].0@ == name@);
                None
            },
        }
    }

    /// The names of the feeds that ask to be polled more than once an
    /// hour, in the order of the configuration.
    pub fn too_fast_feeds(&self) -> (names: Vec<String>)
        ensures
            texts(names@) == too_fast_names(self.feeds@),
    {
        let mut names: Vec<String> = Vec::new();
        let mut i: usize = 0;
        while i < self.feeds.len()
            invariant
                i <= self.feeds.len(),
                texts(names@) == too_fast_names(self.feeds@.take(i as int)),
            decreases self.feeds.len() - i,
        {
            proof {
                assert(self.feeds@.take(i + 1).drop_last() == self.feeds@.take(i as int));
            }
            if self.feeds[i].1.poll_interval_secs < MIN_POLL_INTERVAL_SECS {
                names.push(self.feeds[i].0.clone());
            }
            i += 1;
        }
        proof {
            assert(self.feeds@.take(self.feeds.len() as int) == self.feeds@);
        }
        names
    }

    /// The position of the first feed that bears the name of a feed
    /// before it.
    pub fn first_repeated_name(&self) -> (position: Option<usize>)
        ensures
            position matches Some(j) ==> j < self.feeds.len() && repeats_a_name(
                self.feeds@,
                j as int,
            ) && forall|k: int| 0 <= k < j ==> !repeats_a_name(self.feeds@, k),
            position.is_none() ==> self.names_distinct(),
    {
        let mut j: usize = 0;
        while j < self.feeds.len()
            invariant
                j <= self.feeds.len(),
                forall|k: int| 0 <= k < j ==> !repeats_a_name(self.feeds@, k),
            decreases self.feeds.len() - j,
        {
            let mut i: usize = 0;
            while i < j
                invariant
                    i <= j < self.feeds.len(),
                    forall|k: int| 0 <= k < i ==> self.feeds[k].0@ != self.feeds[j as int].0@,
                    forall|k: int| 0 <= k < j ==> !repeats_a_name(self.feeds@, k),
                decreases j - i,
            {
                if self.feeds[i].0 == self.feeds[j].0 {
                    assert(self.feeds@[i as int].0@ == self.feeds@[j as int].0@);
                    return Some(j);
                }
                i += 1;
            }
            j += 1;
        }
        proof {
            assert forall|a: int, b: int| 0 <= a < b < self.feeds.len() implies self.feeds[a].0@
                != self.feeds[b].0@ by {
                assert(!repeats_a_name(self.feeds@, b));
            }
        }
        None
    }

    /// Accepts the configuration where every feed has a name of its own
    /// and every interval is an hour or more, and says which rule is
    /// broken where not: a repeated name first, then the feeds that are
    /// too fast, then the pause between two cycles.
    pub fn validate(self) -> (checked: Result<Config, ConfigError>)
        ensures
            self.is_valid() ==> checked == Ok::<Config, ConfigError>(self),
            !self.names_distinct() ==> (checked matches Err(
                ConfigError::RepeatedFeedNameError { name },
            ) && exists|j: int|
                0 <= j < self.feeds.len() && name@ == self.feeds[j].0@ && repeats_a_name(
                    self.feeds@,
                    j,
                ) && forall|k: int| 0 <= k < j ==> !repeats_a_name(self.feeds@, k)),
            self.names_distinct() && too_fast_names(self.feeds@).len() > 0 ==> (checked matches Err(
                ConfigError::PollIntervalTooFastError { feeds },
            ) && texts(feeds@) == too_fast_names(self.feeds@)),
            self.names_distinct() && too_fast_names(self.feeds@).len() == 0
                && self.poll_interval_secs < MIN_POLL_INTERVAL_SECS ==> checked matches Err(
                ConfigError::CycleIntervalTooFastError,
            ),
    {
        match self.first_repeated_name() {
            Some(j) => {
                return Err(ConfigError::RepeatedFeedNameError { name: self.feeds[j].0.clone() });
            },
            None => {},
        }
        let too_fast = self.too_fast_feeds();
        if too_fast.len() > 0 {
            return Err(ConfigError::PollIntervalTooFastError { feeds: too_fast });
        }
        if self.poll_interval_secs < MIN_POLL_INTERVAL_SECS {
            return Err(ConfigError::CycleIntervalTooFastError);
        }
        Ok(self)
    }
}

} // verus!
