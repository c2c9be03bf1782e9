//! Feed polling with conditional requests and a durable fetch cache.
//!
//! The crate decides, for each configured feed, whether a fetch is due,
//! which conditional header the request carries, how the response is
//! classified, and what is written to the cache afterwards. The cache is
//! an SQLite database, and timestamps are kept in it in the text form of
//! `jiff`. Sending a request and parsing a feed are the caller's: both
//! are handed in as functions.

pub mod config;
pub mod feed;
pub mod feed_reader;
pub mod fetch;
pub mod sqlite;
pub mod storage;
pub mod text;
pub mod timestamp;
pub mod transformer;
