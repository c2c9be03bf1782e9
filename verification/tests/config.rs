use feed_to_epub::config::{
    default_db_file, default_feed_poll_interval_secs, default_http_request_timeout_secs,
    default_poll_interval_secs, ConditionalType, Config, ConfigError, Feed,
    MIN_POLL_INTERVAL_SECS,
};

/// Reads a configuration as the program does: the text is TOML, what
/// it leaves out is taken from the defaults, and the result must pass
/// validation.
fn config_from_reader<R: std::io::Read>(mut reader: R) -> Result<Config, String> {
    let mut text = String::new();
    reader.read_to_string(&mut text).map_err(|err| err.to_string())?;
    let table: toml::Table = text.parse().map_err(|err: toml::de::Error| err.to_string())?;
    let mut config = Config::new();
    if let Some(db_file) = table.get("db_file").and_then(|v| v.as_str()) {
        config.db_file = db_file.to_string();
    }
    if let Some(secs) = table.get("http_request_timeout_secs").and_then(|v| v.as_integer()) {
        config.http_request_timeout_secs = secs as u64;
    }
    if let Some(secs) = table.get("poll_interval_secs").and_then(|v| v.as_integer()) {
        config.poll_interval_secs = secs as u64;
    }
    let feeds = table.get("feeds").and_then(|v| v.as_table()).ok_or("missing field `feeds`")?;
    for (name, feed) in feeds.iter() {
        let text_of = |key: &str| {
            feed.get(key).and_then(|v| v.as_str()).map(String::from).ok_or(format!("missing {key}"))
        };
        let conditional_type = match feed.get("conditional_type").and_then(|v| v.as_str()) {
            Some("ETag") => Some(ConditionalType::ETag),
            Some("LastModified") => Some(ConditionalType::LastModified),
            Some(other) => return Err(format!("unknown variant `{other}`")),
            None => None,
        };
        let poll_interval_secs = match feed.get("poll_interval_secs").and_then(|v| v.as_integer()) {
            Some(secs) => secs as u64,
            None => default_feed_poll_interval_secs(),
        };
        config.insert_feed(
            name.clone(),
            Feed {
                url: text_of("url")?,
                poll_interval_secs,
                conditional_type,
                download_dir: text_of("download_dir")?,
            },
        );
    }
    config.validate().map_err(|err| format!("{err:?}"))
}

fn feed(url: &str, poll_interval_secs: u64, conditional_type: Option<ConditionalType>) -> Feed {
    Feed {
        url: url.into(),
        poll_interval_secs,
        conditional_type,
        download_dir: "/tmp/test".into(),
    }
}

#[test]
fn defaults_have_the_documented_values() {
    assert_eq!(default_poll_interval_secs(), 14400);
    assert_eq!(default_feed_poll_interval_secs(), 14400);
    assert_eq!(default_http_request_timeout_secs(), 15);
    assert_eq!(default_db_file(), "./feed-to-rss.db");
    assert_eq!(MIN_POLL_INTERVAL_SECS, 3600);
}

#[test]
fn new_config_is_empty_and_valid() {
    let config = Config::new();
    assert!(config.feeds.is_empty());
    assert_eq!(config.db_file, "./feed-to-rss.db");
    assert_eq!(config.http_request_timeout_secs, 15);
    assert_eq!(config.poll_interval_secs, 14400);
    assert!(config.validate().is_ok());
}

#[test]
fn feed_with_defaults_is_accepted() {
    let mut config = Config::new();
    config.insert_feed(
        "test".into(),
        feed("https://example.com/rss", default_feed_poll_interval_secs(), None),
    );
    let config = config.validate().expect("failed to validate configuration");
    let found = config.find_feed("test").expect("the feed is configured");
    assert_eq!(found.url, "https://example.com/rss");
    assert_eq!(found.download_dir, "/tmp/test");
    assert_eq!(found.conditional_type, None);
    assert_eq!(found.poll_interval_secs, 14400);
}

#[test]
fn feed_with_custom_etag_is_accepted() {
    let mut config = Config::new();
    config.insert_feed(
        "test".into(),
        feed("https://example.com/rss", 3601, Some(ConditionalType::ETag)),
    );
    let config = config.validate().expect("failed to validate configuration");
    let found = config.find_feed("test").expect("the feed is configured");
    assert_eq!(found.url, "https://example.com/rss");
    assert_eq!(found.download_dir, "/tmp/test");
    assert_eq!(found.conditional_type, Some(ConditionalType::ETag));
    assert_eq!(found.poll_interval_secs, 3601);
}

#[test]
fn feed_with_custom_last_modified_is_accepted() {
    let mut config = Config::new();
    config.insert_feed(
        "test".into(),
        feed("https://example.com/rss", 3601, Some(ConditionalType::LastModified)),
    );
    let config = config.validate().expect("failed to validate configuration");
    let found = config.find_feed("test").expect("the feed is configured");
    assert_eq!(found.conditional_type, Some(ConditionalType::LastModified));
    assert_eq!(found.poll_interval_secs, 3601);
}

#[test]
fn an_hour_is_the_shortest_interval() {
    let mut config = Config::new();
    config.insert_feed("hourly".into(), feed("https://example.com/a", 3600, None));
    assert!(config.too_fast_feeds().is_empty());
    assert!(config.validate().is_ok());
}

#[test]
fn too_fast_feeds_are_named_in_order() {
    let mut config = Config::new();
    config.insert_feed("slow".into(), feed("https://example.com/a", 7200, None));
    config.insert_feed("fast".into(), feed("https://example.com/b", 3599, None));
    config.insert_feed("faster".into(), feed("https://example.com/c", 0, None));
    assert_eq!(config.too_fast_feeds(), vec!["fast".to_string(), "faster".to_string()]);
    match config.validate() {
        Err(ConfigError::PollIntervalTooFastError { feeds }) => {
            assert_eq!(feeds, vec!["fast".to_string(), "faster".to_string()]);
        }
        other => panic!("expected the too fast feeds, got {other:?}"),
    }
}

#[test]
fn too_short_cycle_is_refused() {
    let mut config = Config::new();
    config.poll_interval_secs = 3599;
    assert!(matches!(config.validate(), Err(ConfigError::CycleIntervalTooFastError)));
}

#[test]
fn too_fast_feeds_are_reported_before_the_cycle() {
    let mut config = Config::new();
    config.poll_interval_secs = 10;
    config.insert_feed("fast".into(), feed("https://example.com/b", 1, None));
    assert!(matches!(config.validate(), Err(ConfigError::PollIntervalTooFastError { .. })));
}

#[test]
fn insert_feed_replaces_the_feed_of_the_same_name() {
    let mut config = Config::new();
    assert!(config.insert_feed("a".into(), feed("https://example.com/1", 4000, None)).is_none());
    assert!(config.insert_feed("b".into(), feed("https://example.com/2", 4000, None)).is_none());
    let previous = config
        .insert_feed("a".into(), feed("https://example.com/3", 5000, None))
        .expect("the name was taken");
    assert_eq!(previous.url, "https://example.com/1");
    assert_eq!(config.feeds.len(), 2);
    assert_eq!(config.feeds[0].0, "a");
    assert_eq!(config.feeds[0].1.url, "https://example.com/3");
    assert_eq!(config.feeds[1].0, "b");
}

#[test]
fn find_feed_tells_names_apart() {
    let mut config = Config::new();
    config.insert_feed("a".into(), feed("https://example.com/1", 4000, None));
    config.insert_feed("ab".into(), feed("https://example.com/2", 4000, None));
    assert_eq!(config.feed_index("a"), Some(0));
    assert_eq!(config.feed_index("ab"), Some(1));
    assert_eq!(config.feed_index("b"), None);
    assert_eq!(config.feed_index(""), None);
    assert!(config.find_feed("abc").is_none());
    assert_eq!(config.find_feed("ab").map(|f| f.url.as_str()), Some("https://example.com/2"));
}

#[test]
fn config_from_reader_defaults() {
    let buf = String::from("
[feeds.test]
url = \"https://example.com/rss\"
download_dir = \"/tmp/test\"
        ");

    let config = config_from_reader(buf.as_bytes()).expect("failed to parse configuration");
    let test = config.find_feed("test").expect("the feed is configured");
    assert_eq!(test.url, "https://example.com/rss");
    assert_eq!(test.download_dir, "/tmp/test");
    assert_eq!(test.conditional_type, None);
    assert_eq!(test.poll_interval_secs, 14400);
}

#[test]
fn config_from_reader_custom_etag() {
    let buf = String::from("
[feeds.test]
url = \"https://example.com/rss\"
download_dir = \"/tmp/test\"
poll_interval_secs = 3601
conditional_type = \"ETag\"
        ");

    let config = config_from_reader(buf.as_bytes()).expect("failed to parse configuration");
    let test = config.find_feed("test").expect("the feed is configured");
    assert_eq!(test.url, "https://example.com/rss");
    assert_eq!(test.download_dir, "/tmp/test");
    assert_eq!(test.conditional_type, Some(ConditionalType::ETag));
    assert_eq!(test.poll_interval_secs, 3601);
}

#[test]
fn config_from_reader_custom_last_modified() {
    let buf = String::from("
[feeds.test]
url = \"https://example.com/rss\"
download_dir = \"/tmp/test\"
poll_interval_secs = 3601
conditional_type = \"LastModified\"
        ");

    let config = config_from_reader(buf.as_bytes()).expect("failed to parse configuration");
    let test = config.find_feed("test").expect("the feed is configured");
    assert_eq!(test.url, "https://example.com/rss");
    assert_eq!(test.download_dir, "/tmp/test");
    assert_eq!(test.conditional_type, Some(ConditionalType::LastModified));
    assert_eq!(test.poll_interval_secs, 3601);
}

#[test]
fn config_from_reader_refuses_a_fast_feed() {
    let buf = String::from("
[feeds.test]
url = \"https://example.com/rss\"
download_dir = \"/tmp/test\"
poll_interval_secs = 3599
        ");
    let refused = config_from_reader(buf.as_bytes()).unwrap_err();
    assert!(refused.contains("PollIntervalTooFastError"));
    assert!(refused.contains("test"));
}

#[test]
fn repeated_name_is_refused() {
    let mut config = Config::new();
    config.feeds.push(("a".into(), feed("https://example.com/1", 4000, None)));
    config.feeds.push(("b".into(), feed("https://example.com/2", 10, None)));
    config.feeds.push(("c".into(), feed("https://example.com/3", 4000, None)));
    config.feeds.push(("b".into(), feed("https://example.com/4", 4000, None)));
    config.feeds.push(("a".into(), feed("https://example.com/5", 4000, None)));
    assert_eq!(config.first_repeated_name(), Some(3));
    match config.validate() {
        Err(ConfigError::RepeatedFeedNameError { name }) => assert_eq!(name, "b"),
        other => panic!("expected a repeated name, got {other:?}"),
    }
}

#[test]
fn names_of_their_own_are_accepted() {
    let mut config = Config::new();
    config.feeds.push(("a".into(), feed("https://example.com/1", 4000, None)));
    config.feeds.push(("ab".into(), feed("https://example.com/1", 4000, None)));
    config.feeds.push(("".into(), feed("https://example.com/1", 4000, None)));
    assert_eq!(config.first_repeated_name(), None);
    assert!(config.validate().is_ok());
}
