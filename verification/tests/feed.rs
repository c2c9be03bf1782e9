use feed_to_epub::feed::{
    author_names, entries_from_feed, entry_from_feed_entry, extract_html_string_from_entry,
    summary_to_keep, EntryConversionError, FeedContent, FeedEntry, MAX_SUMMARY_LENGTH_BYTES,
};
use feed_to_epub::storage::Entry;

fn entry(id: &str) -> FeedEntry {
    FeedEntry {
        id: id.into(),
        title: Some("A title".into()),
        updated: Some("2024-06-19T15:22:45+00:00".into()),
        published: None,
        authors: vec![Some("Jane Roe".into()), Some("John Doe".into())],
        summary: Some("a summary".into()),
        content: Some(FeedContent { body: Some("<p>body</p>".into()) }),
    }
}

#[test]
fn html_is_the_body_of_the_content() {
    assert_eq!(extract_html_string_from_entry(&entry("a")), Ok("<p>body</p>".to_string()));
}

#[test]
fn html_is_the_summary_without_content() {
    let mut e = entry("a");
    e.content = None;
    assert_eq!(extract_html_string_from_entry(&e), Ok("a summary".to_string()));
}

#[test]
fn content_without_body_is_refused() {
    let mut e = entry("a");
    e.content = Some(FeedContent { body: None });
    assert_eq!(
        extract_html_string_from_entry(&e),
        Err(EntryConversionError::BodyExtractionError)
    );
    assert_eq!(entry_from_feed_entry(1, &e), Err(EntryConversionError::BodyExtractionError));
}

#[test]
fn neither_content_nor_summary_is_refused() {
    let mut e = entry("a");
    e.content = None;
    e.summary = None;
    assert_eq!(
        extract_html_string_from_entry(&e),
        Err(EntryConversionError::SummaryExtractionError)
    );
    assert_eq!(entry_from_feed_entry(1, &e), Err(EntryConversionError::SummaryExtractionError));
}

#[test]
fn entry_becomes_a_row() {
    assert_eq!(
        entry_from_feed_entry(7, &entry("urn:a")),
        Ok(Entry {
            feed_id: 7,
            feed_entry_id: Some("urn:a".into()),
            title: "A title".into(),
            updated: Some("2024-06-19T15:22:45+00:00".into()),
            authors: Some("Jane Roe,John Doe".into()),
            summary: "a summary".into(),
            content: "<p>body</p>".into(),
        })
    );
}

#[test]
fn missing_fields_become_empty() {
    let e = FeedEntry {
        id: String::new(),
        title: None,
        updated: None,
        published: None,
        authors: vec![],
        summary: None,
        content: Some(FeedContent { body: Some(String::new()) }),
    };
    assert_eq!(
        entry_from_feed_entry(0, &e),
        Ok(Entry {
            feed_id: 0,
            feed_entry_id: Some(String::new()),
            title: String::new(),
            updated: None,
            authors: Some(String::new()),
            summary: String::new(),
            content: String::new(),
        })
    );
}

#[test]
fn authors_without_a_name_are_passed_over() {
    let authors = vec![None, Some("A".to_string()), None, Some("B".to_string()), None];
    assert_eq!(author_names(&authors), vec!["A".to_string(), "B".to_string()]);
    let mut e = entry("a");
    e.authors = authors;
    assert_eq!(entry_from_feed_entry(1, &e).unwrap().authors, Some("A,B".to_string()));
    e.authors = vec![Some("Solo".to_string())];
    assert_eq!(entry_from_feed_entry(1, &e).unwrap().authors, Some("Solo".to_string()));
}

#[test]
fn summary_is_kept_below_the_limit_only() {
    assert_eq!(MAX_SUMMARY_LENGTH_BYTES, 1000);
    let short = "x".repeat(999);
    let long = "x".repeat(1000);
    assert_eq!(summary_to_keep(&Some(short.clone())), Some(short.clone()));
    assert_eq!(summary_to_keep(&Some(long.clone())), None);
    assert_eq!(summary_to_keep(&None), None);

    let mut e = entry("a");
    e.summary = Some(short.clone());
    assert_eq!(entry_from_feed_entry(1, &e).unwrap().summary, short);
    e.summary = Some(long);
    assert_eq!(entry_from_feed_entry(1, &e).unwrap().summary, "");
}

#[test]
fn summary_limit_counts_bytes() {
    // 500 characters of two bytes each: 1000 bytes.
    let wide = "é".repeat(500);
    assert_eq!(summary_to_keep(&Some(wide)), None);
    let narrower = "é".repeat(499);
    assert_eq!(summary_to_keep(&Some(narrower.clone())), Some(narrower));
}

#[test]
fn long_summary_still_serves_as_html() {
    let long = "x".repeat(2000);
    let mut e = entry("a");
    e.content = None;
    e.summary = Some(long.clone());
    let row = entry_from_feed_entry(1, &e).unwrap();
    assert_eq!(row.summary, "");
    assert_eq!(row.content, long);
}

#[test]
fn failing_entry_does_not_touch_its_neighbours() {
    let first = entry("first");
    let mut second = entry("second");
    second.content = Some(FeedContent { body: None });
    let third = entry("third");
    let rows = entries_from_feed(3, &vec![first.clone(), second, third.clone()]);
    assert_eq!(
        rows,
        vec![entry_from_feed_entry(3, &first).unwrap(), entry_from_feed_entry(3, &third).unwrap()]
    );
}

#[test]
fn entries_keep_the_order_of_the_feed() {
    let rows = entries_from_feed(1, &vec![entry("c"), entry("a"), entry("b")]);
    let ids: Vec<Option<String>> = rows.into_iter().map(|r| r.feed_entry_id).collect();
    assert_eq!(ids, vec![Some("c".to_string()), Some("a".to_string()), Some("b".to_string())]);
    assert!(entries_from_feed(1, &vec![]).is_empty());
}
