use readlater::error::StoreError;
use readlater::store::ArchiveStore;
use readlater::timestamp::parse_timestamp;

#[test]
fn duplicate_url_is_refused() {
    let mut store = ArchiveStore::open(":memory:").unwrap();
    store
        .insert_article("https://example.com/a", "A", "<p>hi</p>", "")
        .unwrap();
    let second = store.insert_article("https://example.com/a", "A again", "<p>other</p>", "");
    assert_eq!(second, Err(StoreError::DuplicateUrl));
    let rows = store.scan_articles().unwrap();
    assert_eq!(rows.len(), 1);
    assert_eq!(rows[0].title, "A");
}

#[test]
fn save_duplicate_url_is_refused() {
    let mut store = ArchiveStore::open(":memory:").unwrap();
    store
        .save_article("https://example.com/a", "A", None, "<p>hi</p>")
        .unwrap();
    let second = store.save_article("https://example.com/a", "B", None, "<p>bye</p>");
    assert_eq!(second, Err(StoreError::DuplicateUrl));
    let rows = store.scan_articles().unwrap();
    assert_eq!(rows.len(), 1);
}

#[test]
fn scan_matches_inserts_field_for_field() {
    let mut store = ArchiveStore::open(":memory:").unwrap();
    let articles = [
        ("https://example.com/1", "One", "<p>first</p>", "d1"),
        ("https://example.com/2", "Two", "<p>second</p>", ""),
        ("https://example.com/3", "Three", "<p>third</p>", "d3"),
    ];
    for (url, title, content, desc) in articles.iter() {
        store.insert_article(url, title, content, desc).unwrap();
    }
    let rows = store.scan_articles().unwrap();
    assert_eq!(rows.len(), 3);
    for (row, (url, title, content, desc)) in rows.iter().zip(articles.iter()) {
        assert_eq!(row.url, *url);
        assert_eq!(row.title, *title);
        assert_eq!(row.content, *content);
        assert_eq!(row.description, *desc);
        assert!(parse_timestamp(&row.created).is_some());
    }
}

#[test]
fn save_sanitizes_content() {
    let mut store = ArchiveStore::open(":memory:").unwrap();
    store
        .save_article(
            "https://example.com/s",
            "S",
            None,
            "<script>alert(1)</script><p>hi</p>",
        )
        .unwrap();
    let rows = store.scan_articles().unwrap();
    assert_eq!(rows.len(), 1);
    assert!(rows[0].content.contains("<p>hi</p>"));
    assert!(!rows[0].content.contains("<script"));
}

#[test]
fn save_round_trip() {
    let mut store = ArchiveStore::open(":memory:").unwrap();
    let msg = store
        .save_article("https://example.com/a", "A", None, "<p>hi</p>")
        .unwrap();
    assert_eq!(msg, "Article saved");
    let rows = store.scan_articles().unwrap();
    assert!(rows
        .iter()
        .any(|r| r.url == "https://example.com/a" && r.title == "A"));
}

#[test]
fn save_defaults_description_to_empty() {
    let mut store = ArchiveStore::open(":memory:").unwrap();
    store
        .save_article("https://example.com/a", "A", None, "<p>hi</p>")
        .unwrap();
    store
        .save_article(
            "https://example.com/b",
            "B",
            Some(String::from("a summary")),
            "<p>ho</p>",
        )
        .unwrap();
    let rows = store.scan_articles().unwrap();
    assert_eq!(rows[0].description, "");
    assert_eq!(rows[1].description, "a summary");
}

#[test]
fn empty_archive_scans_empty() {
    let store = ArchiveStore::open(":memory:").unwrap();
    assert_eq!(store.scan_articles().unwrap().len(), 0);
}

#[test]
fn embedded_nul_round_trips() {
    let mut store = ArchiveStore::open(":memory:").unwrap();
    store
        .insert_article("https://example.com/n", "a\u{0}b", "c\u{0}d", "e\u{0}f")
        .unwrap();
    let rows = store.scan_articles().unwrap();
    assert_eq!(rows.len(), 1);
    assert_eq!(rows[0].title, "a\u{0}b");
    assert_eq!(rows[0].content, "c\u{0}d");
    assert_eq!(rows[0].description, "e\u{0}f");
}

#[test]
fn saved_articles_feed_successfully() {
    let mut store = ArchiveStore::open(":memory:").unwrap();
    store
        .save_article("https://example.com/a", "A", None, "<p>hi</p>")
        .unwrap();
    let rows = store.scan_articles().unwrap();
    let doc = readlater::feed::feed_document(&rows).unwrap();
    assert!(doc.contains("<item><title>A</title>"));
    assert!(doc.contains("<content:encoded>&lt;p&gt;hi&lt;/p&gt;</content:encoded>"));
}
