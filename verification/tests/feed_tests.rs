use readlater::error::FeedError;
use readlater::feed::{feed_document, xml_escape};
use readlater::store::ArticleRecord;

fn record(url: &str, title: &str, content: &str, description: &str, created: &str) -> ArticleRecord {
    ArticleRecord {
        url: String::from(url),
        title: String::from(title),
        content: String::from(content),
        description: String::from(description),
        created: String::from(created),
    }
}

#[test]
fn xml_escape_exact() {
    assert_eq!(xml_escape("a<b>&c"), "a&lt;b&gt;&amp;c");
    assert_eq!(xml_escape(""), "");
    assert_eq!(xml_escape("plain text"), "plain text");
}

#[test]
fn empty_feed_document_exact() {
    let s = feed_document(&vec![]).unwrap();
    assert_eq!(
        s,
        "<?xml version=\"1.0\" encoding=\"utf-8\"?><rss version=\"2.0\" xmlns:content=\"http://purl.org/rss/1.0/modules/content/\"><channel><title>Web Articles</title><link>https://dodgy.download/articles.rss</link><description>desc</description></channel></rss>\n"
    );
}

#[test]
fn empty_feed_is_well_formed_with_channel_metadata() {
    let s = feed_document(&vec![]).unwrap();
    let channel = rss::Channel::read_from(s.as_bytes()).unwrap();
    assert_eq!(channel.title(), "Web Articles");
    assert_eq!(channel.link(), "https://dodgy.download/articles.rss");
    assert_eq!(channel.description(), "desc");
    assert_eq!(channel.items().len(), 0);
}

#[test]
fn script_tag_never_round_trips() {
    let a = record(
        "https://example.com/a",
        "A",
        "<script>alert(1)</script><p>hi</p>",
        "",
        "2019-01-01 12:00:00",
    );
    let s = feed_document(&vec![a]).unwrap();
    assert!(!s.contains("<script"));
}

#[test]
fn feed_entry_fields() {
    let a = record(
        "https://example.com/a",
        "An <odd> & title",
        "<p>body</p>",
        "a summary",
        "2019-01-01 12:00:00",
    );
    let s = feed_document(&vec![a]).unwrap();
    assert!(s.contains("<item><title>An &lt;odd&gt; &amp; title</title>"));
    assert!(s.contains("<guid isPermaLink=\"true\">An &lt;odd&gt; &amp; title</guid>"));
    assert!(s.contains("<pubDate>Tue, 01 Jan 2019 12:00:00 +0000</pubDate>"));
    assert!(s.contains("<description>a summary</description>"));
    assert!(s.contains("<content:encoded>&lt;p&gt;body&lt;/p&gt;</content:encoded>"));
    assert!(s.ends_with("</channel></rss>\n"));
}

#[test]
fn feed_parses_back_with_one_item() {
    let a = record(
        "https://example.com/a",
        "A title",
        "<p>body</p>",
        "a summary",
        "2019-01-01 12:00:00",
    );
    let s = feed_document(&vec![a]).unwrap();
    let channel = rss::Channel::read_from(s.as_bytes()).unwrap();
    assert_eq!(channel.items().len(), 1);
    let item = &channel.items()[0];
    assert_eq!(item.title(), Some("A title"));
    assert_eq!(item.description(), Some("a summary"));
    assert_eq!(item.content(), Some("<p>body</p>"));
    assert_eq!(item.pub_date(), Some("Tue, 01 Jan 2019 12:00:00 +0000"));
}

#[test]
fn malformed_timestamp_is_serialization_error() {
    let a = record("https://example.com/a", "A", "<p>x</p>", "", "yesterday");
    assert_eq!(feed_document(&vec![a]), Err(FeedError::SerializationError));
}

#[test]
fn articles_keep_their_order() {
    let a = record("u1", "First", "<p>1</p>", "", "2019-01-01 00:00:00");
    let b = record("u2", "Second", "<p>2</p>", "", "2018-01-01 00:00:00");
    let s = feed_document(&vec![a, b]).unwrap();
    let first = s.find("<item><title>First</title>").unwrap();
    let second = s.find("<item><title>Second</title>").unwrap();
    assert!(first < second);
}
