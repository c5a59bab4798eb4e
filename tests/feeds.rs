use disc::error::SourceError;
use disc::feed::{has_update_schedule, atom_post_dated, feed_items, feed_posts, rss_post_dated, AtomFields, FeedItem, RssFields};
use disc::matter::decode;

const RSS: &str = r#"<?xml version="1.0" encoding="UTF-8"?>
<rss version="2.0">
<channel>
<title>Example</title>
<link>http://example.com/</link>
<description>An example feed</description>
<item>
<title>Cogito ergo sum</title>
<link>http://example.com/cogito</link>
<description>I think, therefore I am.</description>
<category>latin</category>
<category>philosophy</category>
<pubDate>Tue, 10 Aug 2021 12:00:00 +0200</pubDate>
</item>
</channel>
</rss>"#;

const ATOM: &str = r#"<?xml version="1.0" encoding="utf-8"?>
<feed xmlns="http://www.w3.org/2005/Atom">
<title>Example</title>
<id>urn:example</id>
<updated>2021-09-01T10:00:00Z</updated>
<entry>
<title>Cogito ergo sum</title>
<id>urn:example:1</id>
<updated>2021-09-02T10:00:00+02:00</updated>
<published>2021-09-01T10:00:00+02:00</published>
<author><name>Someone</name></author>
<author><name>Descartes</name></author>
<link href="http://example.com/first"/>
<link href="http://example.com/cogito"/>
<category term="philosophy"/>
<summary>I think, therefore I am.</summary>
</entry>
</feed>"#;

#[test]
fn test_add_rss() {
    let blog = "./example.rss.xml";
    let outcome = feed_posts(RSS, blog);
    assert_eq!(outcome.error, None);
    assert_eq!(outcome.posts.len(), 1);
    let p = &outcome.posts[0];
    assert_eq!(p.file_name(), "2021-08-10-Cogito ergo sum.md");
    let matter = decode(&p.render()).expect("no title");
    assert_eq!(matter.title, "Cogito ergo sum".to_string());
    assert_eq!(p.author, blog);
    assert_eq!(p.tags, vec!["philosophy".to_string()]);
    assert_eq!(p.original_link, "http://example.com/cogito");
    assert_eq!(p.content, "I think, therefore I am.");
}

#[test]
fn test_add_atom() {
    let blog = "./example.atom.xml";
    let outcome = feed_posts(ATOM, blog);
    assert_eq!(outcome.error, None);
    assert_eq!(outcome.posts.len(), 1);
    let p = &outcome.posts[0];
    assert_eq!(p.file_name(), "2021-09-01-Cogito ergo sum.md");
    let matter = decode(&p.render()).expect("no title");
    assert_eq!(matter.title, "Cogito ergo sum".to_string());
    assert_eq!(p.author, "Descartes");
    assert_eq!(p.tags, vec!["philosophy".to_string()]);
    assert_eq!(p.original_link, "http://example.com/cogito");
    assert_eq!(p.content, "I think, therefore I am.");
}

#[test]
fn text_that_is_no_feed_is_refused() {
    assert_eq!(feed_items("plain text").unwrap_err(), SourceError::UnsupportedFeedFormat);
    let outcome = feed_posts("<html></html>", "x.xml");
    assert_eq!(outcome.error, Some(SourceError::UnsupportedFeedFormat));
    assert!(outcome.posts.is_empty());
}

fn sample_atom(summary: Option<&str>, content: Option<&str>) -> AtomFields {
    AtomFields {
        title: "T".to_string(),
        summary: summary.map(|s| s.to_string()),
        content: content.map(|s| s.to_string()),
        authors: vec![],
        published: None,
        updated: "2021-09-02T10:00:00Z".to_string(),
        links: vec!["http://example.com/first".to_string(), "http://example.com/t".to_string()],
        categories: vec![],
    }
}

#[test]
fn atom_body_falls_back_to_content() {
    let p = atom_post_dated(&sample_atom(None, Some("the content")), "src.xml", Ok("2021-09-02".to_string())).unwrap();
    assert_eq!(p.content, "the content");
    assert_eq!(p.author, "src.xml");
    assert_eq!(p.original_link, "http://example.com/t");
    assert!(p.tags.is_empty());
    let p = atom_post_dated(&sample_atom(Some("the summary"), Some("the content")), "src.xml", Ok("2021-09-02".to_string())).unwrap();
    assert_eq!(p.content, "the summary");
    let e = atom_post_dated(&sample_atom(None, None), "src.xml", Ok("2021-09-02".to_string())).unwrap_err();
    assert_eq!(e, SourceError::MissingSummary);
}

#[test]
fn atom_entry_uses_updated_without_published() {
    let item = FeedItem::Atom(sample_atom(Some("s"), None));
    let p = item.to_post("src.xml").unwrap();
    assert_eq!(p.date, "2021-09-02");
    let mut f = sample_atom(Some("s"), None);
    f.links = vec![];
    assert_eq!(FeedItem::Atom(f).to_post("src.xml").unwrap_err(), SourceError::MissingField);
    let mut f = sample_atom(Some("s"), None);
    f.updated = "not a date".to_string();
    assert_eq!(FeedItem::Atom(f).to_post("src.xml").unwrap_err(), SourceError::UnparsableDate);
}

fn sample_rss() -> RssFields {
    RssFields {
        title: Some("T".to_string()),
        link: Some("http://example.com/t".to_string()),
        description: Some("d".to_string()),
        author: Some("a@example.com".to_string()),
        pub_date: Some("Sat, 27 Nov 2021 15:32:10 +0100".to_string()),
        categories: vec!["b".to_string(), "c".to_string()],
    }
}

#[test]
fn rss_required_fields() {
    let p = FeedItem::Rss(sample_rss()).to_post("src.xml").unwrap();
    assert_eq!(p.date, "2021-11-27");
    assert_eq!(p.author, "a@example.com");
    assert_eq!(p.tags, vec!["c".to_string()]);
    let mut f = sample_rss();
    f.description = None;
    assert_eq!(FeedItem::Rss(f).to_post("src.xml").unwrap_err(), SourceError::MissingSummary);
    let mut f = sample_rss();
    f.pub_date = None;
    assert_eq!(FeedItem::Rss(f).to_post("src.xml").unwrap_err(), SourceError::MissingDate);
    let mut f = sample_rss();
    f.link = None;
    assert_eq!(FeedItem::Rss(f).to_post("src.xml").unwrap_err(), SourceError::MissingField);
    let mut f = sample_rss();
    f.author = None;
    let p = rss_post_dated(&f, "src.xml", Ok("2021-11-27".to_string())).unwrap();
    assert_eq!(p.author, "src.xml");
    assert_eq!(
        rss_post_dated(&sample_rss(), "src.xml", Err(SourceError::UnparsableDate)).unwrap_err(),
        SourceError::UnparsableDate
    );
}

#[test]
fn a_failing_item_stops_its_source() {
    let mut bad = sample_rss();
    bad.description = None;
    let items = vec![FeedItem::Rss(sample_rss()), FeedItem::Rss(bad), FeedItem::Rss(sample_rss())];
    let outcome = disc::feed::posts_from_items(&items, "src.xml");
    assert_eq!(outcome.posts.len(), 1);
    assert_eq!(outcome.error, Some(SourceError::MissingSummary));
}

#[test]
fn atom_takes_the_last_author_and_category() {
    let mut f = sample_atom(Some("s"), None);
    f.authors = vec!["first".to_string(), "last".to_string()];
    f.categories = vec!["x".to_string(), "y".to_string()];
    let p = atom_post_dated(&f, "src.xml", Ok("2021-09-02".to_string())).unwrap();
    assert_eq!(p.author, "last");
    assert_eq!(p.tags, vec!["y".to_string()]);
}

#[test]
fn update_schedule_feeds_are_refused() {
    let text = RSS.replace(
        "<rss version=\"2.0\">",
        "<rss version=\"2.0\" xmlns:sy=\"http://purl.org/rss/1.0/modules/syndication/\">",
    )
    .replace("<title>Example</title>", "<title>Example</title><sy:updatePeriod>sometimes</sy:updatePeriod>");
    assert!(has_update_schedule(&text));
    assert!(!has_update_schedule(RSS));
    assert_eq!(feed_items(&text).unwrap_err(), SourceError::UnsupportedFeedFormat);
    let outcome = feed_posts(&text, "x.xml");
    assert_eq!(outcome.error, Some(SourceError::UnsupportedFeedFormat));
    assert!(outcome.posts.is_empty());
}

#[test]
fn feed_items_keep_every_list_entry() {
    let items = feed_items(ATOM).unwrap();
    match &items[0] {
        FeedItem::Atom(f) => {
            assert_eq!(f.authors, vec!["Someone".to_string(), "Descartes".to_string()]);
            assert_eq!(f.links.len(), 2);
            assert_eq!(f.published.as_deref(), Some("2021-09-01T10:00:00+02:00"));
        }
        FeedItem::Rss(_) => panic!("expected an Atom entry"),
    }
    let items = feed_items(RSS).unwrap();
    match &items[0] {
        FeedItem::Rss(f) => assert_eq!(f.categories, vec!["latin".to_string(), "philosophy".to_string()]),
        FeedItem::Atom(_) => panic!("expected an RSS item"),
    }
}
