use podfetch::parse::parse_feed;

const VALID_FEED: &str = "<rss version=\"2.0\"><channel>\
<title>Example Cast</title>\
<description>A show about examples</description>\
<link>http://example.com</link>\
<pubDate>Wed, 01 Jan 2020 00:00:00 GMT</pubDate>\
<item><title>Ep One</title><guid>g-1</guid>\
<pubDate>Thu, 02 Jan 2020 00:00:00 GMT</pubDate>\
<enclosure url=\"http://example.com/1.mp3\" length=\"123\" type=\"audio/mpeg\"/>\
</item>\
<item><title>Ep Two</title><guid>g-2</guid></item>\
</channel></rss>";

#[test]
fn parses_channel_metadata() {
    let doc = parse_feed(VALID_FEED.as_bytes()).expect("well-formed feed must parse");
    assert_eq!(doc.title, "Example Cast");
    assert_eq!(doc.description.as_deref(), Some("A show about examples"));
    assert_eq!(doc.pub_date.as_deref(), Some("Wed, 01 Jan 2020 00:00:00 GMT"));
    assert_eq!(doc.episodes.len(), 2);
}

#[test]
fn parses_episode_fields() {
    let doc = parse_feed(VALID_FEED.as_bytes()).expect("well-formed feed must parse");
    let first = &doc.episodes[0];
    assert_eq!(first.title.as_deref(), Some("Ep One"));
    assert_eq!(first.guid.as_deref(), Some("g-1"));
    assert_eq!(first.pub_date.as_deref(), Some("Thu, 02 Jan 2020 00:00:00 GMT"));
    let enc = first.enclosure.as_ref().expect("first episode has an enclosure");
    assert_eq!(enc.url, "http://example.com/1.mp3");
    assert_eq!(enc.length, "123");
    assert_eq!(enc.mime_type, "audio/mpeg");
    let second = &doc.episodes[1];
    assert_eq!(second.title.as_deref(), Some("Ep Two"));
    assert_eq!(second.guid.as_deref(), Some("g-2"));
    assert_eq!(second.pub_date, None);
    assert_eq!(second.enclosure, None);
}

#[test]
fn parse_is_deterministic() {
    let bytes = VALID_FEED.as_bytes();
    let a = parse_feed(bytes).expect("well-formed feed must parse");
    let b = parse_feed(bytes).expect("well-formed feed must parse");
    assert_eq!(a.title, b.title);
    assert_eq!(a.episodes.len(), b.episodes.len());
    assert_eq!(a.resolved_pub_date(), b.resolved_pub_date());
    assert_eq!(a, b);
}

#[test]
fn rejects_non_xml_body() {
    let r = parse_feed(b"this is not a feed at all");
    assert!(r.is_err());
}

#[test]
fn rejects_xml_that_is_not_a_feed() {
    let r = parse_feed(b"<html><body>404 not found</body></html>");
    assert!(r.is_err());
}

#[test]
fn rejects_truncated_feed() {
    let r = parse_feed(b"<rss version=\"2.0\"><channel><title>cut off");
    assert!(r.is_err());
}
