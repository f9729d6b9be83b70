use syndication::entry::Entry;
use syndication::feed::Feed as UnifiedFeed;
use syndication::link::Link;
use syndication::timestamp::Timestamp;
use syndication::Feed;

const APRIL_SECS: i64 = 1554103800; // 2019-04-01T07:30:00Z

const ATOM_DOC: &str = r#"<feed xmlns="http://www.w3.org/2005/Atom"><id>u</id><title>T</title><updated>2019-04-01T07:30:00Z</updated><entry><id>e</id><title>E</title><updated>2019-04-01T07:30:00Z</updated></entry></feed>"#;

const RSS_DOC: &str = r#"<rss version="2.0"><channel><title>T</title><link>http://x</link><description>D</description><item><title>I</title></item></channel></rss>"#;

fn bare_entry() -> Entry {
    Entry {
        source_data: None,
        id: None,
        title: None,
        updated: Timestamp { secs: 0, nanos: 0 },
        published: None,
        summary: None,
        content: None,
        links: vec![],
        categories: vec![],
        authors: vec![],
        contributors: vec![],
        comments: None,
    }
}

// An Atom document parses into the unified schema with every stated field,
// and re-serializing to Atom reproduces its id, title, date and entry count.
#[test]
fn scenario_atom_parse_and_reserialize() {
    let feed = UnifiedFeed::from_str(ATOM_DOC).unwrap();
    assert_eq!(feed.title, "T");
    assert_eq!(feed.id, Some("u".to_string()));
    assert_eq!(feed.updated, Some(Timestamp { secs: APRIL_SECS, nanos: 0 }));
    assert_eq!(feed.entries.len(), 1);
    assert_eq!(feed.entries[0].title, Some("E".to_string()));
    assert_eq!(feed.entries[0].updated, Timestamp { secs: APRIL_SECS, nanos: 0 });

    let out = feed.to_atom_string();
    assert!(out.contains("<id>u</id>"));
    assert!(out.contains("<title>T</title>"));
    assert!(out.contains("<updated>2019-04-01T07:30:00+00:00</updated>"));
    assert_eq!(out.matches("<entry>").count(), 1);
}

// An RSS document parses into the unified schema: description, the single
// link as a one-element list, and the item titles.
#[test]
fn scenario_rss_parse() {
    let feed = UnifiedFeed::from_str(RSS_DOC).unwrap();
    assert_eq!(feed.description, Some("D".to_string()));
    assert_eq!(feed.links.len(), 1);
    assert_eq!(feed.links[0], Link::from_href("http://x".to_string()));
    assert_eq!(feed.entries.len(), 1);
    assert_eq!(feed.entries[0].title, Some("I".to_string()));
    assert_eq!(feed.entries[0].content, None);
    assert_eq!(feed.entries[0].summary, None);
}

// Round-trip identity: re-serializing a parsed document to its own format
// equals re-serializing the document the engine itself produced.
#[test]
fn round_trip_same_format_is_lossless() {
    let unified = UnifiedFeed::from_str(ATOM_DOC).unwrap();
    let native = Feed::from_str(ATOM_DOC).unwrap();
    assert_eq!(unified.to_atom_string(), native.to_string());

    let unified = UnifiedFeed::from_str(RSS_DOC).unwrap();
    let native = Feed::from_str(RSS_DOC).unwrap();
    assert_eq!(unified.to_rss_string(), native.to_string());
}

// Lossy cross-format conversion is deterministic: converting the same feed
// to the other format twice yields byte-identical output.
#[test]
fn cross_format_conversion_is_deterministic() {
    let feed = UnifiedFeed::from_str(ATOM_DOC).unwrap();
    assert_eq!(feed.to_rss_string(), feed.to_rss_string());

    let feed = UnifiedFeed::from_str(RSS_DOC).unwrap();
    assert_eq!(feed.to_rss_string(), feed.to_rss_string());
}

// A feed whose `updated` is present serializes to Atom without consulting
// the clock: two renderings agree.
#[test]
fn atom_conversion_is_deterministic_with_updated() {
    let mut feed = UnifiedFeed::from_str(RSS_DOC).unwrap();
    feed.updated = Some(Timestamp { secs: APRIL_SECS, nanos: 0 });
    assert_eq!(feed.to_atom_string(), feed.to_atom_string());
}

// Collection truncation: converting an entry with two links to RSS keeps
// the first link's URL and drops the second; it is not an error.
#[test]
fn rss_conversion_truncates_links() {
    let mut entry = bare_entry();
    entry.links = vec![
        Link::from_href("http://first".to_string()),
        Link::from_href("http://second".to_string()),
    ];
    let item = entry.to_rss();
    assert_eq!(item.link, Some("http://first".to_string()));
}

// Dispatcher priority: a document with the Atom root is classified as Atom
// (the Atom engine is attempted first), and RSS only when Atom refuses.
#[test]
fn dispatcher_classifies_atom_first() {
    assert!(matches!(Feed::from_str(ATOM_DOC), Ok(Feed::Atom(_))));
    assert!(matches!(Feed::from_str(RSS_DOC), Ok(Feed::RSS(_))));
}

// The single user-visible error: text neither engine accepts.
#[test]
fn unrecognized_input_is_one_error() {
    let e = UnifiedFeed::from_str("not xml at all").unwrap_err();
    assert_eq!(e, "Could not parse XML as Atom or RSS from input");
    let e = Feed::from_str("").unwrap_err();
    assert_eq!(e, "Could not parse XML as Atom or RSS from input");
}

// Defaulting totality: an item with a parseable date uses it for both
// `published` and `updated`; with no date, `published` stays absent while
// `updated` still holds a timestamp (it is not optional at all).
#[test]
fn rss_item_date_defaulting() {
    let feed = UnifiedFeed::from_str(
        r#"<rss version="2.0"><channel><title>T</title><link>l</link><description>D</description><item><title>A</title><pubDate>01 Apr 2019 07:30:00 GMT</pubDate></item><item><title>B</title></item></channel></rss>"#,
    )
    .unwrap();
    let dated = &feed.entries[0];
    assert_eq!(dated.published, Some(Timestamp { secs: APRIL_SECS, nanos: 0 }));
    assert_eq!(dated.updated, Timestamp { secs: APRIL_SECS, nanos: 0 });
    let undated = &feed.entries[1];
    assert_eq!(undated.published, None);
    // `updated` exists by construction; it is the wall clock's value here.
}

// An instant that RFC 2822 cannot carry (the format stops at year 9999)
// renders as the epoch instead of failing: formatting is total.
#[test]
fn out_of_range_instants_render_as_epoch() {
    let epoch_rendering = "Thu, 1 Jan 1970 00:00:00 +0000".to_string();
    let mut entry = bare_entry();
    entry.published = Some(Timestamp { secs: 253_402_300_800, nanos: 0 }); // year 10000
    assert_eq!(entry.to_rss().pub_date, Some(epoch_rendering.clone()));
    entry.published = Some(Timestamp { secs: -62_167_219_201, nanos: 0 }); // before year 0
    assert_eq!(entry.to_rss().pub_date, Some(epoch_rendering.clone()));
    entry.published = Some(Timestamp { secs: i64::MAX, nanos: 0 }); // beyond chrono itself
    assert_eq!(entry.to_rss().pub_date, Some(epoch_rendering));
}

// Reconstructing an Atom document keeps the generator: the unified record
// maps one-to-one onto Atom's generator element.
#[test]
fn atom_reconstruction_keeps_generator() {
    let mut feed = UnifiedFeed::from_str(
        r#"<rss version="2.0"><channel><title>T</title><link>l</link><description>D</description><generator>GN</generator></channel></rss>"#,
    )
    .unwrap();
    feed.generator.as_mut().unwrap().uri = Some("http://GU".to_string());
    feed.generator.as_mut().unwrap().version = Some("GV".to_string());
    let doc = feed.to_atom();
    let g = doc.generator.as_ref().unwrap();
    assert_eq!(g.value, "GN");
    assert_eq!(g.uri, Some("http://GU".to_string()));
    assert_eq!(g.version, Some("GV".to_string()));
    let out = feed.to_atom_string();
    assert!(out.contains("uri=\"http://GU\""));
    assert!(out.contains("version=\"GV\""));
    assert!(out.contains(">GN</generator>"));
}

// A published instant renders back to RSS in RFC 2822.
#[test]
fn published_renders_as_rfc2822() {
    let mut entry = bare_entry();
    entry.published = Some(Timestamp { secs: APRIL_SECS, nanos: 0 });
    let item = entry.to_rss();
    assert_eq!(item.pub_date, Some("Mon, 1 Apr 2019 07:30:00 +0000".to_string()));
}

// Reconstructing RSS from a feed with no links yields an empty link, and a
// missing description becomes the empty string: defaults, not errors.
#[test]
fn rss_reconstruction_defaults() {
    let feed = UnifiedFeed::from_str(ATOM_DOC).unwrap();
    let channel = feed.to_rss();
    assert_eq!(channel.description, "");
    assert_eq!(channel.pub_date, None);
    assert_eq!(channel.title, "T");
    assert_eq!(channel.items.len(), 1);
    assert_eq!(channel.items[0].title, Some("E".to_string()));
}
