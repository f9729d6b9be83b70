//! Same-format fidelity across every retained field: each native field gets
//! a pairwise-distinct value, the document is parsed, and the re-serialized
//! output must carry each value in its own place.

use syndication::feed::Feed as UnifiedFeed;
use syndication::rss_doc::RssChannel;
use syndication::timestamp::Timestamp;
use syndication::Feed;

const RICH_ATOM: &str = r#"<feed xmlns="http://www.w3.org/2005/Atom"><title>FT</title><id>FI</id><updated>2019-04-01T07:30:00Z</updated><author><name>AN</name><email>AE@example.org</email><uri>http://AU</uri></author><category term="CT" scheme="http://CS" label="CL"/><contributor><name>CN</name></contributor><generator uri="http://GU" version="GV">GN</generator><icon>http://IC</icon><link href="http://LH" rel="self" hreflang="en-us" type="text/html" title="LT" length="42"/><logo>http://LG</logo><rights>FR</rights><subtitle>FS</subtitle><entry><title>ET</title><id>EI</id><updated>2019-04-01T07:30:00Z</updated><published>2018-04-01T07:30:00Z</published><summary>ES</summary><content type="html">EC</content></entry></feed>"#;

#[test]
fn atom_fields_survive_parsing() {
    let feed = UnifiedFeed::from_str(RICH_ATOM).unwrap();
    assert_eq!(feed.title, "FT");
    assert_eq!(feed.id, Some("FI".to_string()));
    assert_eq!(feed.description, Some("FS".to_string()));
    assert_eq!(feed.copyright, Some("FR".to_string()));
    assert_eq!(feed.icon, Some("http://IC".to_string()));

    let g = feed.generator.as_ref().unwrap();
    assert_eq!(g.name, "GN");
    assert_eq!(g.uri, Some("http://GU".to_string()));
    assert_eq!(g.version, Some("GV".to_string()));

    let img = feed.image.as_ref().unwrap();
    assert_eq!(img.url, "http://LG");
    assert_eq!(img.title, "FT");
    assert_eq!(img.link, "http://LH");

    let l = &feed.links[0];
    assert_eq!(l.href, "http://LH");
    assert_eq!(l.rel, Some("self".to_string()));
    assert_eq!(l.hreflang, Some("en-us".to_string()));
    assert_eq!(l.mediatype, Some("text/html".to_string()));
    assert_eq!(l.title, Some("LT".to_string()));
    assert_eq!(l.length, Some("42".to_string()));

    let c = &feed.categories[0];
    assert_eq!(c.term, "CT");
    assert_eq!(c.scheme, Some("http://CS".to_string()));
    assert_eq!(c.label, Some("CL".to_string()));

    let a = &feed.authors[0];
    assert_eq!(a.name, "AN");
    assert_eq!(a.email, Some("AE@example.org".to_string()));
    assert_eq!(a.uri, Some("http://AU".to_string()));
    assert_eq!(feed.contributors[0].name, "CN");

    let e = &feed.entries[0];
    assert_eq!(e.title, Some("ET".to_string()));
    assert_eq!(e.id.as_ref().unwrap().id, "EI");
    assert!(e.id.as_ref().unwrap().is_permalink);
    assert_eq!(e.summary, Some("ES".to_string()));
    assert_eq!(e.content, Some("EC".to_string()));
    assert_eq!(e.updated, Timestamp { secs: 1554103800, nanos: 0 });
    assert_eq!(e.published, Some(Timestamp { secs: 1522567800, nanos: 0 }));
}

#[test]
fn atom_fields_survive_reserialization() {
    let feed = UnifiedFeed::from_str(RICH_ATOM).unwrap();
    let out = feed.to_atom_string();
    for marker in [
        "<title>FT</title>",
        "<id>FI</id>",
        "<updated>2019-04-01T07:30:00+00:00</updated>",
        "<name>AN</name>",
        "<email>AE@example.org</email>",
        "<uri>http://AU</uri>",
        "term=\"CT\"",
        "scheme=\"http://CS\"",
        "label=\"CL\"",
        "<name>CN</name>",
        "uri=\"http://GU\"",
        "version=\"GV\"",
        ">GN</generator>",
        "<icon>http://IC</icon>",
        "href=\"http://LH\"",
        "rel=\"self\"",
        "hreflang=\"en-us\"",
        "type=\"text/html\"",
        "title=\"LT\"",
        "length=\"42\"",
        "<logo>http://LG</logo>",
        "<rights>FR</rights>",
        "<subtitle>FS</subtitle>",
        "<title>ET</title>",
        "<id>EI</id>",
        "<published>2018-04-01T07:30:00+00:00</published>",
        "<summary>ES</summary>",
        ">EC</content>",
    ] {
        assert!(out.contains(marker), "missing {marker} in {out}");
    }
}

const RICH_RSS: &str = r#"<rss version="2.0"><channel><title>FT</title><link>http://FL</link><description>FD</description><language>en-us</language><copyright>FC</copyright><managingEditor>ME@example.org</managingEditor><webMaster>WM@example.org</webMaster><pubDate>01 Apr 2019 07:30:00 GMT</pubDate><lastBuildDate>02 Apr 2019 07:30:00 GMT</lastBuildDate><category domain="http://CD">CT</category><generator>GN</generator><docs>http://DC</docs><rating>RA</rating><ttl>60</ttl><image><url>http://IU</url><title>IT</title><link>http://IL</link><width>88</width><height>31</height></image><textInput><title>TT</title><description>TD</description><name>TN</name><link>http://TL</link></textInput><skipHours><hour>0</hour></skipHours><skipDays><day>Monday</day></skipDays><item><title>ET</title><link>http://EL</link><description>ED</description><author>EA@example.org</author><category>EC</category><comments>http://EM</comments><guid isPermaLink="false">EG</guid><pubDate>01 Apr 2019 07:30:00 GMT</pubDate></item></channel></rss>"#;

#[test]
fn rss_fields_survive_parsing() {
    let feed = UnifiedFeed::from_str(RICH_RSS).unwrap();
    assert_eq!(feed.title, "FT");
    assert_eq!(feed.id, None);
    assert_eq!(feed.description, Some("FD".to_string()));
    assert_eq!(feed.updated, None);
    assert_eq!(feed.language, Some("en-us".to_string()));
    assert_eq!(feed.copyright, Some("FC".to_string()));
    assert_eq!(feed.docs, Some("http://DC".to_string()));
    assert_eq!(feed.rating, Some("RA".to_string()));
    assert_eq!(feed.ttl, Some("60".to_string()));
    assert_eq!(feed.links[0].href, "http://FL");
    assert_eq!(feed.authors[0].name, "ME@example.org");
    assert_eq!(feed.contributors[0].name, "WM@example.org");
    assert_eq!(feed.generator.as_ref().unwrap().name, "GN");

    let img = feed.image.as_ref().unwrap();
    assert_eq!(img.url, "http://IU");
    assert_eq!(img.title, "IT");
    assert_eq!(img.link, "http://IL");
    assert_eq!(img.width, Some("88".to_string()));
    assert_eq!(img.height, Some("31".to_string()));

    let t = feed.text_input.as_ref().unwrap();
    assert_eq!(t.title, "TT");
    assert_eq!(t.description, "TD");
    assert_eq!(t.name, "TN");
    assert_eq!(t.link, "http://TL");

    let c = &feed.categories[0];
    assert_eq!(c.term, "CT");
    assert_eq!(c.scheme, Some("http://CD".to_string()));
    assert_eq!(c.label, None);

    let e = &feed.entries[0];
    assert_eq!(e.title, Some("ET".to_string()));
    assert_eq!(e.links[0].href, "http://EL");
    assert_eq!(e.content, Some("ED".to_string()));
    assert_eq!(e.authors[0].name, "EA@example.org");
    assert_eq!(e.categories[0].term, "EC");
    assert_eq!(e.comments, Some("http://EM".to_string()));
    let g = e.id.as_ref().unwrap();
    assert_eq!(g.id, "EG");
    assert!(!g.is_permalink);
    assert_eq!(e.published, Some(Timestamp { secs: 1554103800, nanos: 0 }));
    assert_eq!(e.updated, Timestamp { secs: 1554103800, nanos: 0 });
}

#[test]
fn rss_fields_survive_reserialization() {
    let feed = UnifiedFeed::from_str(RICH_RSS).unwrap();
    let out = feed.to_rss_string();
    for marker in [
        "<title>FT</title>",
        "<link>http://FL</link>",
        "<description>FD</description>",
        "<language>en-us</language>",
        "<copyright>FC</copyright>",
        "<managingEditor>ME@example.org</managingEditor>",
        "<webMaster>WM@example.org</webMaster>",
        "<pubDate>01 Apr 2019 07:30:00 GMT</pubDate>",
        "<lastBuildDate>02 Apr 2019 07:30:00 GMT</lastBuildDate>",
        "domain=\"http://CD\"",
        ">CT</category>",
        "<generator>GN</generator>",
        "<docs>http://DC</docs>",
        "<rating>RA</rating>",
        "<ttl>60</ttl>",
        "<url>http://IU</url>",
        "<title>IT</title>",
        "<link>http://IL</link>",
        "<width>88</width>",
        "<height>31</height>",
        "<title>TT</title>",
        "<description>TD</description>",
        "<name>TN</name>",
        "<link>http://TL</link>",
        "<hour>0</hour>",
        "<day>Monday</day>",
        "<title>ET</title>",
        "<link>http://EL</link>",
        "<![CDATA[ED]]>",
        "<author>EA@example.org</author>",
        ">EC</category>",
        "<comments>http://EM</comments>",
        "isPermaLink=\"false\"",
        ">EG</guid>",
    ] {
        assert!(out.contains(marker), "missing {marker} in {out}");
    }
}

// A unified feed built without provenance reconstructs a channel that the
// RSS engine can serialize and the dispatcher can parse back.
#[test]
fn reconstructed_channel_parses_again() {
    let feed = UnifiedFeed::from_str(RICH_ATOM).unwrap();
    let channel: RssChannel = feed.to_rss();
    let xml = Feed::RSS(channel).to_string();
    let back = UnifiedFeed::from_str(&xml).unwrap();
    assert_eq!(back.title, "FT");
    assert_eq!(back.entries.len(), 1);
    assert_eq!(back.entries[0].content, Some("EC".to_string()));
}
