use syndication::atom_doc::{AtomContent, AtomDate, AtomDoc, AtomEntry, AtomPerson};
use syndication::feed::Feed as UnifiedFeed;
use syndication::rss_doc::{RssChannel, RssItem};
use syndication::Feed;

const ATOM_STR: &str = r#"<?xml version="1.0" encoding="utf-8"?>
<feed xmlns="http://www.w3.org/2005/Atom">
  <id>urn:uuid:b3420f84-6bdf-4f46-a225-f1b9a14703b6</id>
  <title>TechCrunch</title>
  <updated>2019-04-01T07:30:00Z</updated>
  <entry>
    <id>urn:uuid:4ae8550b-2987-49fa-9f8c-54c180c418ac</id>
    <title>Ford hires Elon Musk as CEO</title>
    <updated>2019-04-01T07:30:00Z</updated>
  </entry>
</feed>"#;

const RSS_STR: &str = r#"<?xml version="1.0" encoding="UTF-8"?>
<rss version="2.0">
  <channel>
    <title>TechCrunch</title>
    <link>http://techcrunch.com</link>
    <description>The latest technology news and information on startups</description>
    <item>
      <title>Ford hires Elon Musk as CEO</title>
      <pubDate>01 Apr 2019 07:30:00 GMT</pubDate>
      <description>In an unprecedented move, Ford hires Elon Musk.</description>
    </item>
  </channel>
</rss>"#;

fn epoch() -> AtomDate {
    AtomDate { secs: 0, nanos: 0, off: 0 }
}

fn sample_atom_doc() -> AtomDoc {
    AtomDoc {
        title: "My Blog".to_string(),
        id: String::new(),
        updated: epoch(),
        authors: vec![AtomPerson { name: "N. Blogger".to_string(), email: None, uri: None }],
        categories: vec![],
        contributors: vec![],
        generator: None,
        icon: None,
        links: vec![],
        logo: None,
        rights: None,
        subtitle: None,
        entries: vec![AtomEntry {
            title: "My first post!".to_string(),
            id: String::new(),
            updated: epoch(),
            authors: vec![],
            categories: vec![],
            contributors: vec![],
            links: vec![],
            published: None,
            rights: None,
            summary: None,
            content: Some(AtomContent {
                value: Some("This is my first post".to_string()),
                src: None,
                content_type: None,
            }),
        }],
    }
}

const SAMPLE_ATOM_XML: &str = "<?xml version=\"1.0\"?>\n<feed xmlns=\"http://www.w3.org/2005/Atom\"><title>My Blog</title><id></id><updated>1970-01-01T00:00:00+00:00</updated><author><name>N. Blogger</name></author><entry><title>My first post!</title><id></id><updated>1970-01-01T00:00:00+00:00</updated><content>This is my first post</content></entry></feed>";

fn sample_rss_channel() -> RssChannel {
    RssChannel {
        title: "My Blog".to_string(),
        link: "http://myblog.com".to_string(),
        description: "Where I write stuff".to_string(),
        language: None,
        copyright: None,
        managing_editor: None,
        webmaster: None,
        pub_date: None,
        last_build_date: None,
        categories: vec![],
        generator: None,
        docs: None,
        rating: None,
        ttl: None,
        image: None,
        text_input: None,
        skip_hours: vec![],
        skip_days: vec![],
        items: vec![RssItem {
            title: Some("My first post!".to_string()),
            link: Some("http://myblog.com/post1".to_string()),
            description: Some("This is my first post".to_string()),
            author: None,
            categories: vec![],
            comments: None,
            guid: None,
            pub_date: None,
        }],
    }
}

const SAMPLE_RSS_XML: &str = "<?xml version=\"1.0\" encoding=\"utf-8\"?><rss version=\"2.0\"><channel><title>My Blog</title><link>http://myblog.com</link><description>Where I write stuff</description><item><title>My first post!</title><link>http://myblog.com/post1</link><description><![CDATA[This is my first post]]></description></item></channel></rss>";

#[test]
fn feed_test_from_atom_file() {
    let feed = Feed::from_str(ATOM_STR).unwrap();
    assert!(feed.to_string().len() > 0);
}

#[test]
fn test_feed_from_atom_file() {
    let feed = UnifiedFeed::from_str(ATOM_STR).unwrap();
    assert!(feed.to_atom_string().len() > 0);
}

#[test]
fn feed_test_from_rss_file() {
    let rss = Feed::from_str(RSS_STR).unwrap();
    assert!(rss.to_string().len() > 0);
}

#[test]
fn test_feed_from_rss_file() {
    let rss = UnifiedFeed::from_str(RSS_STR).unwrap();
    assert!(rss.to_rss_string().len() > 0);
}

#[test]
fn feed_test_atom_to_string() {
    let feed = Feed::Atom(sample_atom_doc());
    assert_eq!(feed.to_string(), SAMPLE_ATOM_XML);
}

#[test]
fn feed_test_rss_to_string() {
    let rss = Feed::RSS(sample_rss_channel());
    assert_eq!(rss.to_string(), SAMPLE_RSS_XML);
}

#[test]
fn lib_test_from_atom_file() {
    let feed = Feed::from_str(ATOM_STR).unwrap();
    assert!(!feed.to_string().is_empty());
}

#[test]
fn lib_test_from_rss_file() {
    let rss = Feed::from_str(RSS_STR).unwrap();
    assert!(!rss.to_string().is_empty());
}

#[test]
fn lib_test_atom_to_string() {
    let feed = Feed::Atom(sample_atom_doc());
    assert_eq!(feed.to_string(), SAMPLE_ATOM_XML);
}

#[test]
fn lib_test_rss_to_string() {
    let rss = Feed::RSS(sample_rss_channel());
    assert_eq!(rss.to_string(), SAMPLE_RSS_XML);
}
