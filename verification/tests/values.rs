use syndication::atom_doc::{AtomCategory, AtomLink, AtomPerson};
use syndication::category::Category;
use syndication::generator::Generator;
use syndication::guid::Guid;
use syndication::image::Image;
use syndication::link::Link;
use syndication::person::Person;
use syndication::rss_doc::{RssCategory, RssGuid, RssImage, RssTextInput};
use syndication::text_input::TextInput;

#[test]
fn category_from_rss_leaves_label_absent() {
    let c = Category::from_rss(&RssCategory {
        name: "tech".to_string(),
        domain: Some("http://dmoz.org".to_string()),
    });
    assert_eq!(c.term, "tech");
    assert_eq!(c.scheme, Some("http://dmoz.org".to_string()));
    // The term is deliberately not duplicated into the label.
    assert_eq!(c.label, None);
    let back = c.to_rss();
    assert_eq!(back.name, "tech");
    assert_eq!(back.domain, Some("http://dmoz.org".to_string()));
}

#[test]
fn category_atom_round_trip() {
    let a = AtomCategory {
        term: "tech".to_string(),
        scheme: None,
        label: Some("Technology".to_string()),
    };
    let c = Category::from_atom(&a);
    assert_eq!(c.label, Some("Technology".to_string()));
    assert_eq!(c.to_atom(), a);
}

#[test]
fn guid_from_id_is_permalink() {
    let g = Guid::from_id("urn:x".to_string());
    assert!(g.is_permalink);
    assert_eq!(g.id, "urn:x");
}

#[test]
fn guid_rss_round_trip() {
    let native = RssGuid { value: "tag:a".to_string(), permalink: false };
    let g = Guid::from_rss(&native);
    assert!(!g.is_permalink);
    assert_eq!(g.to_rss(), native);
}

#[test]
fn generator_from_name_sets_only_name() {
    let g = Generator::from_name("handmade".to_string());
    assert_eq!(g.name, "handmade");
    assert_eq!(g.uri, None);
    assert_eq!(g.version, None);
    let a = g.to_atom();
    assert_eq!(a.value, "handmade");
}

#[test]
fn person_from_name_sets_only_name() {
    let p = Person::from_name("N. Blogger".to_string());
    assert_eq!(p.name, "N. Blogger");
    assert_eq!(p.uri, None);
    assert_eq!(p.email, None);
    let a = p.to_atom();
    assert_eq!(a, AtomPerson { name: "N. Blogger".to_string(), email: None, uri: None });
}

#[test]
fn link_from_href_sets_only_href() {
    let l = Link::from_href("http://x".to_string());
    assert_eq!(l.href, "http://x");
    assert_eq!(l.rel, None);
    let a = l.to_atom();
    // Atom's relation defaults to the format's own default.
    assert_eq!(a.rel, "alternate");
}

#[test]
fn link_atom_round_trip() {
    let native = AtomLink {
        href: "http://x".to_string(),
        rel: "self".to_string(),
        hreflang: Some("en".to_string()),
        mime_type: Some("text/html".to_string()),
        title: Some("t".to_string()),
        length: Some("10".to_string()),
    };
    let l = Link::from_atom(&native);
    assert_eq!(l.rel, Some("self".to_string()));
    assert_eq!(l.mediatype, Some("text/html".to_string()));
    assert_eq!(l.to_atom(), native);
}

#[test]
fn image_rss_round_trip_drops_description() {
    let native = RssImage {
        url: "http://x/logo.png".to_string(),
        title: "t".to_string(),
        link: "http://x".to_string(),
        width: Some("88".to_string()),
        height: Some("31".to_string()),
        description: Some("gone".to_string()),
    };
    let i = Image::from_rss(&native);
    assert_eq!(i.width, Some("88".to_string()));
    let back = i.to_rss();
    assert_eq!(back.description, None);
    assert_eq!(back.url, "http://x/logo.png");
}

#[test]
fn image_from_logo_has_no_dimensions() {
    let i = Image::from_logo(
        "http://x/logo.png".to_string(),
        "Feed Title".to_string(),
        "http://x".to_string(),
    );
    assert_eq!(i.title, "Feed Title");
    assert_eq!(i.link, "http://x");
    assert_eq!(i.width, None);
    assert_eq!(i.height, None);
}

#[test]
fn text_input_round_trip() {
    let native = RssTextInput {
        title: "t".to_string(),
        description: "d".to_string(),
        name: "n".to_string(),
        link: "l".to_string(),
    };
    let t = TextInput::from_rss(&native);
    assert_eq!(t.to_rss(), native);
}
