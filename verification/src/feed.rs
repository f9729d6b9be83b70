//! The unified feed: the top-level document, with its retained native
//! provenance, the conversions to and from each native document shape, the
//! serialization entry points, and the parse dispatcher.
//!
//! A helpful table of approximately equivalent elements of the two formats
//! can be found at
//! <http://www.intertwingly.net/wiki/pie/Rss20AndAtom10Compared#table>.

use vstd::prelude::*;

use crate::atom_doc::{atom_doc_of, atom_to_xml, atom_xml_of, parse_atom, AtomDate, AtomDoc, AtomDocV, AtomLinkV, AtomPersonV, AtomCategoryV};
use crate::category::{categories_from_atom, categories_from_rss, categories_to_atom, categories_to_rss, category_from_atom, category_from_rss, category_to_atom, category_to_rss, Category, CategoryV};
use crate::entry::{entries_from_atom, entries_to_atom, entries_to_rss, entry_from_atom_v, entry_from_rss_v, entry_to_atom_v, entry_to_rss_v, items_from_rss_at, Entry, EntryV};
use crate::generator::{generator_from_atom, generator_from_name_spec, generator_to_atom, Generator, GeneratorV};
use crate::image::{image_from_logo, image_from_rss, image_to_rss, Image, ImageV};
use crate::link::{clone_opt_string, dup_strings, link_from_atom, link_from_href_spec, link_to_atom, links_from_atom, links_to_atom, Link, LinkV};
use crate::person::{person_from_atom, person_from_name_spec, person_to_atom, persons_from_atom, persons_to_atom, Person, PersonV};
use crate::rss_doc::{parse_rss, rss_doc_of, rss_to_xml, rss_xml_of, RssCategoryV, RssChannel, RssChannelV, RssItemV};
use crate::text_input::{text_input_from_rss, text_input_to_rss, TextInput, TextInputV};
use crate::timestamp::{now_utc, rfc2822_string_of, Timestamp};

verus! {

/// The native document a feed was parsed from, tagged by its format.
#[derive(Debug, Clone, PartialEq, Eq)]
pub enum FeedData {
    Atom(AtomDoc),
    Rss(RssChannel),
}

pub enum FeedDataV {
    Atom(AtomDocV),
    Rss(RssChannelV),
}

impl View for FeedData {
    type V = FeedDataV;

    open spec fn view(&self) -> FeedDataV {
        match self {
            FeedData::Atom(d) => FeedDataV::Atom(d@),
            FeedData::Rss(c) => FeedDataV::Rss(c@),
        }
    }
}

impl DeepView for FeedData {
    type V = FeedDataV;

    open spec fn deep_view(&self) -> FeedDataV {
        self.view()
    }
}

/// A unified feed.
///
/// `source_data` is the retained provenance: the exact native document this
/// feed was parsed from, if it was parsed at all.  It exists only to make
/// same-format re-serialization lossless and is not part of the unified
/// schema.  The remaining fields are the unified schema; fields with no
/// native equivalent on one side stay at their zero value, never inferred.
#[derive(Debug, Clone, PartialEq, Eq)]
pub struct Feed {
    pub source_data: Option<FeedData>,
    pub id: Option<String>,
    pub title: String,
    pub description: Option<String>,
    pub updated: Option<Timestamp>,
    pub copyright: Option<String>,
    pub icon: Option<String>,
    pub image: Option<Image>,
    pub generator: Option<Generator>,
    pub links: Vec<Link>,
    pub categories: Vec<Category>,
    pub authors: Vec<Person>,
    pub contributors: Vec<Person>,
    pub entries: Vec<Entry>,
    pub ttl: Option<String>,
    pub skip_hours: Vec<String>,
    pub skip_days: Vec<String>,
    pub text_input: Option<TextInput>,
    pub language: Option<String>,
    pub docs: Option<String>,
    pub rating: Option<String>,
}

#[verifier::ext_equal]
pub struct FeedV {
    pub source: Option<FeedDataV>,
    pub id: Option<Seq<char>>,
    pub title: Seq<char>,
    pub description: Option<Seq<char>>,
    pub updated: Option<Timestamp>,
    pub copyright: Option<Seq<char>>,
    pub icon: Option<Seq<char>>,
    pub image: Option<ImageV>,
    pub generator: Option<GeneratorV>,
    pub links: Seq<LinkV>,
    pub categories: Seq<CategoryV>,
    pub authors: Seq<PersonV>,
    pub contributors: Seq<PersonV>,
    pub entries: Seq<EntryV>,
    pub ttl: Option<Seq<char>>,
    pub skip_hours: Seq<Seq<char>>,
    pub skip_days: Seq<Seq<char>>,
    pub text_input: Option<TextInputV>,
    pub language: Option<Seq<char>>,
    pub docs: Option<Seq<char>>,
    pub rating: Option<Seq<char>>,
}

impl View for Feed {
    type V = FeedV;

    open spec fn view(&self) -> FeedV {
        FeedV {
            source: self.source_data.deep_view(),
            id: self.id.deep_view(),
            title: self.title@,
            description: self.description.deep_view(),
            updated: self.updated,
            copyright: self.copyright.deep_view(),
            icon: self.icon.deep_view(),
            image: self.image.deep_view(),
            generator: self.generator.deep_view(),
            links: self.links.deep_view(),
            categories: self.categories.deep_view(),
            authors: self.authors.deep_view(),
            contributors: self.contributors.deep_view(),
            entries: self.entries.deep_view(),
            ttl: self.ttl.deep_view(),
            skip_hours: self.skip_hours.deep_view(),
            skip_days: self.skip_days.deep_view(),
            text_input: self.text_input.deep_view(),
            language: self.language.deep_view(),
            docs: self.docs.deep_view(),
            rating: self.rating.deep_view(),
        }
    }
}

impl DeepView for Feed {
    type V = FeedV;

    open spec fn deep_view(&self) -> FeedV {
        self.view()
    }
}

/// The first link's URL of an Atom document, or the empty string when it
/// has none: what the synthesized image borrows as its link.
pub open spec fn first_link_href(links: Seq<AtomLinkV>) -> Seq<char> {
    if links.len() > 0 {
        links[0].href
    } else {
        Seq::empty()
    }
}

/// The unified feed an Atom document maps to.  Every unified field with an
/// Atom equivalent carries over; the RSS-only extras stay at their zero
/// values.  The image is synthesized from the logo URL, borrowing the
/// feed's own title and first link.
pub open spec fn feed_from_atom_v(d: AtomDocV) -> FeedV {
    FeedV {
        source: Some(FeedDataV::Atom(d)),
        id: Some(d.id),
        title: d.title,
        description: d.subtitle,
        updated: Some(d.updated.spec_instant()),
        copyright: d.rights,
        icon: d.icon,
        image: match d.logo {
            Some(url) => Some(image_from_logo(url, d.title, first_link_href(d.links))),
            None => None,
        },
        generator: match d.generator {
            Some(g) => Some(generator_from_atom(g)),
            None => None,
        },
        links: d.links.map_values(|l: AtomLinkV| link_from_atom(l)),
        categories: d.categories.map_values(|c: AtomCategoryV| category_from_atom(c)),
        authors: d.authors.map_values(|p: AtomPersonV| person_from_atom(p)),
        contributors: d.contributors.map_values(|p: AtomPersonV| person_from_atom(p)),
        entries: d.entries.map_values(|e| entry_from_atom_v(e)),
        ttl: None,
        skip_hours: Seq::empty(),
        skip_days: Seq::empty(),
        text_input: None,
        language: None,
        docs: None,
        rating: None,
    }
}

/// The unified feed an RSS channel maps to, given the instant `now` that
/// stands in for the wall clock while the items are converted.  The
/// channel's single link becomes a one-element list; the managing editor
/// and webmaster become one-element author and contributor lists; `updated`
/// stays absent (RSS's dates are not canonical).
pub open spec fn feed_from_rss_v(c: RssChannelV, now: Timestamp) -> FeedV {
    FeedV {
        source: Some(FeedDataV::Rss(c)),
        id: None,
        title: c.title,
        description: Some(c.description),
        updated: None,
        copyright: c.copyright,
        icon: None,
        image: match c.image {
            Some(i) => Some(image_from_rss(i)),
            None => None,
        },
        generator: match c.generator {
            Some(n) => Some(generator_from_name_spec(n)),
            None => None,
        },
        links: seq![link_from_href_spec(c.link)],
        categories: c.categories.map_values(|x: RssCategoryV| category_from_rss(x)),
        authors: match c.managing_editor {
            Some(n) => seq![person_from_name_spec(n)],
            None => Seq::empty(),
        },
        contributors: match c.webmaster {
            Some(n) => seq![person_from_name_spec(n)],
            None => Seq::empty(),
        },
        entries: c.items.map_values(|i: RssItemV| entry_from_rss_v(i, now)),
        ttl: c.ttl,
        skip_hours: c.skip_hours,
        skip_days: c.skip_days,
        text_input: match c.text_input {
            Some(t) => Some(text_input_from_rss(t)),
            None => None,
        },
        language: c.language,
        docs: c.docs,
        rating: c.rating,
    }
}

/// The Atom document a unified feed reconstructs to, when no Atom
/// provenance is available: absent id becomes the empty string, an absent
/// `updated` becomes `now` (the wall-clock stand-in), the image collapses
/// to its URL as the logo, and the generator maps one-to-one.
pub open spec fn feed_new_atom_v(f: FeedV, now: Timestamp) -> AtomDocV {
    AtomDocV {
        title: f.title,
        id: match f.id {
            Some(s) => s,
            None => Seq::empty(),
        },
        updated: AtomDate::spec_from_instant(
            match f.updated {
                Some(t) => t,
                None => now,
            },
        ),
        authors: f.authors.map_values(|p: PersonV| person_to_atom(p)),
        categories: f.categories.map_values(|c: CategoryV| category_to_atom(c)),
        contributors: f.contributors.map_values(|p: PersonV| person_to_atom(p)),
        generator: match f.generator {
            Some(g) => Some(generator_to_atom(g)),
            None => None,
        },
        icon: f.icon,
        links: f.links.map_values(|l: LinkV| link_to_atom(l)),
        logo: match f.image {
            Some(i) => Some(i.url),
            None => None,
        },
        rights: f.copyright,
        subtitle: f.description,
        entries: f.entries.map_values(|e: EntryV| entry_to_atom_v(e)),
    }
}

/// The Atom document a unified feed serializes to: the retained Atom
/// document unchanged when the feed came from Atom (the fast path, no field
/// loss), otherwise the reconstruction above.
pub open spec fn feed_to_atom_v(f: FeedV, now: Timestamp) -> AtomDocV {
    match f.source {
        Some(FeedDataV::Atom(d)) => d,
        _ => feed_new_atom_v(f, now),
    }
}

/// The RSS channel a unified feed reconstructs to, when no RSS provenance
/// is available: absent description and link become empty strings, only the
/// first link / author / contributor survive (RSS allows one of each),
/// `updated` renders as the last-build date, and `pub_date` stays absent.
pub open spec fn feed_new_rss_v(f: FeedV) -> RssChannelV {
    RssChannelV {
        title: f.title,
        link: if f.links.len() > 0 {
            f.links[0].href
        } else {
            Seq::empty()
        },
        description: match f.description {
            Some(d) => d,
            None => Seq::empty(),
        },
        language: f.language,
        copyright: f.copyright,
        managing_editor: if f.authors.len() > 0 {
            Some(f.authors[0].name)
        } else {
            None
        },
        webmaster: if f.contributors.len() > 0 {
            Some(f.contributors[0].name)
        } else {
            None
        },
        pub_date: None,
        last_build_date: match f.updated {
            Some(t) => Some(rfc2822_string_of(t)),
            None => None,
        },
        categories: f.categories.map_values(|c: CategoryV| category_to_rss(c)),
        generator: match f.generator {
            Some(g) => Some(g.name),
            None => None,
        },
        docs: f.docs,
        rating: f.rating,
        ttl: f.ttl,
        image: match f.image {
            Some(i) => Some(image_to_rss(i)),
            None => None,
        },
        text_input: match f.text_input {
            Some(t) => Some(text_input_to_rss(t)),
            None => None,
        },
        skip_hours: f.skip_hours,
        skip_days: f.skip_days,
        items: f.entries.map_values(|e: EntryV| entry_to_rss_v(e)),
    }
}

/// The RSS channel a unified feed serializes to: the retained RSS channel
/// unchanged when the feed came from RSS (the fast path, no field loss),
/// otherwise the reconstruction above.
pub open spec fn feed_to_rss_v(f: FeedV) -> RssChannelV {
    match f.source {
        Some(FeedDataV::Rss(c)) => c,
        _ => feed_new_rss_v(f),
    }
}

/// The dispatcher's decision on a text, as a function of what each engine
/// accepts: the Atom engine is tried first, so a text both engines would
/// accept is classified as Atom; RSS is tried only when Atom refuses.
pub open spec fn dispatch_spec(s: Seq<char>) -> Option<FeedDataV> {
    match atom_doc_of(s) {
        Some(d) => Some(FeedDataV::Atom(d)),
        None => match rss_doc_of(s) {
            Some(c) => Some(FeedDataV::Rss(c)),
            None => None,
        },
    }
}

impl Feed {
    /// Maps an Atom document to the unified feed, retaining the document as
    /// provenance.
    pub fn from_atom(d: AtomDoc) -> (r: Feed)
        ensures
            r@ == feed_from_atom_v(d@),
    {
        let ghost dv = d@;
        let id = d.id.clone();
        let title = d.title.clone();
        let description = clone_opt_string(&d.subtitle);
        let updated = d.updated.instant();
        let copyright = clone_opt_string(&d.rights);
        let icon = clone_opt_string(&d.icon);
        let image = match &d.logo {
            Some(url) => {
                let link = if d.links.len() > 0 {
                    d.links[0].href.clone()
                } else {
                    String::new()
                };
                Some(Image::from_logo(url.clone(), d.title.clone(), link))
            },
            None => None,
        };
        let generator = match &d.generator {
            Some(g) => Some(Generator::from_atom(g)),
            None => None,
        };
        let links = links_from_atom(&d.links);
        let categories = categories_from_atom(&d.categories);
        let authors = persons_from_atom(&d.authors);
        let contributors = persons_from_atom(&d.contributors);
        let entries = entries_from_atom(&d.entries);
        let r = Feed {
            source_data: Some(FeedData::Atom(d)),
            id: Some(id),
            title,
            description,
            updated: Some(updated),
            copyright,
            icon,
            image,
            generator,
            links,
            categories,
            authors,
            contributors,
            entries,
            ttl: None,
            skip_hours: Vec::new(),
            skip_days: Vec::new(),
            text_input: None,
            language: None,
            docs: None,
            rating: None,
        };
        proof {
            assert(r@ =~= feed_from_atom_v(dv));
        }
        r
    }

    /// Maps an RSS channel to the unified feed, retaining the channel as
    /// provenance.  `now` stands in for the wall clock while the items are
    /// converted.
    pub fn from_rss_at(c: RssChannel, now: Timestamp) -> (r: Feed)
        ensures
            r@ == feed_from_rss_v(c@, now),
    {
        let ghost cv = c@;
        let title = c.title.clone();
        let description = c.description.clone();
        let copyright = clone_opt_string(&c.copyright);
        let image = match &c.image {
            Some(i) => Some(Image::from_rss(i)),
            None => None,
        };
        let generator = match &c.generator {
            Some(n) => Some(Generator::from_name(n.clone())),
            None => None,
        };
        let mut links: Vec<Link> = Vec::new();
        links.push(Link::from_href(c.link.clone()));
        let categories = categories_from_rss(&c.categories);
        let mut authors: Vec<Person> = Vec::new();
        if let Some(n) = &c.managing_editor {
            authors.push(Person::from_name(n.clone()));
        }
        let mut contributors: Vec<Person> = Vec::new();
        if let Some(n) = &c.webmaster {
            contributors.push(Person::from_name(n.clone()));
        }
        let entries = items_from_rss_at(&c.items, now);
        let ttl = clone_opt_string(&c.ttl);
        let skip_hours = dup_strings(&c.skip_hours);
        let skip_days = dup_strings(&c.skip_days);
        let text_input = match &c.text_input {
            Some(t) => Some(TextInput::from_rss(t)),
            None => None,
        };
        let language = clone_opt_string(&c.language);
        let docs = clone_opt_string(&c.docs);
        let rating = clone_opt_string(&c.rating);
        let r = Feed {
            source_data: Some(FeedData::Rss(c)),
            id: None,
            title,
            description: Some(description),
            updated: None,
            copyright,
            icon: None,
            image,
            generator,
            links,
            categories,
            authors,
            contributors,
            entries,
            ttl,
            skip_hours,
            skip_days,
            text_input,
            language,
            docs,
            rating,
        };
        proof {
            assert(r@.links =~= feed_from_rss_v(cv, now).links);
            assert(r@.authors =~= feed_from_rss_v(cv, now).authors);
            assert(r@.contributors =~= feed_from_rss_v(cv, now).contributors);
            assert(r@ =~= feed_from_rss_v(cv, now));
        }
        r
    }

    /// Maps an RSS channel to the unified feed, reading the wall clock for
    /// the items' `updated` fallback.  Whatever the clock returned, the
    /// result is the mapping above for some instant.
    pub fn from_rss(c: RssChannel) -> (r: Feed)
        ensures
            exists|n: Timestamp| r@ == feed_from_rss_v(c@, n),
    {
        let ghost cv = c@;
        let now = now_utc();
        let r = Feed::from_rss_at(c, now);
        proof {
            assert(r@ == feed_from_rss_v(cv, now));
        }
        r
    }

    /// Serializes the feed to an Atom document: the retained Atom document
    /// when the feed came from Atom, otherwise the reconstruction with
    /// `now` standing in for an absent `updated`.
    pub fn to_atom_at(&self, now: Timestamp) -> (r: AtomDoc)
        ensures
            r@ == feed_to_atom_v(self@, now),
    {
        if let Some(FeedData::Atom(d)) = &self.source_data {
            return d.duplicate();
        }
        let id = match &self.id {
            Some(s) => s.clone(),
            None => String::new(),
        };
        let updated = match self.updated {
            Some(t) => t,
            None => now,
        };
        let r = AtomDoc {
            title: self.title.clone(),
            id,
            updated: AtomDate::from_instant(updated),
            authors: persons_to_atom(&self.authors),
            categories: categories_to_atom(&self.categories),
            contributors: persons_to_atom(&self.contributors),
            generator: match &self.generator {
                Some(g) => Some(g.to_atom()),
                None => None,
            },
            icon: clone_opt_string(&self.icon),
            links: links_to_atom(&self.links),
            logo: match &self.image {
                Some(i) => Some(i.url.clone()),
                None => None,
            },
            rights: clone_opt_string(&self.copyright),
            subtitle: clone_opt_string(&self.description),
            entries: entries_to_atom(&self.entries),
        };
        proof {
            assert(r@ =~= feed_new_atom_v(self@, now));
        }
        r
    }

    /// Serializes the feed to an Atom document, reading the wall clock for
    /// the `updated` default.  The result is pinned whenever the clock does
    /// not matter: on the fast path, and whenever `updated` is present.
    pub fn to_atom(&self) -> (r: AtomDoc)
        ensures
            exists|n: Timestamp| r@ == feed_to_atom_v(self@, n),
            self@.source matches Some(FeedDataV::Atom(d)) ==> r@ == d,
            self@.updated matches Some(u) ==> r@ == feed_to_atom_v(self@, u),
    {
        let now = now_utc();
        let r = self.to_atom_at(now);
        proof {
            assert(r@ == feed_to_atom_v(self@, now));
            if let Some(u) = self@.updated {
                assert(feed_new_atom_v(self@, now) =~= feed_new_atom_v(self@, u));
            }
        }
        r
    }

    /// Serializes the feed to an RSS channel: the retained RSS channel when
    /// the feed came from RSS, otherwise the reconstruction with its
    /// documented defaults and truncations.  No wall clock is involved: the
    /// result is a function of the feed alone.
    pub fn to_rss(&self) -> (r: RssChannel)
        ensures
            r@ == feed_to_rss_v(self@),
    {
        if let Some(FeedData::Rss(c)) = &self.source_data {
            return c.duplicate();
        }
        let link = if self.links.len() > 0 {
            self.links[0].href.clone()
        } else {
            String::new()
        };
        let description = match &self.description {
            Some(d) => d.clone(),
            None => String::new(),
        };
        let managing_editor = if self.authors.len() > 0 {
            Some(self.authors[0].name.clone())
        } else {
            None
        };
        let webmaster = if self.contributors.len() > 0 {
            Some(self.contributors[0].name.clone())
        } else {
            None
        };
        let last_build_date = match self.updated {
            Some(t) => Some(crate::timestamp::format_rfc2822(t)),
            None => None,
        };
        let r = RssChannel {
            title: self.title.clone(),
            link,
            description,
            language: clone_opt_string(&self.language),
            copyright: clone_opt_string(&self.copyright),
            managing_editor,
            webmaster,
            pub_date: None,
            last_build_date,
            categories: categories_to_rss(&self.categories),
            generator: match &self.generator {
                Some(g) => Some(g.name.clone()),
                None => None,
            },
            docs: clone_opt_string(&self.docs),
            rating: clone_opt_string(&self.rating),
            ttl: clone_opt_string(&self.ttl),
            image: match &self.image {
                Some(i) => Some(i.to_rss()),
                None => None,
            },
            text_input: match &self.text_input {
                Some(t) => Some(t.to_rss()),
                None => None,
            },
            skip_hours: dup_strings(&self.skip_hours),
            skip_days: dup_strings(&self.skip_days),
            items: entries_to_rss(&self.entries),
        };
        proof {
            assert(r@ =~= feed_new_rss_v(self@));
        }
        r
    }

    /// Renders the feed as Atom XML: the retained Atom document is
    /// serialized unchanged when the feed came from Atom; otherwise the
    /// reconstruction is serialized, with the wall clock standing in for an
    /// absent `updated`.
    pub fn to_atom_string(&self) -> (r: String)
        ensures
            exists|n: Timestamp| r@ == atom_xml_of(feed_to_atom_v(self@, n)),
            self@.source matches Some(FeedDataV::Atom(d)) ==> r@ == atom_xml_of(d),
            self@.updated matches Some(u) ==> r@ == atom_xml_of(feed_to_atom_v(self@, u)),
    {
        let d = self.to_atom();
        let r = atom_to_xml(&d);
        proof {
            let n = choose|n: Timestamp| d@ == feed_to_atom_v(self@, n);
            assert(r@ == atom_xml_of(feed_to_atom_v(self@, n)));
        }
        r
    }

    /// Renders the feed as RSS XML: the retained RSS channel is serialized
    /// unchanged when the feed came from RSS; otherwise the reconstruction
    /// is serialized.  The output is a function of the feed alone.
    pub fn to_rss_string(&self) -> (r: String)
        ensures
            r@ == rss_xml_of(feed_to_rss_v(self@)),
    {
        let c = self.to_rss();
        rss_to_xml(&c)
    }

    /// Parses a text as either format: the Atom engine is tried first, then
    /// the RSS engine; if both refuse, the single aggregate error is
    /// returned.
    pub fn from_str(s: &str) -> (r: Result<Feed, &'static str>)
        ensures
            match dispatch_spec(s@) {
                Some(FeedDataV::Atom(d)) => r matches Ok(f) && f@ == feed_from_atom_v(d),
                Some(FeedDataV::Rss(c)) => r matches Ok(f) && exists|n: Timestamp|
                    f@ == feed_from_rss_v(c, n),
                None => r matches Err(m) && m@ == "Could not parse XML as Atom or RSS from input"@,
            },
    {
        match parse_atom(s) {
            Some(d) => Ok(Feed::from_atom(d)),
            None => match parse_rss(s) {
                Some(c) => Ok(Feed::from_rss(c)),
                None => Err("Could not parse XML as Atom or RSS from input"),
            },
        }
    }
}

/// Round-trip identity, Atom side: a feed parsed from an Atom document
/// carries that document as provenance, re-serializes to exactly that
/// document whatever the clock says, and hence to exactly the engine's own
/// rendering of it.
pub proof fn lemma_round_trip_atom(s: Seq<char>, d: AtomDocV, now: Timestamp)
    requires
        atom_doc_of(s) == Some(d),
    ensures
        feed_from_atom_v(d).source == Some(FeedDataV::Atom(d)),
        feed_to_atom_v(feed_from_atom_v(d), now) == d,
        atom_xml_of(feed_to_atom_v(feed_from_atom_v(d), now)) == atom_xml_of(d),
{
}

/// Round-trip identity, RSS side: a feed parsed from an RSS channel
/// carries that channel as provenance and re-serializes to exactly that
/// channel, whatever instant stood in for the clock during parsing.
pub proof fn lemma_round_trip_rss(s: Seq<char>, c: RssChannelV, now: Timestamp)
    requires
        rss_doc_of(s) == Some(c),
    ensures
        feed_from_rss_v(c, now).source == Some(FeedDataV::Rss(c)),
        feed_to_rss_v(feed_from_rss_v(c, now)) == c,
        rss_xml_of(feed_to_rss_v(feed_from_rss_v(c, now))) == rss_xml_of(c),
{
}

/// Lossy cross-format conversion is deterministic: equal feeds render to
/// byte-identical RSS always, and to byte-identical Atom whenever the wall
/// clock cannot leak in — that is, unless the feed both lacks `updated` and
/// did not come from Atom.
pub proof fn lemma_cross_format_deterministic(
    f1: FeedV,
    f2: FeedV,
    n1: Timestamp,
    n2: Timestamp,
)
    requires
        f1 == f2,
    ensures
        rss_xml_of(feed_to_rss_v(f1)) == rss_xml_of(feed_to_rss_v(f2)),
        (f1.updated is Some || (f1.source matches Some(FeedDataV::Atom(_)))) ==> atom_xml_of(
            feed_to_atom_v(f1, n1),
        ) == atom_xml_of(feed_to_atom_v(f2, n2)),
{
    if f1.updated is Some {
        assert(feed_new_atom_v(f1, n1) =~= feed_new_atom_v(f2, n2));
    }
}

/// A feed built by parsing keeps its document's entry list intact: the
/// unified entries match the native entries one for one, in the same order,
/// and the provenance is always present on a parsed feed.
pub proof fn lemma_parsed_entries_correspond(d: AtomDocV, c: RssChannelV, now: Timestamp)
    ensures
        feed_from_atom_v(d).source is Some,
        feed_from_atom_v(d).entries.len() == d.entries.len(),
        forall|i: int|
            0 <= i < d.entries.len() ==> feed_from_atom_v(d).entries[i] == entry_from_atom_v(
                #[trigger] d.entries[i],
            ),
        feed_from_rss_v(c, now).source is Some,
        feed_from_rss_v(c, now).entries.len() == c.items.len(),
        forall|i: int|
            0 <= i < c.items.len() ==> feed_from_rss_v(c, now).entries[i] == entry_from_rss_v(
                #[trigger] c.items[i],
                now,
            ),
{
}

/// Dispatcher priority: a text that both engines would accept is always
/// classified as Atom, because the Atom engine is attempted first.
pub proof fn lemma_dispatcher_priority(s: Seq<char>, d: AtomDocV, c: RssChannelV)
    requires
        atom_doc_of(s) == Some(d),
        rss_doc_of(s) == Some(c),
    ensures
        dispatch_spec(s) == Some(FeedDataV::Atom(d)),
{
}

} // verus!
