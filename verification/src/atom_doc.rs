//! The retained model of a parsed Atom document, and the trusted boundary
//! to the Atom format engine (the `atom_syndication` crate).
//!
//! The model mirrors the engine's document structure field for field as far
//! as the unified schema is concerned.  XML-level extension machinery
//! (extension maps, foreign namespaces, `xml:base` / `xml:lang`, text-construct
//! type attributes, and an entry's `source` element) is out of scope and is
//! not retained.

use vstd::prelude::*;

use atom_syndication::Category as NativeAtomCategory;
use atom_syndication::Content as NativeAtomContent;
use atom_syndication::Entry as NativeAtomEntry;
use atom_syndication::Feed as NativeAtomFeed;
use atom_syndication::Generator as NativeAtomGenerator;
use atom_syndication::Link as NativeAtomLink;
use atom_syndication::Person as NativeAtomPerson;
use atom_syndication::Text as NativeAtomText;

use crate::timestamp::Timestamp;

verus! {

/// A date as the Atom engine hands it over: a UTC instant plus the local
/// offset (in seconds east of UTC) that the document carried.
#[derive(Clone, Copy, PartialEq, Eq, Structural, Debug)]
pub struct AtomDate {
    pub secs: i64,
    pub nanos: u32,
    pub off: i32,
}

impl AtomDate {
    /// The UTC instant of this date, with the offset forgotten.
    pub open spec fn spec_instant(self) -> Timestamp {
        Timestamp { secs: self.secs, nanos: self.nanos }
    }

    /// The UTC instant of this date, with the offset forgotten.
    pub fn instant(&self) -> (r: Timestamp)
        ensures
            r == self.spec_instant(),
    {
        Timestamp { secs: self.secs, nanos: self.nanos }
    }

    /// The date that renders a UTC instant: offset zero.
    pub open spec fn spec_from_instant(t: Timestamp) -> AtomDate {
        AtomDate { secs: t.secs, nanos: t.nanos, off: 0 }
    }

    /// The date that renders a UTC instant: offset zero.
    pub fn from_instant(t: Timestamp) -> (r: AtomDate)
        ensures
            r == AtomDate::spec_from_instant(t),
    {
        AtomDate { secs: t.secs, nanos: t.nanos, off: 0 }
    }
}

/// A link of an Atom document.
#[derive(Debug, Clone, PartialEq, Eq)]
pub struct AtomLink {
    pub href: String,
    pub rel: String,
    pub hreflang: Option<String>,
    pub mime_type: Option<String>,
    pub title: Option<String>,
    pub length: Option<String>,
}

#[verifier::ext_equal]
pub struct AtomLinkV {
    pub href: Seq<char>,
    pub rel: Seq<char>,
    pub hreflang: Option<Seq<char>>,
    pub mime_type: Option<Seq<char>>,
    pub title: Option<Seq<char>>,
    pub length: Option<Seq<char>>,
}

impl View for AtomLink {
    type V = AtomLinkV;

    open spec fn view(&self) -> AtomLinkV {
        AtomLinkV {
            href: self.href@,
            rel: self.rel@,
            hreflang: self.hreflang.deep_view(),
            mime_type: self.mime_type.deep_view(),
            title: self.title.deep_view(),
            length: self.length.deep_view(),
        }
    }
}

impl DeepView for AtomLink {
    type V = AtomLinkV;

    open spec fn deep_view(&self) -> AtomLinkV {
        self.view()
    }
}

/// A person construct of an Atom document.
#[derive(Debug, Clone, PartialEq, Eq)]
pub struct AtomPerson {
    pub name: String,
    pub email: Option<String>,
    pub uri: Option<String>,
}

#[verifier::ext_equal]
pub struct AtomPersonV {
    pub name: Seq<char>,
    pub email: Option<Seq<char>>,
    pub uri: Option<Seq<char>>,
}

impl View for AtomPerson {
    type V = AtomPersonV;

    open spec fn view(&self) -> AtomPersonV {
        AtomPersonV {
            name: self.name@,
            email: self.email.deep_view(),
            uri: self.uri.deep_view(),
        }
    }
}

impl DeepView for AtomPerson {
    type V = AtomPersonV;

    open spec fn deep_view(&self) -> AtomPersonV {
        self.view()
    }
}

/// A category of an Atom document.
#[derive(Debug, Clone, PartialEq, Eq)]
pub struct AtomCategory {
    pub term: String,
    pub scheme: Option<String>,
    pub label: Option<String>,
}

#[verifier::ext_equal]
pub struct AtomCategoryV {
    pub term: Seq<char>,
    pub scheme: Option<Seq<char>>,
    pub label: Option<Seq<char>>,
}

impl View for AtomCategory {
    type V = AtomCategoryV;

    open spec fn view(&self) -> AtomCategoryV {
        AtomCategoryV {
            term: self.term@,
            scheme: self.scheme.deep_view(),
            label: self.label.deep_view(),
        }
    }
}

impl DeepView for AtomCategory {
    type V = AtomCategoryV;

    open spec fn deep_view(&self) -> AtomCategoryV {
        self.view()
    }
}

/// The generator element of an Atom document.
#[derive(Debug, Clone, PartialEq, Eq)]
pub struct AtomGenerator {
    pub value: String,
    pub uri: Option<String>,
    pub version: Option<String>,
}

#[verifier::ext_equal]
pub struct AtomGeneratorV {
    pub value: Seq<char>,
    pub uri: Option<Seq<char>>,
    pub version: Option<Seq<char>>,
}

impl View for AtomGenerator {
    type V = AtomGeneratorV;

    open spec fn view(&self) -> AtomGeneratorV {
        AtomGeneratorV {
            value: self.value@,
            uri: self.uri.deep_view(),
            version: self.version.deep_view(),
        }
    }
}

impl DeepView for AtomGenerator {
    type V = AtomGeneratorV;

    open spec fn deep_view(&self) -> AtomGeneratorV {
        self.view()
    }
}

/// The content element of an Atom entry.
#[derive(Debug, Clone, PartialEq, Eq)]
pub struct AtomContent {
    pub value: Option<String>,
    pub src: Option<String>,
    pub content_type: Option<String>,
}

#[verifier::ext_equal]
pub struct AtomContentV {
    pub value: Option<Seq<char>>,
    pub src: Option<Seq<char>>,
    pub content_type: Option<Seq<char>>,
}

impl View for AtomContent {
    type V = AtomContentV;

    open spec fn view(&self) -> AtomContentV {
        AtomContentV {
            value: self.value.deep_view(),
            src: self.src.deep_view(),
            content_type: self.content_type.deep_view(),
        }
    }
}

impl DeepView for AtomContent {
    type V = AtomContentV;

    open spec fn deep_view(&self) -> AtomContentV {
        self.view()
    }
}

/// An entry of an Atom document.
#[derive(Debug, Clone, PartialEq, Eq)]
pub struct AtomEntry {
    pub title: String,
    pub id: String,
    pub updated: AtomDate,
    pub authors: Vec<AtomPerson>,
    pub categories: Vec<AtomCategory>,
    pub contributors: Vec<AtomPerson>,
    pub links: Vec<AtomLink>,
    pub published: Option<AtomDate>,
    pub rights: Option<String>,
    pub summary: Option<String>,
    pub content: Option<AtomContent>,
}

#[verifier::ext_equal]
pub struct AtomEntryV {
    pub title: Seq<char>,
    pub id: Seq<char>,
    pub updated: AtomDate,
    pub authors: Seq<AtomPersonV>,
    pub categories: Seq<AtomCategoryV>,
    pub contributors: Seq<AtomPersonV>,
    pub links: Seq<AtomLinkV>,
    pub published: Option<AtomDate>,
    pub rights: Option<Seq<char>>,
    pub summary: Option<Seq<char>>,
    pub content: Option<AtomContentV>,
}

impl View for AtomEntry {
    type V = AtomEntryV;

    open spec fn view(&self) -> AtomEntryV {
        AtomEntryV {
            title: self.title@,
            id: self.id@,
            updated: self.updated,
            authors: self.authors.deep_view(),
            categories: self.categories.deep_view(),
            contributors: self.contributors.deep_view(),
            links: self.links.deep_view(),
            published: self.published,
            rights: self.rights.deep_view(),
            summary: self.summary.deep_view(),
            content: self.content.deep_view(),
        }
    }
}

impl DeepView for AtomEntry {
    type V = AtomEntryV;

    open spec fn deep_view(&self) -> AtomEntryV {
        self.view()
    }
}

/// A whole Atom document as retained from the engine.
#[derive(Debug, Clone, PartialEq, Eq)]
pub struct AtomDoc {
    pub title: String,
    pub id: String,
    pub updated: AtomDate,
    pub authors: Vec<AtomPerson>,
    pub categories: Vec<AtomCategory>,
    pub contributors: Vec<AtomPerson>,
    pub generator: Option<AtomGenerator>,
    pub icon: Option<String>,
    pub links: Vec<AtomLink>,
    pub logo: Option<String>,
    pub rights: Option<String>,
    pub subtitle: Option<String>,
    pub entries: Vec<AtomEntry>,
}

#[verifier::ext_equal]
pub struct AtomDocV {
    pub title: Seq<char>,
    pub id: Seq<char>,
    pub updated: AtomDate,
    pub authors: Seq<AtomPersonV>,
    pub categories: Seq<AtomCategoryV>,
    pub contributors: Seq<AtomPersonV>,
    pub generator: Option<AtomGeneratorV>,
    pub icon: Option<Seq<char>>,
    pub links: Seq<AtomLinkV>,
    pub logo: Option<Seq<char>>,
    pub rights: Option<Seq<char>>,
    pub subtitle: Option<Seq<char>>,
    pub entries: Seq<AtomEntryV>,
}

impl View for AtomDoc {
    type V = AtomDocV;

    open spec fn view(&self) -> AtomDocV {
        AtomDocV {
            title: self.title@,
            id: self.id@,
            updated: self.updated,
            authors: self.authors.deep_view(),
            categories: self.categories.deep_view(),
            contributors: self.contributors.deep_view(),
            generator: self.generator.deep_view(),
            icon: self.icon.deep_view(),
            links: self.links.deep_view(),
            logo: self.logo.deep_view(),
            rights: self.rights.deep_view(),
            subtitle: self.subtitle.deep_view(),
            entries: self.entries.deep_view(),
        }
    }
}

impl DeepView for AtomDoc {
    type V = AtomDocV;

    open spec fn deep_view(&self) -> AtomDocV {
        self.view()
    }
}

impl AtomLink {
    /// Copies the link; the copy denotes the same record.
    pub fn duplicate(&self) -> (r: AtomLink)
        ensures
            r@ == self@,
    {
        AtomLink {
            href: self.href.clone(),
            rel: self.rel.clone(),
            hreflang: crate::link::clone_opt_string(&self.hreflang),
            mime_type: crate::link::clone_opt_string(&self.mime_type),
            title: crate::link::clone_opt_string(&self.title),
            length: crate::link::clone_opt_string(&self.length),
        }
    }
}

impl AtomPerson {
    /// Copies the person; the copy denotes the same record.
    pub fn duplicate(&self) -> (r: AtomPerson)
        ensures
            r@ == self@,
    {
        AtomPerson {
            name: self.name.clone(),
            email: crate::link::clone_opt_string(&self.email),
            uri: crate::link::clone_opt_string(&self.uri),
        }
    }
}

impl AtomCategory {
    /// Copies the category; the copy denotes the same record.
    pub fn duplicate(&self) -> (r: AtomCategory)
        ensures
            r@ == self@,
    {
        AtomCategory {
            term: self.term.clone(),
            scheme: crate::link::clone_opt_string(&self.scheme),
            label: crate::link::clone_opt_string(&self.label),
        }
    }
}

impl AtomContent {
    /// Copies the content element; the copy denotes the same record.
    pub fn duplicate(&self) -> (r: AtomContent)
        ensures
            r@ == self@,
    {
        AtomContent {
            value: crate::link::clone_opt_string(&self.value),
            src: crate::link::clone_opt_string(&self.src),
            content_type: crate::link::clone_opt_string(&self.content_type),
        }
    }
}

/// Copies a link list; the copy denotes the same sequence.
pub fn dup_atom_links(v: &Vec<AtomLink>) -> (r: Vec<AtomLink>)
    ensures
        r.deep_view() == v.deep_view(),
{
    let mut r: Vec<AtomLink> = Vec::new();
    let mut i: usize = 0;
    while i < v.len()
        invariant
            i <= v.len(),
            r@.len() == i as int,
            forall|j: int| 0 <= j < i ==> #[trigger] r.deep_view()[j] == v.deep_view()[j],
        decreases v.len() - i,
    {
        let x = v[i].duplicate();
        let ghost r0 = r.deep_view();
        r.push(x);
        proof {
            assert(r.deep_view() =~= r0.push(x@));
        }
        i = i + 1;
    }
    proof {
        assert(r.deep_view() =~= v.deep_view());
    }
    r
}

/// Copies a person list; the copy denotes the same sequence.
pub fn dup_atom_persons(v: &Vec<AtomPerson>) -> (r: Vec<AtomPerson>)
    ensures
        r.deep_view() == v.deep_view(),
{
    let mut r: Vec<AtomPerson> = Vec::new();
    let mut i: usize = 0;
    while i < v.len()
        invariant
            i <= v.len(),
            r@.len() == i as int,
            forall|j: int| 0 <= j < i ==> #[trigger] r.deep_view()[j] == v.deep_view()[j],
        decreases v.len() - i,
    {
        let x = v[i].duplicate();
        let ghost r0 = r.deep_view();
        r.push(x);
        proof {
            assert(r.deep_view() =~= r0.push(x@));
        }
        i = i + 1;
    }
    proof {
        assert(r.deep_view() =~= v.deep_view());
    }
    r
}

/// Copies a category list; the copy denotes the same sequence.
pub fn dup_atom_categories(v: &Vec<AtomCategory>) -> (r: Vec<AtomCategory>)
    ensures
        r.deep_view() == v.deep_view(),
{
    let mut r: Vec<AtomCategory> = Vec::new();
    let mut i: usize = 0;
    while i < v.len()
        invariant
            i <= v.len(),
            r@.len() == i as int,
            forall|j: int| 0 <= j < i ==> #[trigger] r.deep_view()[j] == v.deep_view()[j],
        decreases v.len() - i,
    {
        let x = v[i].duplicate();
        let ghost r0 = r.deep_view();
        r.push(x);
        proof {
            assert(r.deep_view() =~= r0.push(x@));
        }
        i = i + 1;
    }
    proof {
        assert(r.deep_view() =~= v.deep_view());
    }
    r
}

impl AtomEntry {
    /// Copies the entry; the copy denotes the same record.
    pub fn duplicate(&self) -> (r: AtomEntry)
        ensures
            r@ == self@,
    {
        AtomEntry {
            title: self.title.clone(),
            id: self.id.clone(),
            updated: self.updated,
            authors: dup_atom_persons(&self.authors),
            categories: dup_atom_categories(&self.categories),
            contributors: dup_atom_persons(&self.contributors),
            links: dup_atom_links(&self.links),
            published: self.published,
            rights: crate::link::clone_opt_string(&self.rights),
            summary: crate::link::clone_opt_string(&self.summary),
            content: match &self.content {
                Some(c) => Some(c.duplicate()),
                None => None,
            },
        }
    }
}

impl AtomGenerator {
    /// Copies the generator; the copy denotes the same record.
    pub fn duplicate(&self) -> (r: AtomGenerator)
        ensures
            r@ == self@,
    {
        AtomGenerator {
            value: self.value.clone(),
            uri: crate::link::clone_opt_string(&self.uri),
            version: crate::link::clone_opt_string(&self.version),
        }
    }
}

/// Copies an entry list; the copy denotes the same sequence.
pub fn dup_atom_entries(v: &Vec<AtomEntry>) -> (r: Vec<AtomEntry>)
    ensures
        r.deep_view() == v.deep_view(),
{
    let mut r: Vec<AtomEntry> = Vec::new();
    let mut i: usize = 0;
    while i < v.len()
        invariant
            i <= v.len(),
            r@.len() == i as int,
            forall|j: int| 0 <= j < i ==> #[trigger] r.deep_view()[j] == v.deep_view()[j],
        decreases v.len() - i,
    {
        let x = v[i].duplicate();
        let ghost r0 = r.deep_view();
        r.push(x);
        proof {
            assert(r.deep_view() =~= r0.push(x@));
        }
        i = i + 1;
    }
    proof {
        assert(r.deep_view() =~= v.deep_view());
    }
    r
}

impl AtomDoc {
    /// Copies the document; the copy denotes the same record.
    pub fn duplicate(&self) -> (r: AtomDoc)
        ensures
            r@ == self@,
    {
        AtomDoc {
            title: self.title.clone(),
            id: self.id.clone(),
            updated: self.updated,
            authors: dup_atom_persons(&self.authors),
            categories: dup_atom_categories(&self.categories),
            contributors: dup_atom_persons(&self.contributors),
            generator: match &self.generator {
                Some(g) => Some(g.duplicate()),
                None => None,
            },
            icon: crate::link::clone_opt_string(&self.icon),
            links: dup_atom_links(&self.links),
            logo: crate::link::clone_opt_string(&self.logo),
            rights: crate::link::clone_opt_string(&self.rights),
            subtitle: crate::link::clone_opt_string(&self.subtitle),
            entries: dup_atom_entries(&self.entries),
        }
    }
}

/// The document that the Atom engine parses a text to, if it accepts the
/// text.  Names the result of `atom_syndication::Feed::from_str`, a pure
/// function of the text, projected onto the retained model.
pub uninterp spec fn atom_doc_of(s: Seq<char>) -> Option<AtomDocV>;

/// The XML rendering of an Atom document.  Names the result of the Atom
/// engine's writer (`atom_syndication::Feed::to_string`) on the native
/// document reconstructed from the retained model, a pure function of it.
pub uninterp spec fn atom_xml_of(d: AtomDocV) -> Seq<char>;

// What follows is the trusted boundary to the Atom format engine: the
// declarations of its types, the conversions between its documents and the
// retained model, and the two calls the library makes into it.

#[verifier::external_type_specification]
#[verifier::external_body]
pub struct ExAtomFeed(NativeAtomFeed);

#[verifier::external_type_specification]
#[verifier::external_body]
pub struct ExAtomEntry(NativeAtomEntry);

#[verifier::external_type_specification]
#[verifier::external_body]
pub struct ExAtomLink(NativeAtomLink);

#[verifier::external_type_specification]
#[verifier::external_body]
pub struct ExAtomPerson(NativeAtomPerson);

#[verifier::external_type_specification]
#[verifier::external_body]
pub struct ExAtomCategory(NativeAtomCategory);

#[verifier::external_type_specification]
#[verifier::external_body]
pub struct ExAtomGenerator(NativeAtomGenerator);

#[verifier::external_type_specification]
#[verifier::external_body]
pub struct ExAtomText(NativeAtomText);

#[verifier::external_type_specification]
#[verifier::external_body]
pub struct ExAtomContent(NativeAtomContent);

/// Relies on chrono's `timestamp`, `timestamp_subsec_nanos` and
/// `local_minus_utc` to read an entry's `updated` date.
#[verifier::external_body]
fn entry_updated_of(e: &NativeAtomEntry) -> AtomDate {
    let d = &e.updated;
    AtomDate {
        secs: d.timestamp(),
        nanos: d.timestamp_subsec_nanos(),
        off: d.offset().local_minus_utc(),
    }
}

/// Relies on chrono's `timestamp`, `timestamp_subsec_nanos` and
/// `local_minus_utc` to read an entry's `published` date.
#[verifier::external_body]
fn entry_published_of(e: &NativeAtomEntry) -> Option<AtomDate> {
    e.published.as_ref().map(|d| AtomDate {
        secs: d.timestamp(),
        nanos: d.timestamp_subsec_nanos(),
        off: d.offset().local_minus_utc(),
    })
}

/// Relies on chrono's `timestamp`, `timestamp_subsec_nanos` and
/// `local_minus_utc` to read the document's `updated` date.
#[verifier::external_body]
fn doc_updated_of(f: &NativeAtomFeed) -> AtomDate {
    let d = &f.updated;
    AtomDate {
        secs: d.timestamp(),
        nanos: d.timestamp_subsec_nanos(),
        off: d.offset().local_minus_utc(),
    }
}

/// Relies on chrono's `DateTime::from_timestamp` and `FixedOffset::east_opt`
/// to rebuild the engine's entry dates; instants or offsets chrono cannot
/// represent fall back to the epoch / UTC, keeping the rebuild total.
#[verifier::external_body]
fn set_native_entry_dates(n: &mut NativeAtomEntry, e: &AtomEntry) {
    let nd = |d: &AtomDate| {
        let utc = chrono::FixedOffset::east_opt(0).unwrap();
        chrono::DateTime::<chrono::Utc>::from_timestamp(d.secs, d.nanos)
            .unwrap_or(chrono::DateTime::<chrono::Utc>::UNIX_EPOCH)
            .with_timezone(&chrono::FixedOffset::east_opt(d.off).unwrap_or(utc))
    };
    n.updated = nd(&e.updated);
    n.published = e.published.as_ref().map(nd);
}

/// Relies on chrono's `DateTime::from_timestamp` and `FixedOffset::east_opt`
/// to rebuild the document's `updated` date; instants or offsets chrono
/// cannot represent fall back to the epoch / UTC, keeping the rebuild total.
#[verifier::external_body]
fn set_native_doc_date(n: &mut NativeAtomFeed, d: &AtomDate) {
    let utc = chrono::FixedOffset::east_opt(0).unwrap();
    n.updated = chrono::DateTime::<chrono::Utc>::from_timestamp(d.secs, d.nanos)
        .unwrap_or(chrono::DateTime::<chrono::Utc>::UNIX_EPOCH)
        .with_timezone(&chrono::FixedOffset::east_opt(d.off).unwrap_or(utc));
}

/// Relies on the public fields of `atom_syndication::Link`: moves each into
/// the model.
#[verifier::external_body]
fn link_of_native(l: NativeAtomLink) -> AtomLink {
    AtomLink {
        href: l.href,
        rel: l.rel,
        hreflang: l.hreflang,
        mime_type: l.mime_type,
        title: l.title,
        length: l.length,
    }
}

/// Relies on the public fields of `atom_syndication::Link`: rebuilds the
/// engine's link from the model.
#[verifier::external_body]
fn native_of_link(l: &AtomLink) -> NativeAtomLink {
    NativeAtomLink {
        href: l.href.clone(),
        rel: l.rel.clone(),
        hreflang: l.hreflang.clone(),
        mime_type: l.mime_type.clone(),
        title: l.title.clone(),
        length: l.length.clone(),
    }
}

/// Relies on the public fields of `atom_syndication::Person`: moves name,
/// email and uri into the model (extension data is out of scope).
#[verifier::external_body]
fn person_of_native(p: NativeAtomPerson) -> AtomPerson {
    AtomPerson { name: p.name, email: p.email, uri: p.uri }
}

/// Relies on the public fields of `atom_syndication::Person`: rebuilds the
/// engine's person from the model, with no extension data.
#[verifier::external_body]
fn native_of_person(p: &AtomPerson) -> NativeAtomPerson {
    NativeAtomPerson {
        name: p.name.clone(),
        email: p.email.clone(),
        uri: p.uri.clone(),
        extensions: Default::default(),
    }
}

/// Relies on the public fields of `atom_syndication::Category`.
#[verifier::external_body]
fn category_of_native(c: NativeAtomCategory) -> AtomCategory {
    AtomCategory { term: c.term, scheme: c.scheme, label: c.label }
}

/// Relies on the public fields of `atom_syndication::Category`.
#[verifier::external_body]
fn native_of_category(c: &AtomCategory) -> NativeAtomCategory {
    NativeAtomCategory {
        term: c.term.clone(),
        scheme: c.scheme.clone(),
        label: c.label.clone(),
    }
}

/// Relies on the public fields of `atom_syndication::Generator`.
#[verifier::external_body]
fn generator_of_native(g: NativeAtomGenerator) -> AtomGenerator {
    AtomGenerator { value: g.value, uri: g.uri, version: g.version }
}

/// Relies on the public fields of `atom_syndication::Generator`.
#[verifier::external_body]
fn native_of_generator(g: &AtomGenerator) -> NativeAtomGenerator {
    NativeAtomGenerator {
        value: g.value.clone(),
        uri: g.uri.clone(),
        version: g.version.clone(),
    }
}

/// Relies on the public fields of `atom_syndication::Content`: moves the
/// textual value, source URI and declared type into the model.
#[verifier::external_body]
fn content_of_native(c: NativeAtomContent) -> AtomContent {
    AtomContent { value: c.value, src: c.src, content_type: c.content_type }
}

/// Relies on the public fields of `atom_syndication::Content`: rebuilds the
/// engine's content element, with no base or language attribute.
#[verifier::external_body]
fn native_of_content(c: &AtomContent) -> NativeAtomContent {
    NativeAtomContent {
        base: None,
        lang: None,
        value: c.value.clone(),
        src: c.src.clone(),
        content_type: c.content_type.clone(),
    }
}

/// Relies on the public fields of `atom_syndication::Entry`: moves each
/// retained field into the model (text constructs keep their value; the
/// `source` element and extension data are out of scope).
#[verifier::external_body]
fn entry_of_native(e: NativeAtomEntry) -> AtomEntry {
    AtomEntry {
        updated: entry_updated_of(&e),
        published: entry_published_of(&e),
        title: e.title.value,
        id: e.id,
        authors: e.authors.into_iter().map(person_of_native).collect(),
        categories: e.categories.into_iter().map(category_of_native).collect(),
        contributors: e.contributors.into_iter().map(person_of_native).collect(),
        links: e.links.into_iter().map(link_of_native).collect(),
        rights: e.rights.map(|t| t.value),
        summary: e.summary.map(|t| t.value),
        content: e.content.map(content_of_native),
    }
}

/// Relies on the public fields of `atom_syndication::Entry` and on
/// `Text::plain`: rebuilds the engine's entry from the model.
#[verifier::external_body]
fn native_of_entry(e: &AtomEntry) -> NativeAtomEntry {
    let mut n = NativeAtomEntry {
        title: NativeAtomText::plain(e.title.clone()),
        id: e.id.clone(),
        authors: e.authors.iter().map(native_of_person).collect(),
        categories: e.categories.iter().map(native_of_category).collect(),
        contributors: e.contributors.iter().map(native_of_person).collect(),
        links: e.links.iter().map(native_of_link).collect(),
        rights: e.rights.clone().map(NativeAtomText::plain),
        summary: e.summary.clone().map(NativeAtomText::plain),
        content: e.content.as_ref().map(native_of_content),
        ..Default::default()
    };
    set_native_entry_dates(&mut n, e);
    n
}

/// Relies on the public fields of `atom_syndication::Feed`: moves each
/// retained field into the model.
#[verifier::external_body]
fn doc_of_native(f: NativeAtomFeed) -> AtomDoc {
    AtomDoc {
        updated: doc_updated_of(&f),
        title: f.title.value,
        id: f.id,
        authors: f.authors.into_iter().map(person_of_native).collect(),
        categories: f.categories.into_iter().map(category_of_native).collect(),
        contributors: f.contributors.into_iter().map(person_of_native).collect(),
        generator: f.generator.map(generator_of_native),
        icon: f.icon,
        links: f.links.into_iter().map(link_of_native).collect(),
        logo: f.logo,
        rights: f.rights.map(|t| t.value),
        subtitle: f.subtitle.map(|t| t.value),
        entries: f.entries.into_iter().map(entry_of_native).collect(),
    }
}

/// Relies on the public fields of `atom_syndication::Feed` and on
/// `Text::plain`: rebuilds the engine's document from the model.
#[verifier::external_body]
fn native_doc_plain(d: &AtomDoc) -> NativeAtomFeed {
    NativeAtomFeed {
        title: NativeAtomText::plain(d.title.clone()),
        id: d.id.clone(),
        icon: d.icon.clone(),
        logo: d.logo.clone(),
        rights: d.rights.clone().map(NativeAtomText::plain),
        subtitle: d.subtitle.clone().map(NativeAtomText::plain),
        ..Default::default()
    }
}

/// Relies on the public fields of `atom_syndication::Feed`: rebuilds the
/// engine's document from the model, collection by collection.
#[verifier::external_body]
fn native_of_doc(d: &AtomDoc) -> NativeAtomFeed {
    let mut n = native_doc_plain(d);
    n.authors = d.authors.iter().map(native_of_person).collect();
    n.categories = d.categories.iter().map(native_of_category).collect();
    n.contributors = d.contributors.iter().map(native_of_person).collect();
    n.generator = d.generator.as_ref().map(native_of_generator);
    n.links = d.links.iter().map(native_of_link).collect();
    n.entries = d.entries.iter().map(native_of_entry).collect();
    set_native_doc_date(&mut n, &d.updated);
    n
}

/// Relies on `atom_syndication::Feed::from_str` (the Atom format engine):
/// whether the text parses, and what it parses to, are pure functions of
/// the text, named by `atom_doc_of`.
#[verifier::external_body]
pub fn parse_atom(s: &str) -> (r: Option<AtomDoc>)
    ensures
        r matches Some(d) ==> atom_doc_of(s@) == Some(d@),
        r is None ==> atom_doc_of(s@) is None,
{
    match s.parse::<NativeAtomFeed>() {
        Ok(f) => Some(doc_of_native(f)),
        Err(_) => None,
    }
}

/// Relies on the Atom engine's XML writer (`Feed::to_string`), a pure
/// function of the document it is given, named by `atom_xml_of`.
#[verifier::external_body]
pub fn atom_to_xml(d: &AtomDoc) -> (r: String)
    ensures
        r@ == atom_xml_of(d@),
{
    native_of_doc(d).to_string()
}

} // verus!
