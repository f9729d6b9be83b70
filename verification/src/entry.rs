//! The unified entry: one item of a feed, with its retained native
//! provenance and the conversions to and from each native item shape.

use vstd::prelude::*;

use crate::atom_doc::{AtomContentV, AtomDate, AtomEntry, AtomEntryV, AtomLinkV, AtomPersonV, AtomCategoryV};
use crate::category::{categories_from_atom, categories_from_rss, categories_to_atom, categories_to_rss, category_from_atom, category_from_rss, category_to_atom, category_to_rss, Category, CategoryV};
use crate::guid::{guid_from_id_spec, guid_from_rss, guid_to_rss, Guid, GuidV};
use crate::link::{clone_opt_string, link_from_atom, link_from_href_spec, link_to_atom, links_from_atom, links_to_atom, Link, LinkV};
use crate::person::{person_from_atom, person_from_name_spec, person_to_atom, persons_from_atom, persons_to_atom, Person, PersonV};
use crate::rss_doc::{RssCategoryV, RssItem, RssItemV};
use crate::timestamp::{format_rfc2822, now_utc, parse_rfc2822, rfc2822_date_of, rfc2822_string_of, Timestamp};

verus! {

/// The native item an entry was parsed from, tagged by its format.
#[derive(Debug, Clone, PartialEq, Eq)]
pub enum EntryData {
    Atom(AtomEntry),
    Rss(RssItem),
}

pub enum EntryDataV {
    Atom(AtomEntryV),
    Rss(RssItemV),
}

impl View for EntryData {
    type V = EntryDataV;

    open spec fn view(&self) -> EntryDataV {
        match self {
            EntryData::Atom(e) => EntryDataV::Atom(e@),
            EntryData::Rss(i) => EntryDataV::Rss(i@),
        }
    }
}

impl DeepView for EntryData {
    type V = EntryDataV;

    open spec fn deep_view(&self) -> EntryDataV {
        self.view()
    }
}

/// A unified feed item.
///
/// `source_data` is the retained provenance: the exact native item this
/// entry was parsed from, if it was parsed at all.  It exists only to make
/// same-format re-serialization lossless and is not part of the unified
/// schema.  `updated` is always a valid timestamp, even when the native
/// item carried no date.
#[derive(Debug, Clone, PartialEq, Eq)]
pub struct Entry {
    pub source_data: Option<EntryData>,
    pub id: Option<Guid>,
    pub title: Option<String>,
    pub updated: Timestamp,
    pub published: Option<Timestamp>,
    pub summary: Option<String>,
    pub content: Option<String>,
    pub links: Vec<Link>,
    pub categories: Vec<Category>,
    pub authors: Vec<Person>,
    pub contributors: Vec<Person>,
    pub comments: Option<String>,
}

#[verifier::ext_equal]
pub struct EntryV {
    pub source: Option<EntryDataV>,
    pub id: Option<GuidV>,
    pub title: Option<Seq<char>>,
    pub updated: Timestamp,
    pub published: Option<Timestamp>,
    pub summary: Option<Seq<char>>,
    pub content: Option<Seq<char>>,
    pub links: Seq<LinkV>,
    pub categories: Seq<CategoryV>,
    pub authors: Seq<PersonV>,
    pub contributors: Seq<PersonV>,
    pub comments: Option<Seq<char>>,
}

impl View for Entry {
    type V = EntryV;

    open spec fn view(&self) -> EntryV {
        EntryV {
            source: self.source_data.deep_view(),
            id: self.id.deep_view(),
            title: self.title.deep_view(),
            updated: self.updated,
            published: self.published,
            summary: self.summary.deep_view(),
            content: self.content.deep_view(),
            links: self.links.deep_view(),
            categories: self.categories.deep_view(),
            authors: self.authors.deep_view(),
            contributors: self.contributors.deep_view(),
            comments: self.comments.deep_view(),
        }
    }
}

impl DeepView for Entry {
    type V = EntryV;

    open spec fn deep_view(&self) -> EntryV {
        self.view()
    }
}

/// The date an optional RFC 2822 string denotes, if present and parseable.
pub open spec fn rfc2822_opt(s: Option<Seq<char>>) -> Option<Timestamp> {
    match s {
        Some(x) => rfc2822_date_of(x),
        None => None,
    }
}

/// The unified entry an Atom entry maps to.  The id is wrapped as a
/// permalink; the typed content collapses to its text value; Atom has no
/// comments field.
pub open spec fn entry_from_atom_v(e: AtomEntryV) -> EntryV {
    EntryV {
        source: Some(EntryDataV::Atom(e)),
        id: Some(guid_from_id_spec(e.id)),
        title: Some(e.title),
        updated: e.updated.spec_instant(),
        published: match e.published {
            Some(d) => Some(d.spec_instant()),
            None => None,
        },
        summary: e.summary,
        content: match e.content {
            Some(c) => c.value,
            None => None,
        },
        links: e.links.map_values(|l: AtomLinkV| link_from_atom(l)),
        categories: e.categories.map_values(|c: AtomCategoryV| category_from_atom(c)),
        authors: e.authors.map_values(|p: AtomPersonV| person_from_atom(p)),
        contributors: e.contributors.map_values(|p: AtomPersonV| person_from_atom(p)),
        comments: None,
    }
}

/// The unified entry an RSS item maps to, given the instant `now` that
/// stands in for the wall clock.  The one date field serves as both
/// `published` and `updated`; when it is absent or unparseable, `updated`
/// falls back to `now` so that it is never absent.  The description maps to
/// `content`, not `summary`.
pub open spec fn entry_from_rss_v(i: RssItemV, now: Timestamp) -> EntryV {
    EntryV {
        source: Some(EntryDataV::Rss(i)),
        id: match i.guid {
            Some(g) => Some(guid_from_rss(g)),
            None => None,
        },
        title: i.title,
        updated: match rfc2822_opt(i.pub_date) {
            Some(t) => t,
            None => now,
        },
        published: rfc2822_opt(i.pub_date),
        summary: None,
        content: i.description,
        links: match i.link {
            Some(h) => seq![link_from_href_spec(h)],
            None => Seq::empty(),
        },
        categories: i.categories.map_values(|c: RssCategoryV| category_from_rss(c)),
        authors: match i.author {
            Some(n) => seq![person_from_name_spec(n)],
            None => Seq::empty(),
        },
        contributors: Seq::empty(),
        comments: i.comments,
    }
}

/// The Atom entry a unified entry reconstructs to, when no Atom provenance
/// is available: absent id and title become empty strings, `updated` keeps
/// its (always present) value, and content is emitted as plain text.
pub open spec fn entry_new_atom_v(e: EntryV) -> AtomEntryV {
    AtomEntryV {
        title: match e.title {
            Some(t) => t,
            None => Seq::empty(),
        },
        id: match e.id {
            Some(g) => g.id,
            None => Seq::empty(),
        },
        updated: AtomDate::spec_from_instant(e.updated),
        authors: e.authors.map_values(|p: PersonV| person_to_atom(p)),
        categories: e.categories.map_values(|c: CategoryV| category_to_atom(c)),
        contributors: e.contributors.map_values(|p: PersonV| person_to_atom(p)),
        links: e.links.map_values(|l: LinkV| link_to_atom(l)),
        published: match e.published {
            Some(t) => Some(AtomDate::spec_from_instant(t)),
            None => None,
        },
        rights: None,
        summary: e.summary,
        content: match e.content {
            Some(s) => Some(AtomContentV { value: Some(s), src: None, content_type: None }),
            None => None,
        },
    }
}

/// The Atom entry a unified entry serializes to: the retained Atom item
/// unchanged when the entry came from Atom (the fast path, no field loss),
/// otherwise the reconstruction above.
pub open spec fn entry_to_atom_v(e: EntryV) -> AtomEntryV {
    match e.source {
        Some(EntryDataV::Atom(a)) => a,
        _ => entry_new_atom_v(e),
    }
}

/// The RSS item a unified entry reconstructs to, when no RSS provenance is
/// available: only the first link and the first author survive (RSS allows
/// at most one of each; the rest are dropped, not an error), `pub_date` is
/// the published instant rendered in RFC 2822, and content maps back to the
/// description.
pub open spec fn entry_new_rss_v(e: EntryV) -> RssItemV {
    RssItemV {
        title: e.title,
        link: if e.links.len() > 0 {
            Some(e.links[0].href)
        } else {
            None
        },
        description: e.content,
        author: if e.authors.len() > 0 {
            Some(e.authors[0].name)
        } else {
            None
        },
        categories: e.categories.map_values(|c: CategoryV| category_to_rss(c)),
        comments: e.comments,
        guid: match e.id {
            Some(g) => Some(guid_to_rss(g)),
            None => None,
        },
        pub_date: match e.published {
            Some(t) => Some(rfc2822_string_of(t)),
            None => None,
        },
    }
}

/// The RSS item a unified entry serializes to: the retained RSS item
/// unchanged when the entry came from RSS (the fast path, no field loss),
/// otherwise the reconstruction above.
pub open spec fn entry_to_rss_v(e: EntryV) -> RssItemV {
    match e.source {
        Some(EntryDataV::Rss(i)) => i,
        _ => entry_new_rss_v(e),
    }
}

impl Entry {
    /// Maps an Atom entry to the unified record, retaining the entry as
    /// provenance.
    pub fn from_atom(e: AtomEntry) -> (r: Entry)
        ensures
            r@ == entry_from_atom_v(e@),
    {
        let ghost ev = e@;
        let id = Guid::from_id(e.id.clone());
        let title = e.title.clone();
        let updated = e.updated.instant();
        let published = match &e.published {
            Some(d) => Some(d.instant()),
            None => None,
        };
        let summary = clone_opt_string(&e.summary);
        let content = match &e.content {
            Some(c) => clone_opt_string(&c.value),
            None => None,
        };
        let links = links_from_atom(&e.links);
        let categories = categories_from_atom(&e.categories);
        let authors = persons_from_atom(&e.authors);
        let contributors = persons_from_atom(&e.contributors);
        let r = Entry {
            source_data: Some(EntryData::Atom(e)),
            id: Some(id),
            title: Some(title),
            updated,
            published,
            summary,
            content,
            links,
            categories,
            authors,
            contributors,
            comments: None,
        };
        proof {
            assert(r@ =~= entry_from_atom_v(ev));
        }
        r
    }

    /// Maps an RSS item to the unified record, retaining the item as
    /// provenance.  `now` stands in for the wall clock: it becomes
    /// `updated` when the item's date is absent or unparseable.
    pub fn from_rss_at(i: RssItem, now: Timestamp) -> (r: Entry)
        ensures
            r@ == entry_from_rss_v(i@, now),
    {
        let ghost iv = i@;
        let parsed = match &i.pub_date {
            Some(s) => parse_rfc2822(s.as_str()),
            None => None,
        };
        let updated = match parsed {
            Some(t) => t,
            None => now,
        };
        let id = match &i.guid {
            Some(g) => Some(Guid::from_rss(g)),
            None => None,
        };
        let title = clone_opt_string(&i.title);
        let content = clone_opt_string(&i.description);
        let comments = clone_opt_string(&i.comments);
        let mut links: Vec<Link> = Vec::new();
        if let Some(h) = &i.link {
            links.push(Link::from_href(h.clone()));
        }
        let mut authors: Vec<Person> = Vec::new();
        if let Some(n) = &i.author {
            authors.push(Person::from_name(n.clone()));
        }
        let categories = categories_from_rss(&i.categories);
        let r = Entry {
            source_data: Some(EntryData::Rss(i)),
            id,
            title,
            updated,
            published: parsed,
            summary: None,
            content,
            links,
            categories,
            authors,
            contributors: Vec::new(),
            comments,
        };
        proof {
            assert(r@.links =~= entry_from_rss_v(iv, now).links);
            assert(r@.authors =~= entry_from_rss_v(iv, now).authors);
            assert(r@.contributors =~= entry_from_rss_v(iv, now).contributors);
            assert(r@ =~= entry_from_rss_v(iv, now));
        }
        r
    }

    /// Maps an RSS item to the unified record, reading the wall clock for
    /// the `updated` fallback.  Whatever the clock returned, the result is
    /// the mapping above for some instant; when the item's date parses, the
    /// clock does not matter at all.
    pub fn from_rss(i: RssItem) -> (r: Entry)
        ensures
            exists|n: Timestamp| r@ == entry_from_rss_v(i@, n),
            rfc2822_opt(i@.pub_date) matches Some(t) ==> r@ == entry_from_rss_v(i@, t),
    {
        let ghost iv = i@;
        let now = now_utc();
        let r = Entry::from_rss_at(i, now);
        proof {
            assert(r@ == entry_from_rss_v(iv, now));
            match rfc2822_opt(iv.pub_date) {
                Some(t) => {
                    assert(entry_from_rss_v(iv, now) =~= entry_from_rss_v(iv, t));
                },
                None => {},
            }
        }
        r
    }

    /// Serializes the entry to an Atom entry: the retained Atom item when
    /// the entry came from Atom, otherwise the reconstruction with its
    /// documented defaults.
    pub fn to_atom(&self) -> (r: AtomEntry)
        ensures
            r@ == entry_to_atom_v(self@),
    {
        if let Some(EntryData::Atom(a)) = &self.source_data {
            return a.duplicate();
        }
        let title = match &self.title {
            Some(t) => t.clone(),
            None => String::new(),
        };
        let id = match &self.id {
            Some(g) => g.id.clone(),
            None => String::new(),
        };
        let content = match &self.content {
            Some(s) => Some(
                crate::atom_doc::AtomContent { value: Some(s.clone()), src: None, content_type: None },
            ),
            None => None,
        };
        let r = AtomEntry {
            title,
            id,
            updated: AtomDate::from_instant(self.updated),
            authors: persons_to_atom(&self.authors),
            categories: categories_to_atom(&self.categories),
            contributors: persons_to_atom(&self.contributors),
            links: links_to_atom(&self.links),
            published: match self.published {
                Some(t) => Some(AtomDate::from_instant(t)),
                None => None,
            },
            rights: None,
            summary: clone_opt_string(&self.summary),
            content,
        };
        proof {
            assert(r@ =~= entry_new_atom_v(self@));
        }
        r
    }

    /// Serializes the entry to an RSS item: the retained RSS item when the
    /// entry came from RSS, otherwise the reconstruction with its
    /// documented truncations.
    pub fn to_rss(&self) -> (r: RssItem)
        ensures
            r@ == entry_to_rss_v(self@),
    {
        if let Some(EntryData::Rss(i)) = &self.source_data {
            return i.duplicate();
        }
        let link = if self.links.len() > 0 {
            Some(self.links[0].href.clone())
        } else {
            None
        };
        let author = if self.authors.len() > 0 {
            Some(self.authors[0].name.clone())
        } else {
            None
        };
        let pub_date = match self.published {
            Some(t) => Some(format_rfc2822(t)),
            None => None,
        };
        let r = RssItem {
            title: clone_opt_string(&self.title),
            link,
            description: clone_opt_string(&self.content),
            author,
            categories: categories_to_rss(&self.categories),
            comments: clone_opt_string(&self.comments),
            guid: match &self.id {
                Some(g) => Some(g.to_rss()),
                None => None,
            },
            pub_date,
        };
        proof {
            assert(r@ =~= entry_new_rss_v(self@));
        }
        r
    }
}

/// Maps each Atom entry of a document to the unified record, keeping order.
pub fn entries_from_atom(v: &Vec<AtomEntry>) -> (r: Vec<Entry>)
    ensures
        r.deep_view() == v.deep_view().map_values(|e: AtomEntryV| entry_from_atom_v(e)),
{
    let mut r: Vec<Entry> = Vec::new();
    let mut i: usize = 0;
    while i < v.len()
        invariant
            i <= v.len(),
            r@.len() == i as int,
            forall|j: int|
                0 <= j < i ==> #[trigger] r.deep_view()[j] == entry_from_atom_v(v.deep_view()[j]),
        decreases v.len() - i,
    {
        let d = v[i].duplicate();
        let x = Entry::from_atom(d);
        let ghost r0 = r.deep_view();
        r.push(x);
        proof {
            assert(r.deep_view() =~= r0.push(x@));
        }
        i = i + 1;
    }
    proof {
        assert(r.deep_view() =~= v.deep_view().map_values(|e: AtomEntryV| entry_from_atom_v(e)));
    }
    r
}

/// Maps each RSS item of a channel to the unified record, keeping order;
/// `now` is the one instant that stands in for the wall clock.
pub fn items_from_rss_at(v: &Vec<RssItem>, now: Timestamp) -> (r: Vec<Entry>)
    ensures
        r.deep_view() == v.deep_view().map_values(|i: RssItemV| entry_from_rss_v(i, now)),
{
    let mut r: Vec<Entry> = Vec::new();
    let mut i: usize = 0;
    while i < v.len()
        invariant
            i <= v.len(),
            r@.len() == i as int,
            forall|j: int|
                0 <= j < i ==> #[trigger] r.deep_view()[j] == entry_from_rss_v(
                    v.deep_view()[j],
                    now,
                ),
        decreases v.len() - i,
    {
        let d = v[i].duplicate();
        let x = Entry::from_rss_at(d, now);
        let ghost r0 = r.deep_view();
        r.push(x);
        proof {
            assert(r.deep_view() =~= r0.push(x@));
        }
        i = i + 1;
    }
    proof {
        assert(r.deep_view() =~= v.deep_view().map_values(
            |i: RssItemV| entry_from_rss_v(i, now),
        ));
    }
    r
}

/// Serializes each unified entry to an Atom entry, keeping order.
pub fn entries_to_atom(v: &Vec<Entry>) -> (r: Vec<AtomEntry>)
    ensures
        r.deep_view() == v.deep_view().map_values(|e: EntryV| entry_to_atom_v(e)),
{
    let mut r: Vec<AtomEntry> = Vec::new();
    let mut i: usize = 0;
    while i < v.len()
        invariant
            i <= v.len(),
            r@.len() == i as int,
            forall|j: int|
                0 <= j < i ==> #[trigger] r.deep_view()[j] == entry_to_atom_v(v.deep_view()[j]),
        decreases v.len() - i,
    {
        let x = v[i].to_atom();
        let ghost r0 = r.deep_view();
        r.push(x);
        proof {
            assert(r.deep_view() =~= r0.push(x@));
        }
        i = i + 1;
    }
    proof {
        assert(r.deep_view() =~= v.deep_view().map_values(|e: EntryV| entry_to_atom_v(e)));
    }
    r
}

/// Serializes each unified entry to an RSS item, keeping order.
pub fn entries_to_rss(v: &Vec<Entry>) -> (r: Vec<RssItem>)
    ensures
        r.deep_view() == v.deep_view().map_values(|e: EntryV| entry_to_rss_v(e)),
{
    let mut r: Vec<RssItem> = Vec::new();
    let mut i: usize = 0;
    while i < v.len()
        invariant
            i <= v.len(),
            r@.len() == i as int,
            forall|j: int|
                0 <= j < i ==> #[trigger] r.deep_view()[j] == entry_to_rss_v(v.deep_view()[j]),
        decreases v.len() - i,
    {
        let x = v[i].to_rss();
        let ghost r0 = r.deep_view();
        r.push(x);
        proof {
            assert(r.deep_view() =~= r0.push(x@));
        }
        i = i + 1;
    }
    proof {
        assert(r.deep_view() =~= v.deep_view().map_values(|e: EntryV| entry_to_rss_v(e)));
    }
    r
}

/// Defaulting totality: whatever native item an entry is built from, its
/// `updated` is a definite timestamp.  From Atom it is the entry's own
/// date; from RSS it is the parsed date when the item carries a parseable
/// one, and the wall-clock stand-in otherwise — never absent.
pub proof fn lemma_updated_defaulting(e: AtomEntryV, i: RssItemV, now: Timestamp)
    ensures
        entry_from_atom_v(e).updated == e.updated.spec_instant(),
        rfc2822_opt(i.pub_date) matches Some(t) ==> entry_from_rss_v(i, now).updated == t,
        rfc2822_opt(i.pub_date) is None ==> entry_from_rss_v(i, now).updated == now,
{
}

/// Collection truncation: reconstructing an RSS item from an entry with at
/// least one link keeps exactly the first link's URL and drops the rest;
/// with at least one author it keeps exactly the first author's name.
pub proof fn lemma_rss_truncation(e: EntryV)
    requires
        !(e.source matches Some(EntryDataV::Rss(_))),
    ensures
        e.links.len() > 0 ==> entry_to_rss_v(e).link == Some(e.links[0].href),
        e.links.len() == 0 ==> entry_to_rss_v(e).link is None,
        e.authors.len() > 0 ==> entry_to_rss_v(e).author == Some(e.authors[0].name),
        e.authors.len() == 0 ==> entry_to_rss_v(e).author is None,
{
}

} // verus!
