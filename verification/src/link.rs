//! The unified link record and its mapping to the Atom link element.
//! RSS carries a bare link URL; `Link::from_href` builds the unified record
//! from it.

use vstd::prelude::*;

use crate::atom_doc::{AtomLink, AtomLinkV};

verus! {

/// A unified link.  Atom's `rel` attribute defaults to `alternate` natively;
/// the unified field keeps it optional, as only Atom carries one.
#[derive(Debug, Clone, PartialEq, Eq)]
pub struct Link {
    pub href: String,
    pub rel: Option<String>,
    pub mediatype: Option<String>,
    pub hreflang: Option<String>,
    pub title: Option<String>,
    pub length: Option<String>,
}

#[verifier::ext_equal]
pub struct LinkV {
    pub href: Seq<char>,
    pub rel: Option<Seq<char>>,
    pub mediatype: Option<Seq<char>>,
    pub hreflang: Option<Seq<char>>,
    pub title: Option<Seq<char>>,
    pub length: Option<Seq<char>>,
}

impl View for Link {
    type V = LinkV;

    open spec fn view(&self) -> LinkV {
        LinkV {
            href: self.href@,
            rel: self.rel.deep_view(),
            mediatype: self.mediatype.deep_view(),
            hreflang: self.hreflang.deep_view(),
            title: self.title.deep_view(),
            length: self.length.deep_view(),
        }
    }
}

impl DeepView for Link {
    type V = LinkV;

    open spec fn deep_view(&self) -> LinkV {
        self.view()
    }
}

/// The unified link an Atom link maps to: every field carries over;
/// `mediatype` is Atom's `mime_type`.
pub open spec fn link_from_atom(l: AtomLinkV) -> LinkV {
    LinkV {
        href: l.href,
        rel: Some(l.rel),
        mediatype: l.mime_type,
        hreflang: l.hreflang,
        title: l.title,
        length: l.length,
    }
}

/// The Atom link a unified link maps to: an absent `rel` becomes the
/// format's default relation, `alternate`.
pub open spec fn link_to_atom(l: LinkV) -> AtomLinkV {
    AtomLinkV {
        href: l.href,
        rel: match l.rel {
            Some(r) => r,
            None => "alternate"@,
        },
        mime_type: l.mediatype,
        hreflang: l.hreflang,
        title: l.title,
        length: l.length,
    }
}

/// The unified link a bare URL maps to: only `href` is set.
pub open spec fn link_from_href_spec(href: Seq<char>) -> LinkV {
    LinkV {
        href,
        rel: None,
        mediatype: None,
        hreflang: None,
        title: None,
        length: None,
    }
}

/// Copies an optional string; the copy denotes the same text.
pub fn clone_opt_string(o: &Option<String>) -> (r: Option<String>)
    ensures
        r == *o,
{
    match o {
        Some(s) => Some(s.clone()),
        None => None,
    }
}

impl Link {
    /// Wraps a bare URL, as handed over by the RSS side, in a unified link.
    pub fn from_href(href: String) -> (r: Link)
        ensures
            r@ == link_from_href_spec(href@),
    {
        Link { href, rel: None, mediatype: None, hreflang: None, title: None, length: None }
    }

    /// Maps an Atom link to the unified record.
    pub fn from_atom(l: &AtomLink) -> (r: Link)
        ensures
            r@ == link_from_atom(l@),
    {
        Link {
            href: l.href.clone(),
            rel: Some(l.rel.clone()),
            mediatype: clone_opt_string(&l.mime_type),
            hreflang: clone_opt_string(&l.hreflang),
            title: clone_opt_string(&l.title),
            length: clone_opt_string(&l.length),
        }
    }

    /// Maps the unified record back to an Atom link.
    pub fn to_atom(&self) -> (r: AtomLink)
        ensures
            r@ == link_to_atom(self@),
    {
        let rel = match &self.rel {
            Some(r) => r.clone(),
            None => "alternate".to_owned(),
        };
        AtomLink {
            href: self.href.clone(),
            rel,
            mime_type: clone_opt_string(&self.mediatype),
            hreflang: clone_opt_string(&self.hreflang),
            title: clone_opt_string(&self.title),
            length: clone_opt_string(&self.length),
        }
    }
}

/// Copies a string list; the copy denotes the same sequence.
pub fn dup_strings(v: &Vec<String>) -> (r: Vec<String>)
    ensures
        r.deep_view() == v.deep_view(),
{
    let mut r: Vec<String> = Vec::new();
    let mut i: usize = 0;
    while i < v.len()
        invariant
            i <= v.len(),
            r@.len() == i as int,
            forall|j: int| 0 <= j < i ==> #[trigger] r.deep_view()[j] == v.deep_view()[j],
        decreases v.len() - i,
    {
        let x = v[i].clone();
        let ghost r0 = r.deep_view();
        r.push(x);
        proof {
            assert(r.deep_view() =~= r0.push(x@));
        }
        i = i + 1;
    }
    proof {
        assert(r.deep_view() =~= v.deep_view());
    }
    r
}

/// Maps each Atom link of a document or entry to the unified record,
/// keeping order.
pub fn links_from_atom(v: &Vec<AtomLink>) -> (r: Vec<Link>)
    ensures
        r.deep_view() == v.deep_view().map_values(|l: AtomLinkV| link_from_atom(l)),
{
    let mut r: Vec<Link> = Vec::new();
    let mut i: usize = 0;
    while i < v.len()
        invariant
            i <= v.len(),
            r@.len() == i as int,
            forall|j: int|
                0 <= j < i ==> #[trigger] r.deep_view()[j] == link_from_atom(v.deep_view()[j]),
        decreases v.len() - i,
    {
        let x = Link::from_atom(&v[i]);
        let ghost r0 = r.deep_view();
        r.push(x);
        proof {
            assert(r.deep_view() =~= r0.push(x@));
        }
        i = i + 1;
    }
    proof {
        assert(r.deep_view() =~= v.deep_view().map_values(|l: AtomLinkV| link_from_atom(l)));
    }
    r
}

/// Maps each unified link back to an Atom link, keeping order.
pub fn links_to_atom(v: &Vec<Link>) -> (r: Vec<AtomLink>)
    ensures
        r.deep_view() == v.deep_view().map_values(|l: LinkV| link_to_atom(l)),
{
    let mut r: Vec<AtomLink> = Vec::new();
    let mut i: usize = 0;
    while i < v.len()
        invariant
            i <= v.len(),
            r@.len() == i as int,
            forall|j: int|
                0 <= j < i ==> #[trigger] r.deep_view()[j] == link_to_atom(v.deep_view()[j]),
        decreases v.len() - i,
    {
        let x = v[i].to_atom();
        let ghost r0 = r.deep_view();
        r.push(x);
        proof {
            assert(r.deep_view() =~= r0.push(x@));
        }
        i = i + 1;
    }
    proof {
        assert(r.deep_view() =~= v.deep_view().map_values(|l: LinkV| link_to_atom(l)));
    }
    r
}

} // verus!
