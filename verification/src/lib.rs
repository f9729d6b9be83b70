//! Unified handling of the two classic web-syndication formats.
//!
//! Raw text is parsed by whichever of the two format engines accepts it,
//! the resulting native document is kept as provenance, and the caller works
//! with one unified `feed::Feed` / `entry::Entry` schema.  Re-serializing to
//! the originating format reuses the retained native document (the fast path,
//! no field loss); any other serialization reconstructs a native document
//! from the unified fields with documented defaults and truncation rules.

pub mod atom_doc;
pub mod category;
pub mod entry;
pub mod feed;
pub mod generator;
pub mod guid;
pub mod image;
pub mod link;
pub mod person;
pub mod rss_doc;
pub mod text_input;
pub mod timestamp;

use vstd::prelude::*;

use crate::atom_doc::{atom_to_xml, atom_xml_of, parse_atom, AtomDoc};
use crate::feed::{dispatch_spec, FeedDataV};
use crate::rss_doc::{parse_rss, rss_to_xml, rss_xml_of, RssChannel};

verus! {

/// A parsed syndication document, tagged by the native format it came in.
/// This is the dispatcher's raw result; `feed::Feed` is the unified view of
/// the same document.
#[derive(Debug, Clone, PartialEq, Eq)]
pub enum Feed {
    Atom(AtomDoc),
    RSS(RssChannel),
}

impl Feed {
    /// Parses a text as either format: the Atom engine is tried first, then
    /// the RSS engine; if both refuse, the single aggregate error is
    /// returned.
    pub fn from_str(s: &str) -> (r: Result<Feed, &'static str>)
        ensures
            match dispatch_spec(s@) {
                Some(FeedDataV::Atom(d)) => r matches Ok(Feed::Atom(doc)) && doc@ == d,
                Some(FeedDataV::Rss(c)) => r matches Ok(Feed::RSS(ch)) && ch@ == c,
                None => r matches Err(m) && m@ == "Could not parse XML as Atom or RSS from input"@,
            },
    {
        match parse_atom(s) {
            Some(d) => Ok(Feed::Atom(d)),
            None => match parse_rss(s) {
                Some(c) => Ok(Feed::RSS(c)),
                None => Err("Could not parse XML as Atom or RSS from input"),
            },
        }
    }

    /// Renders the document with its own format's engine.  Serialization is
    /// total for any value an engine produced, and a pure function of the
    /// document.
    pub fn to_string(&self) -> (r: String)
        ensures
            match self {
                Feed::Atom(d) => r@ == atom_xml_of(d@),
                Feed::RSS(c) => r@ == rss_xml_of(c@),
            },
    {
        match self {
            Feed::Atom(d) => atom_to_xml(d),
            Feed::RSS(c) => rss_to_xml(c),
        }
    }
}

} // verus!
