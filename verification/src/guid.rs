//! The unified structured identifier and its mapping to RSS's guid.
//! Atom ids are bare strings; `Guid::from_id` wraps one, defaulting the
//! permalink flag to true since Atom has no permalink concept.

use vstd::prelude::*;

use crate::rss_doc::{RssGuid, RssGuidV};

verus! {

/// The unified structured identifier of an entry.
#[derive(Debug, Clone, PartialEq, Eq)]
pub struct Guid {
    pub is_permalink: bool,
    pub id: String,
}

#[verifier::ext_equal]
pub struct GuidV {
    pub is_permalink: bool,
    pub id: Seq<char>,
}

impl View for Guid {
    type V = GuidV;

    open spec fn view(&self) -> GuidV {
        GuidV { is_permalink: self.is_permalink, id: self.id@ }
    }
}

impl DeepView for Guid {
    type V = GuidV;

    open spec fn deep_view(&self) -> GuidV {
        self.view()
    }
}

/// The unified identifier a bare Atom id maps to: the permalink flag
/// defaults to true.
pub open spec fn guid_from_id_spec(id: Seq<char>) -> GuidV {
    GuidV { is_permalink: true, id }
}

/// The unified identifier an RSS guid maps to: both fields carry over.
pub open spec fn guid_from_rss(g: RssGuidV) -> GuidV {
    GuidV { is_permalink: g.permalink, id: g.value }
}

/// The RSS guid a unified identifier maps to.
pub open spec fn guid_to_rss(g: GuidV) -> RssGuidV {
    RssGuidV { value: g.id, permalink: g.is_permalink }
}

impl Guid {
    /// Wraps a bare Atom id in the unified identifier, marked as a
    /// permalink.
    pub fn from_id(id: String) -> (r: Guid)
        ensures
            r@ == guid_from_id_spec(id@),
    {
        Guid { is_permalink: true, id }
    }

    /// Maps an RSS guid to the unified identifier.
    pub fn from_rss(g: &RssGuid) -> (r: Guid)
        ensures
            r@ == guid_from_rss(g@),
    {
        Guid { is_permalink: g.permalink, id: g.value.clone() }
    }

    /// Maps the unified identifier back to an RSS guid.
    pub fn to_rss(&self) -> (r: RssGuid)
        ensures
            r@ == guid_to_rss(self@),
    {
        RssGuid { value: self.id.clone(), permalink: self.is_permalink }
    }
}

} // verus!
