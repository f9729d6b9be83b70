//! The unified text-input record, mirroring RSS's text-input element.
//! Atom has no equivalent: the field stays absent on the Atom side.

use vstd::prelude::*;

use crate::rss_doc::{RssTextInput, RssTextInputV};

verus! {

/// The unified text-input of a feed.
#[derive(Debug, Clone, PartialEq, Eq)]
pub struct TextInput {
    pub title: String,
    pub description: String,
    pub name: String,
    pub link: String,
}

#[verifier::ext_equal]
pub struct TextInputV {
    pub title: Seq<char>,
    pub description: Seq<char>,
    pub name: Seq<char>,
    pub link: Seq<char>,
}

impl View for TextInput {
    type V = TextInputV;

    open spec fn view(&self) -> TextInputV {
        TextInputV {
            title: self.title@,
            description: self.description@,
            name: self.name@,
            link: self.link@,
        }
    }
}

impl DeepView for TextInput {
    type V = TextInputV;

    open spec fn deep_view(&self) -> TextInputV {
        self.view()
    }
}

/// The unified text-input an RSS text-input maps to: all fields carry over.
pub open spec fn text_input_from_rss(t: RssTextInputV) -> TextInputV {
    TextInputV { title: t.title, description: t.description, name: t.name, link: t.link }
}

/// The RSS text-input a unified text-input maps to.
pub open spec fn text_input_to_rss(t: TextInputV) -> RssTextInputV {
    RssTextInputV { title: t.title, description: t.description, name: t.name, link: t.link }
}

impl TextInput {
    /// Maps an RSS text-input to the unified record.
    pub fn from_rss(t: &RssTextInput) -> (r: TextInput)
        ensures
            r@ == text_input_from_rss(t@),
    {
        TextInput {
            title: t.title.clone(),
            description: t.description.clone(),
            name: t.name.clone(),
            link: t.link.clone(),
        }
    }

    /// Maps the unified record back to an RSS text-input.
    pub fn to_rss(&self) -> (r: RssTextInput)
        ensures
            r@ == text_input_to_rss(self@),
    {
        RssTextInput {
            title: self.title.clone(),
            description: self.description.clone(),
            name: self.name.clone(),
            link: self.link.clone(),
        }
    }
}

} // verus!
