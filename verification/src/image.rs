//! The unified image record and its mapping to RSS's image element.
//! Atom carries only a bare logo URL; the feed conversion synthesizes the
//! unified image from it, copying the owning feed's title and first link.

use vstd::prelude::*;

use crate::link::clone_opt_string;
use crate::rss_doc::{RssImage, RssImageV};

verus! {

/// The unified image of a feed.  The dimensions stay the opaque strings the
/// RSS side carries; Atom has no equivalent and leaves them unset.
#[derive(Debug, Clone, PartialEq, Eq)]
pub struct Image {
    pub url: String,
    pub title: String,
    pub link: String,
    pub width: Option<String>,
    pub height: Option<String>,
}

#[verifier::ext_equal]
pub struct ImageV {
    pub url: Seq<char>,
    pub title: Seq<char>,
    pub link: Seq<char>,
    pub width: Option<Seq<char>>,
    pub height: Option<Seq<char>>,
}

impl View for Image {
    type V = ImageV;

    open spec fn view(&self) -> ImageV {
        ImageV {
            url: self.url@,
            title: self.title@,
            link: self.link@,
            width: self.width.deep_view(),
            height: self.height.deep_view(),
        }
    }
}

impl DeepView for Image {
    type V = ImageV;

    open spec fn deep_view(&self) -> ImageV {
        self.view()
    }
}

/// The unified image an RSS image maps to: url, title, link and the
/// dimensions carry over (the RSS description is dropped, as the unified
/// schema has no equivalent).
pub open spec fn image_from_rss(i: RssImageV) -> ImageV {
    ImageV { url: i.url, title: i.title, link: i.link, width: i.width, height: i.height }
}

/// The RSS image a unified image maps to: the description stays absent.
pub open spec fn image_to_rss(i: ImageV) -> RssImageV {
    RssImageV {
        url: i.url,
        title: i.title,
        link: i.link,
        width: i.width,
        height: i.height,
        description: None,
    }
}

/// The unified image synthesized from an Atom logo URL: title and link are
/// copied from the owning feed (per common feed-reader convention), the
/// dimensions stay unset.
pub open spec fn image_from_logo(url: Seq<char>, title: Seq<char>, link: Seq<char>) -> ImageV {
    ImageV { url, title, link, width: None, height: None }
}

impl Image {
    /// Maps an RSS image to the unified record.
    pub fn from_rss(i: &RssImage) -> (r: Image)
        ensures
            r@ == image_from_rss(i@),
    {
        Image {
            url: i.url.clone(),
            title: i.title.clone(),
            link: i.link.clone(),
            width: clone_opt_string(&i.width),
            height: clone_opt_string(&i.height),
        }
    }

    /// Maps the unified record back to an RSS image.
    pub fn to_rss(&self) -> (r: RssImage)
        ensures
            r@ == image_to_rss(self@),
    {
        RssImage {
            url: self.url.clone(),
            title: self.title.clone(),
            link: self.link.clone(),
            width: clone_opt_string(&self.width),
            height: clone_opt_string(&self.height),
            description: None,
        }
    }

    /// Builds the unified image from an Atom logo URL and the owning feed's
    /// title and first link.
    pub fn from_logo(url: String, title: String, link: String) -> (r: Image)
        ensures
            r@ == image_from_logo(url@, title@, link@),
    {
        Image { url, title, link, width: None, height: None }
    }
}

} // verus!
