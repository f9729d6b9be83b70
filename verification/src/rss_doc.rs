//! The retained model of a parsed RSS channel, and the trusted boundary to
//! the RSS format engine (the `rss` crate).
//!
//! The model mirrors the engine's channel structure field for field as far
//! as the unified schema is concerned.  Extension machinery (extension maps,
//! iTunes / Dublin Core modules, foreign namespaces) and the rarely used
//! `cloud`, `enclosure` and item `source` elements are out of scope and are
//! not retained.  Date fields stay the verbatim strings the engine hands
//! over; the unified layer parses them.

use vstd::prelude::*;

use rss::Category as NativeRssCategory;
use rss::Channel as NativeRssChannel;
use rss::Guid as NativeRssGuid;
use rss::Image as NativeRssImage;
use rss::Item as NativeRssItem;
use rss::TextInput as NativeRssTextInput;

verus! {

/// A category of an RSS channel or item.
#[derive(Debug, Clone, PartialEq, Eq)]
pub struct RssCategory {
    pub name: String,
    pub domain: Option<String>,
}

#[verifier::ext_equal]
pub struct RssCategoryV {
    pub name: Seq<char>,
    pub domain: Option<Seq<char>>,
}

impl View for RssCategory {
    type V = RssCategoryV;

    open spec fn view(&self) -> RssCategoryV {
        RssCategoryV { name: self.name@, domain: self.domain.deep_view() }
    }
}

impl DeepView for RssCategory {
    type V = RssCategoryV;

    open spec fn deep_view(&self) -> RssCategoryV {
        self.view()
    }
}

/// An item's guid, with its permalink flag.
#[derive(Debug, Clone, PartialEq, Eq)]
pub struct RssGuid {
    pub value: String,
    pub permalink: bool,
}

#[verifier::ext_equal]
pub struct RssGuidV {
    pub value: Seq<char>,
    pub permalink: bool,
}

impl View for RssGuid {
    type V = RssGuidV;

    open spec fn view(&self) -> RssGuidV {
        RssGuidV { value: self.value@, permalink: self.permalink }
    }
}

impl DeepView for RssGuid {
    type V = RssGuidV;

    open spec fn deep_view(&self) -> RssGuidV {
        self.view()
    }
}

/// The image element of an RSS channel.
#[derive(Debug, Clone, PartialEq, Eq)]
pub struct RssImage {
    pub url: String,
    pub title: String,
    pub link: String,
    pub width: Option<String>,
    pub height: Option<String>,
    pub description: Option<String>,
}

#[verifier::ext_equal]
pub struct RssImageV {
    pub url: Seq<char>,
    pub title: Seq<char>,
    pub link: Seq<char>,
    pub width: Option<Seq<char>>,
    pub height: Option<Seq<char>>,
    pub description: Option<Seq<char>>,
}

impl View for RssImage {
    type V = RssImageV;

    open spec fn view(&self) -> RssImageV {
        RssImageV {
            url: self.url@,
            title: self.title@,
            link: self.link@,
            width: self.width.deep_view(),
            height: self.height.deep_view(),
            description: self.description.deep_view(),
        }
    }
}

impl DeepView for RssImage {
    type V = RssImageV;

    open spec fn deep_view(&self) -> RssImageV {
        self.view()
    }
}

/// The text-input element of an RSS channel.
#[derive(Debug, Clone, PartialEq, Eq)]
pub struct RssTextInput {
    pub title: String,
    pub description: String,
    pub name: String,
    pub link: String,
}

#[verifier::ext_equal]
pub struct RssTextInputV {
    pub title: Seq<char>,
    pub description: Seq<char>,
    pub name: Seq<char>,
    pub link: Seq<char>,
}

impl View for RssTextInput {
    type V = RssTextInputV;

    open spec fn view(&self) -> RssTextInputV {
        RssTextInputV {
            title: self.title@,
            description: self.description@,
            name: self.name@,
            link: self.link@,
        }
    }
}

impl DeepView for RssTextInput {
    type V = RssTextInputV;

    open spec fn deep_view(&self) -> RssTextInputV {
        self.view()
    }
}

/// An item of an RSS channel.
#[derive(Debug, Clone, PartialEq, Eq)]
pub struct RssItem {
    pub title: Option<String>,
    pub link: Option<String>,
    pub description: Option<String>,
    pub author: Option<String>,
    pub categories: Vec<RssCategory>,
    pub comments: Option<String>,
    pub guid: Option<RssGuid>,
    pub pub_date: Option<String>,
}

#[verifier::ext_equal]
pub struct RssItemV {
    pub title: Option<Seq<char>>,
    pub link: Option<Seq<char>>,
    pub description: Option<Seq<char>>,
    pub author: Option<Seq<char>>,
    pub categories: Seq<RssCategoryV>,
    pub comments: Option<Seq<char>>,
    pub guid: Option<RssGuidV>,
    pub pub_date: Option<Seq<char>>,
}

impl View for RssItem {
    type V = RssItemV;

    open spec fn view(&self) -> RssItemV {
        RssItemV {
            title: self.title.deep_view(),
            link: self.link.deep_view(),
            description: self.description.deep_view(),
            author: self.author.deep_view(),
            categories: self.categories.deep_view(),
            comments: self.comments.deep_view(),
            guid: self.guid.deep_view(),
            pub_date: self.pub_date.deep_view(),
        }
    }
}

impl DeepView for RssItem {
    type V = RssItemV;

    open spec fn deep_view(&self) -> RssItemV {
        self.view()
    }
}

/// A whole RSS channel as retained from the engine.
#[derive(Debug, Clone, PartialEq, Eq)]
pub struct RssChannel {
    pub title: String,
    pub link: String,
    pub description: String,
    pub language: Option<String>,
    pub copyright: Option<String>,
    pub managing_editor: Option<String>,
    pub webmaster: Option<String>,
    pub pub_date: Option<String>,
    pub last_build_date: Option<String>,
    pub categories: Vec<RssCategory>,
    pub generator: Option<String>,
    pub docs: Option<String>,
    pub rating: Option<String>,
    pub ttl: Option<String>,
    pub image: Option<RssImage>,
    pub text_input: Option<RssTextInput>,
    pub skip_hours: Vec<String>,
    pub skip_days: Vec<String>,
    pub items: Vec<RssItem>,
}

#[verifier::ext_equal]
pub struct RssChannelV {
    pub title: Seq<char>,
    pub link: Seq<char>,
    pub description: Seq<char>,
    pub language: Option<Seq<char>>,
    pub copyright: Option<Seq<char>>,
    pub managing_editor: Option<Seq<char>>,
    pub webmaster: Option<Seq<char>>,
    pub pub_date: Option<Seq<char>>,
    pub last_build_date: Option<Seq<char>>,
    pub categories: Seq<RssCategoryV>,
    pub generator: Option<Seq<char>>,
    pub docs: Option<Seq<char>>,
    pub rating: Option<Seq<char>>,
    pub ttl: Option<Seq<char>>,
    pub image: Option<RssImageV>,
    pub text_input: Option<RssTextInputV>,
    pub skip_hours: Seq<Seq<char>>,
    pub skip_days: Seq<Seq<char>>,
    pub items: Seq<RssItemV>,
}

impl View for RssChannel {
    type V = RssChannelV;

    open spec fn view(&self) -> RssChannelV {
        RssChannelV {
            title: self.title@,
            link: self.link@,
            description: self.description@,
            language: self.language.deep_view(),
            copyright: self.copyright.deep_view(),
            managing_editor: self.managing_editor.deep_view(),
            webmaster: self.webmaster.deep_view(),
            pub_date: self.pub_date.deep_view(),
            last_build_date: self.last_build_date.deep_view(),
            categories: self.categories.deep_view(),
            generator: self.generator.deep_view(),
            docs: self.docs.deep_view(),
            rating: self.rating.deep_view(),
            ttl: self.ttl.deep_view(),
            image: self.image.deep_view(),
            text_input: self.text_input.deep_view(),
            skip_hours: self.skip_hours.deep_view(),
            skip_days: self.skip_days.deep_view(),
            items: self.items.deep_view(),
        }
    }
}

impl DeepView for RssChannel {
    type V = RssChannelV;

    open spec fn deep_view(&self) -> RssChannelV {
        self.view()
    }
}

impl RssCategory {
    /// Copies the category; the copy denotes the same record.
    pub fn duplicate(&self) -> (r: RssCategory)
        ensures
            r@ == self@,
    {
        RssCategory {
            name: self.name.clone(),
            domain: crate::link::clone_opt_string(&self.domain),
        }
    }
}

impl RssGuid {
    /// Copies the guid; the copy denotes the same record.
    pub fn duplicate(&self) -> (r: RssGuid)
        ensures
            r@ == self@,
    {
        RssGuid { value: self.value.clone(), permalink: self.permalink }
    }
}

/// Copies a category list; the copy denotes the same sequence.
pub fn dup_rss_categories(v: &Vec<RssCategory>) -> (r: Vec<RssCategory>)
    ensures
        r.deep_view() == v.deep_view(),
{
    let mut r: Vec<RssCategory> = Vec::new();
    let mut i: usize = 0;
    while i < v.len()
        invariant
            i <= v.len(),
            r@.len() == i as int,
            forall|j: int| 0 <= j < i ==> #[trigger] r.deep_view()[j] == v.deep_view()[j],
        decreases v.len() - i,
    {
        let x = v[i].duplicate();
        let ghost r0 = r.deep_view();
        r.push(x);
        proof {
            assert(r.deep_view() =~= r0.push(x@));
        }
        i = i + 1;
    }
    proof {
        assert(r.deep_view() =~= v.deep_view());
    }
    r
}

impl RssItem {
    /// Copies the item; the copy denotes the same record.
    pub fn duplicate(&self) -> (r: RssItem)
        ensures
            r@ == self@,
    {
        RssItem {
            title: crate::link::clone_opt_string(&self.title),
            link: crate::link::clone_opt_string(&self.link),
            description: crate::link::clone_opt_string(&self.description),
            author: crate::link::clone_opt_string(&self.author),
            categories: dup_rss_categories(&self.categories),
            comments: crate::link::clone_opt_string(&self.comments),
            guid: match &self.guid {
                Some(g) => Some(g.duplicate()),
                None => None,
            },
            pub_date: crate::link::clone_opt_string(&self.pub_date),
        }
    }
}

impl RssImage {
    /// Copies the image; the copy denotes the same record.
    pub fn duplicate(&self) -> (r: RssImage)
        ensures
            r@ == self@,
    {
        RssImage {
            url: self.url.clone(),
            title: self.title.clone(),
            link: self.link.clone(),
            width: crate::link::clone_opt_string(&self.width),
            height: crate::link::clone_opt_string(&self.height),
            description: crate::link::clone_opt_string(&self.description),
        }
    }
}

impl RssTextInput {
    /// Copies the text-input; the copy denotes the same record.
    pub fn duplicate(&self) -> (r: RssTextInput)
        ensures
            r@ == self@,
    {
        RssTextInput {
            title: self.title.clone(),
            description: self.description.clone(),
            name: self.name.clone(),
            link: self.link.clone(),
        }
    }
}

/// Copies an item list; the copy denotes the same sequence.
pub fn dup_rss_items(v: &Vec<RssItem>) -> (r: Vec<RssItem>)
    ensures
        r.deep_view() == v.deep_view(),
{
    let mut r: Vec<RssItem> = Vec::new();
    let mut i: usize = 0;
    while i < v.len()
        invariant
            i <= v.len(),
            r@.len() == i as int,
            forall|j: int| 0 <= j < i ==> #[trigger] r.deep_view()[j] == v.deep_view()[j],
        decreases v.len() - i,
    {
        let x = v[i].duplicate();
        let ghost r0 = r.deep_view();
        r.push(x);
        proof {
            assert(r.deep_view() =~= r0.push(x@));
        }
        i = i + 1;
    }
    proof {
        assert(r.deep_view() =~= v.deep_view());
    }
    r
}

impl RssChannel {
    /// Copies the channel; the copy denotes the same record.
    pub fn duplicate(&self) -> (r: RssChannel)
        ensures
            r@ == self@,
    {
        RssChannel {
            title: self.title.clone(),
            link: self.link.clone(),
            description: self.description.clone(),
            language: crate::link::clone_opt_string(&self.language),
            copyright: crate::link::clone_opt_string(&self.copyright),
            managing_editor: crate::link::clone_opt_string(&self.managing_editor),
            webmaster: crate::link::clone_opt_string(&self.webmaster),
            pub_date: crate::link::clone_opt_string(&self.pub_date),
            last_build_date: crate::link::clone_opt_string(&self.last_build_date),
            categories: dup_rss_categories(&self.categories),
            generator: crate::link::clone_opt_string(&self.generator),
            docs: crate::link::clone_opt_string(&self.docs),
            rating: crate::link::clone_opt_string(&self.rating),
            ttl: crate::link::clone_opt_string(&self.ttl),
            image: match &self.image {
                Some(i) => Some(i.duplicate()),
                None => None,
            },
            text_input: match &self.text_input {
                Some(t) => Some(t.duplicate()),
                None => None,
            },
            skip_hours: crate::link::dup_strings(&self.skip_hours),
            skip_days: crate::link::dup_strings(&self.skip_days),
            items: dup_rss_items(&self.items),
        }
    }
}

/// The channel that the RSS engine parses a text to, if it accepts the
/// text.  Names the result of `rss::Channel::from_str`, a pure function of
/// the text, projected onto the retained model.
pub uninterp spec fn rss_doc_of(s: Seq<char>) -> Option<RssChannelV>;

/// The XML rendering of an RSS channel.  Names the result of the RSS
/// engine's writer (`rss::Channel::to_string`) on the native channel
/// reconstructed from the retained model, a pure function of it.
pub uninterp spec fn rss_xml_of(c: RssChannelV) -> Seq<char>;

// What follows is the trusted boundary to the RSS format engine: the
// declarations of its types, the conversions between its channels and the
// retained model, and the two calls the library makes into it.

#[verifier::external_type_specification]
#[verifier::external_body]
pub struct ExRssChannel(NativeRssChannel);

#[verifier::external_type_specification]
#[verifier::external_body]
pub struct ExRssItem(NativeRssItem);

#[verifier::external_type_specification]
#[verifier::external_body]
pub struct ExRssCategory(NativeRssCategory);

#[verifier::external_type_specification]
#[verifier::external_body]
pub struct ExRssGuid(NativeRssGuid);

#[verifier::external_type_specification]
#[verifier::external_body]
pub struct ExRssImage(NativeRssImage);

#[verifier::external_type_specification]
#[verifier::external_body]
pub struct ExRssTextInput(NativeRssTextInput);

/// Relies on the public fields of `rss::Category`.
#[verifier::external_body]
fn category_of_native(c: NativeRssCategory) -> RssCategory {
    RssCategory { name: c.name, domain: c.domain }
}

/// Relies on the public fields of `rss::Category`.
#[verifier::external_body]
fn native_of_category(c: &RssCategory) -> NativeRssCategory {
    NativeRssCategory { name: c.name.clone(), domain: c.domain.clone() }
}

/// Relies on the public fields of `rss::Guid`.
#[verifier::external_body]
fn guid_of_native(g: NativeRssGuid) -> RssGuid {
    RssGuid { value: g.value, permalink: g.permalink }
}

/// Relies on the public fields of `rss::Guid`.
#[verifier::external_body]
fn native_of_guid(g: &RssGuid) -> NativeRssGuid {
    NativeRssGuid { value: g.value.clone(), permalink: g.permalink }
}

/// Relies on the public fields of `rss::Image`.
#[verifier::external_body]
fn image_of_native(i: NativeRssImage) -> RssImage {
    RssImage {
        url: i.url,
        title: i.title,
        link: i.link,
        width: i.width,
        height: i.height,
        description: i.description,
    }
}

/// Relies on the public fields of `rss::Image`.
#[verifier::external_body]
fn native_of_image(i: &RssImage) -> NativeRssImage {
    NativeRssImage {
        url: i.url.clone(),
        title: i.title.clone(),
        link: i.link.clone(),
        width: i.width.clone(),
        height: i.height.clone(),
        description: i.description.clone(),
    }
}

/// Relies on the public fields of `rss::TextInput`.
#[verifier::external_body]
fn text_input_of_native(t: NativeRssTextInput) -> RssTextInput {
    RssTextInput {
        title: t.title,
        description: t.description,
        name: t.name,
        link: t.link,
    }
}

/// Relies on the public fields of `rss::TextInput`.
#[verifier::external_body]
fn native_of_text_input(t: &RssTextInput) -> NativeRssTextInput {
    NativeRssTextInput {
        title: t.title.clone(),
        description: t.description.clone(),
        name: t.name.clone(),
        link: t.link.clone(),
    }
}

/// Relies on the public fields of `rss::Item`: moves each retained field
/// into the model (enclosure, source and extension data are out of scope).
#[verifier::external_body]
fn item_of_native(i: NativeRssItem) -> RssItem {
    RssItem {
        title: i.title,
        link: i.link,
        description: i.description,
        author: i.author,
        categories: i.categories.into_iter().map(category_of_native).collect(),
        comments: i.comments,
        guid: i.guid.map(guid_of_native),
        pub_date: i.pub_date,
    }
}

/// Relies on the public fields of `rss::Item`: rebuilds the engine's item
/// from the model, with no enclosure, source or extension data.
#[verifier::external_body]
fn native_of_item(i: &RssItem) -> NativeRssItem {
    NativeRssItem {
        title: i.title.clone(),
        link: i.link.clone(),
        description: i.description.clone(),
        author: i.author.clone(),
        categories: i.categories.iter().map(native_of_category).collect(),
        comments: i.comments.clone(),
        guid: i.guid.as_ref().map(native_of_guid),
        pub_date: i.pub_date.clone(),
        ..Default::default()
    }
}

/// Relies on the public fields of `rss::Channel`: moves each retained field
/// into the model.
#[verifier::external_body]
fn channel_of_native(c: NativeRssChannel) -> RssChannel {
    RssChannel {
        title: c.title, link: c.link, description: c.description,
        language: c.language, copyright: c.copyright,
        managing_editor: c.managing_editor, webmaster: c.webmaster,
        pub_date: c.pub_date, last_build_date: c.last_build_date,
        categories: c.categories.into_iter().map(category_of_native).collect(),
        generator: c.generator, docs: c.docs, rating: c.rating, ttl: c.ttl,
        image: c.image.map(image_of_native),
        text_input: c.text_input.map(text_input_of_native),
        skip_hours: c.skip_hours, skip_days: c.skip_days,
        items: c.items.into_iter().map(item_of_native).collect(),
    }
}

/// Relies on the public fields of `rss::Channel`: rebuilds the engine's
/// channel from the model, with no cloud or extension data.
#[verifier::external_body]
fn native_channel_plain(c: &RssChannel) -> NativeRssChannel {
    NativeRssChannel {
        title: c.title.clone(), link: c.link.clone(), description: c.description.clone(),
        language: c.language.clone(), copyright: c.copyright.clone(),
        managing_editor: c.managing_editor.clone(), webmaster: c.webmaster.clone(),
        pub_date: c.pub_date.clone(), last_build_date: c.last_build_date.clone(),
        generator: c.generator.clone(), docs: c.docs.clone(), rating: c.rating.clone(),
        ttl: c.ttl.clone(), skip_hours: c.skip_hours.clone(), skip_days: c.skip_days.clone(),
        ..Default::default()
    }
}

/// Relies on the public fields of `rss::Channel`: rebuilds the engine's
/// channel from the model, collection by collection, with no cloud or
/// extension data.
#[verifier::external_body]
fn native_of_channel(c: &RssChannel) -> NativeRssChannel {
    let mut n = native_channel_plain(c);
    n.categories = c.categories.iter().map(native_of_category).collect();
    n.image = c.image.as_ref().map(native_of_image);
    n.text_input = c.text_input.as_ref().map(native_of_text_input);
    n.items = c.items.iter().map(native_of_item).collect();
    n
}

/// Relies on `rss::Channel::from_str` (the RSS format engine): whether the
/// text parses, and what it parses to, are pure functions of the text,
/// named by `rss_doc_of`.
#[verifier::external_body]
pub fn parse_rss(s: &str) -> (r: Option<RssChannel>)
    ensures
        r matches Some(c) ==> rss_doc_of(s@) == Some(c@),
        r is None ==> rss_doc_of(s@) is None,
{
    match s.parse::<NativeRssChannel>() {
        Ok(c) => Some(channel_of_native(c)),
        Err(_) => None,
    }
}

/// Relies on the RSS engine's XML writer (`Channel::to_string`), a pure
/// function of the channel it is given, named by `rss_xml_of`.
#[verifier::external_body]
pub fn rss_to_xml(c: &RssChannel) -> (r: String)
    ensures
        r@ == rss_xml_of(c@),
{
    native_of_channel(c).to_string()
}

} // verus!
