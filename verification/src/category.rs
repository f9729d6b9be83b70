//! The unified category record and its mapping to each native category.
//!
//! RSS has no label field: a category read from RSS leaves `label` absent,
//! and the term is deliberately not duplicated into it.

use vstd::prelude::*;

use crate::atom_doc::{AtomCategory, AtomCategoryV};
use crate::link::clone_opt_string;
use crate::rss_doc::{RssCategory, RssCategoryV};

verus! {

/// A unified category.
#[derive(Debug, Clone, PartialEq, Eq)]
pub struct Category {
    pub term: String,
    pub scheme: Option<String>,
    pub label: Option<String>,
}

#[verifier::ext_equal]
pub struct CategoryV {
    pub term: Seq<char>,
    pub scheme: Option<Seq<char>>,
    pub label: Option<Seq<char>>,
}

impl View for Category {
    type V = CategoryV;

    open spec fn view(&self) -> CategoryV {
        CategoryV {
            term: self.term@,
            scheme: self.scheme.deep_view(),
            label: self.label.deep_view(),
        }
    }
}

impl DeepView for Category {
    type V = CategoryV;

    open spec fn deep_view(&self) -> CategoryV {
        self.view()
    }
}

/// The unified category an Atom category maps to: all fields carry over.
pub open spec fn category_from_atom(c: AtomCategoryV) -> CategoryV {
    CategoryV { term: c.term, scheme: c.scheme, label: c.label }
}

/// The Atom category a unified category maps to.
pub open spec fn category_to_atom(c: CategoryV) -> AtomCategoryV {
    AtomCategoryV { term: c.term, scheme: c.scheme, label: c.label }
}

/// The unified category an RSS category maps to: the term is RSS's name,
/// the scheme is RSS's domain, and the label stays absent.
pub open spec fn category_from_rss(c: RssCategoryV) -> CategoryV {
    CategoryV { term: c.name, scheme: c.domain, label: None }
}

/// The RSS category a unified category maps to: the label is dropped, as
/// RSS has no equivalent.
pub open spec fn category_to_rss(c: CategoryV) -> RssCategoryV {
    RssCategoryV { name: c.term, domain: c.scheme }
}

impl Category {
    /// Maps an Atom category to the unified record.
    pub fn from_atom(c: &AtomCategory) -> (r: Category)
        ensures
            r@ == category_from_atom(c@),
    {
        Category {
            term: c.term.clone(),
            scheme: clone_opt_string(&c.scheme),
            label: clone_opt_string(&c.label),
        }
    }

    /// Maps the unified record back to an Atom category.
    pub fn to_atom(&self) -> (r: AtomCategory)
        ensures
            r@ == category_to_atom(self@),
    {
        AtomCategory {
            term: self.term.clone(),
            scheme: clone_opt_string(&self.scheme),
            label: clone_opt_string(&self.label),
        }
    }

    /// Maps an RSS category to the unified record.
    pub fn from_rss(c: &RssCategory) -> (r: Category)
        ensures
            r@ == category_from_rss(c@),
    {
        Category { term: c.name.clone(), scheme: clone_opt_string(&c.domain), label: None }
    }

    /// Maps the unified record back to an RSS category.
    pub fn to_rss(&self) -> (r: RssCategory)
        ensures
            r@ == category_to_rss(self@),
    {
        RssCategory { name: self.term.clone(), domain: clone_opt_string(&self.scheme) }
    }
}

/// Maps each Atom category to the unified record, keeping order.
pub fn categories_from_atom(v: &Vec<AtomCategory>) -> (r: Vec<Category>)
    ensures
        r.deep_view() == v.deep_view().map_values(|c: AtomCategoryV| category_from_atom(c)),
{
    let mut r: Vec<Category> = Vec::new();
    let mut i: usize = 0;
    while i < v.len()
        invariant
            i <= v.len(),
            r@.len() == i as int,
            forall|j: int|
                0 <= j < i ==> #[trigger] r.deep_view()[j] == category_from_atom(
                    v.deep_view()[j],
                ),
        decreases v.len() - i,
    {
        let x = Category::from_atom(&v[i]);
        let ghost r0 = r.deep_view();
        r.push(x);
        proof {
            assert(r.deep_view() =~= r0.push(x@));
        }
        i = i + 1;
    }
    proof {
        assert(r.deep_view() =~= v.deep_view().map_values(
            |c: AtomCategoryV| category_from_atom(c),
        ));
    }
    r
}

/// Maps each unified category back to an Atom category, keeping order.
pub fn categories_to_atom(v: &Vec<Category>) -> (r: Vec<AtomCategory>)
    ensures
        r.deep_view() == v.deep_view().map_values(|c: CategoryV| category_to_atom(c)),
{
    let mut r: Vec<AtomCategory> = Vec::new();
    let mut i: usize = 0;
    while i < v.len()
        invariant
            i <= v.len(),
            r@.len() == i as int,
            forall|j: int|
                0 <= j < i ==> #[trigger] r.deep_view()[j] == category_to_atom(v.deep_view()[j]),
        decreases v.len() - i,
    {
        let x = v[i].to_atom();
        let ghost r0 = r.deep_view();
        r.push(x);
        proof {
            assert(r.deep_view() =~= r0.push(x@));
        }
        i = i + 1;
    }
    proof {
        assert(r.deep_view() =~= v.deep_view().map_values(|c: CategoryV| category_to_atom(c)));
    }
    r
}

/// Maps each RSS category to the unified record, keeping order.
pub fn categories_from_rss(v: &Vec<RssCategory>) -> (r: Vec<Category>)
    ensures
        r.deep_view() == v.deep_view().map_values(|c: RssCategoryV| category_from_rss(c)),
{
    let mut r: Vec<Category> = Vec::new();
    let mut i: usize = 0;
    while i < v.len()
        invariant
            i <= v.len(),
            r@.len() == i as int,
            forall|j: int|
                0 <= j < i ==> #[trigger] r.deep_view()[j] == category_from_rss(v.deep_view()[j]),
        decreases v.len() - i,
    {
        let x = Category::from_rss(&v[i]);
        let ghost r0 = r.deep_view();
        r.push(x);
        proof {
            assert(r.deep_view() =~= r0.push(x@));
        }
        i = i + 1;
    }
    proof {
        assert(r.deep_view() =~= v.deep_view().map_values(
            |c: RssCategoryV| category_from_rss(c),
        ));
    }
    r
}

/// Maps each unified category back to an RSS category, keeping order.
pub fn categories_to_rss(v: &Vec<Category>) -> (r: Vec<RssCategory>)
    ensures
        r.deep_view() == v.deep_view().map_values(|c: CategoryV| category_to_rss(c)),
{
    let mut r: Vec<RssCategory> = Vec::new();
    let mut i: usize = 0;
    while i < v.len()
        invariant
            i <= v.len(),
            r@.len() == i as int,
            forall|j: int|
                0 <= j < i ==> #[trigger] r.deep_view()[j] == category_to_rss(v.deep_view()[j]),
        decreases v.len() - i,
    {
        let x = v[i].to_rss();
        let ghost r0 = r.deep_view();
        r.push(x);
        proof {
            assert(r.deep_view() =~= r0.push(x@));
        }
        i = i + 1;
    }
    proof {
        assert(r.deep_view() =~= v.deep_view().map_values(|c: CategoryV| category_to_rss(c)));
    }
    r
}

} // verus!
