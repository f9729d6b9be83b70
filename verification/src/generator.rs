//! The unified generator record and its mapping to Atom's generator
//! element.  RSS's generator is a bare name string; `Generator::from_name`
//! builds the unified record from it, leaving uri and version unset.

use vstd::prelude::*;

use crate::atom_doc::{AtomGenerator, AtomGeneratorV};
use crate::link::clone_opt_string;

verus! {

/// The unified generator: the software that produced the feed.
#[derive(Debug, Clone, PartialEq, Eq)]
pub struct Generator {
    pub name: String,
    pub uri: Option<String>,
    pub version: Option<String>,
}

#[verifier::ext_equal]
pub struct GeneratorV {
    pub name: Seq<char>,
    pub uri: Option<Seq<char>>,
    pub version: Option<Seq<char>>,
}

impl View for Generator {
    type V = GeneratorV;

    open spec fn view(&self) -> GeneratorV {
        GeneratorV {
            name: self.name@,
            uri: self.uri.deep_view(),
            version: self.version.deep_view(),
        }
    }
}

impl DeepView for Generator {
    type V = GeneratorV;

    open spec fn deep_view(&self) -> GeneratorV {
        self.view()
    }
}

/// The unified generator an Atom generator maps to: the name is Atom's
/// element value; uri and version carry over.
pub open spec fn generator_from_atom(g: AtomGeneratorV) -> GeneratorV {
    GeneratorV { name: g.value, uri: g.uri, version: g.version }
}

/// The Atom generator a unified generator maps to.
pub open spec fn generator_to_atom(g: GeneratorV) -> AtomGeneratorV {
    AtomGeneratorV { value: g.name, uri: g.uri, version: g.version }
}

/// The unified generator a bare name string maps to: only `name` is set.
pub open spec fn generator_from_name_spec(name: Seq<char>) -> GeneratorV {
    GeneratorV { name, uri: None, version: None }
}

impl Generator {
    /// Wraps a bare generator name, as handed over by the RSS side, in a
    /// unified generator.
    pub fn from_name(name: String) -> (r: Generator)
        ensures
            r@ == generator_from_name_spec(name@),
    {
        Generator { name, uri: None, version: None }
    }

    /// Maps an Atom generator to the unified record.
    pub fn from_atom(g: &AtomGenerator) -> (r: Generator)
        ensures
            r@ == generator_from_atom(g@),
    {
        Generator {
            name: g.value.clone(),
            uri: clone_opt_string(&g.uri),
            version: clone_opt_string(&g.version),
        }
    }

    /// Maps the unified record back to an Atom generator.
    pub fn to_atom(&self) -> (r: AtomGenerator)
        ensures
            r@ == generator_to_atom(self@),
    {
        AtomGenerator {
            value: self.name.clone(),
            uri: clone_opt_string(&self.uri),
            version: clone_opt_string(&self.version),
        }
    }
}

} // verus!
