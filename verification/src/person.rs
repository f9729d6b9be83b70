//! The unified person record and its mapping to Atom's person construct.
//! RSS carries bare name strings (managing editor, webmaster, item author);
//! `Person::from_name` builds the unified record from one.

use vstd::prelude::*;

use crate::atom_doc::{AtomPerson, AtomPersonV};
use crate::link::clone_opt_string;

verus! {

/// A unified person: an author or contributor.
#[derive(Debug, Clone, PartialEq, Eq)]
pub struct Person {
    pub name: String,
    pub uri: Option<String>,
    pub email: Option<String>,
}

#[verifier::ext_equal]
pub struct PersonV {
    pub name: Seq<char>,
    pub uri: Option<Seq<char>>,
    pub email: Option<Seq<char>>,
}

impl View for Person {
    type V = PersonV;

    open spec fn view(&self) -> PersonV {
        PersonV {
            name: self.name@,
            uri: self.uri.deep_view(),
            email: self.email.deep_view(),
        }
    }
}

impl DeepView for Person {
    type V = PersonV;

    open spec fn deep_view(&self) -> PersonV {
        self.view()
    }
}

/// The unified person an Atom person construct maps to: all fields carry
/// over.
pub open spec fn person_from_atom(p: AtomPersonV) -> PersonV {
    PersonV { name: p.name, uri: p.uri, email: p.email }
}

/// The Atom person construct a unified person maps to.
pub open spec fn person_to_atom(p: PersonV) -> AtomPersonV {
    AtomPersonV { name: p.name, email: p.email, uri: p.uri }
}

/// The unified person a bare name string maps to: only `name` is set.
pub open spec fn person_from_name_spec(name: Seq<char>) -> PersonV {
    PersonV { name, uri: None, email: None }
}

impl Person {
    /// Wraps a bare name, as handed over by the RSS side, in a unified
    /// person.
    pub fn from_name(name: String) -> (r: Person)
        ensures
            r@ == person_from_name_spec(name@),
    {
        Person { name, uri: None, email: None }
    }

    /// Maps an Atom person construct to the unified record.
    pub fn from_atom(p: &AtomPerson) -> (r: Person)
        ensures
            r@ == person_from_atom(p@),
    {
        Person {
            name: p.name.clone(),
            uri: clone_opt_string(&p.uri),
            email: clone_opt_string(&p.email),
        }
    }

    /// Maps the unified record back to an Atom person construct.
    pub fn to_atom(&self) -> (r: AtomPerson)
        ensures
            r@ == person_to_atom(self@),
    {
        AtomPerson {
            name: self.name.clone(),
            email: clone_opt_string(&self.email),
            uri: clone_opt_string(&self.uri),
        }
    }
}

/// Maps each Atom person construct to the unified record, keeping order.
pub fn persons_from_atom(v: &Vec<AtomPerson>) -> (r: Vec<Person>)
    ensures
        r.deep_view() == v.deep_view().map_values(|p: AtomPersonV| person_from_atom(p)),
{
    let mut r: Vec<Person> = Vec::new();
    let mut i: usize = 0;
    while i < v.len()
        invariant
            i <= v.len(),
            r@.len() == i as int,
            forall|j: int|
                0 <= j < i ==> #[trigger] r.deep_view()[j] == person_from_atom(v.deep_view()[j]),
        decreases v.len() - i,
    {
        let x = Person::from_atom(&v[i]);
        let ghost r0 = r.deep_view();
        r.push(x);
        proof {
            assert(r.deep_view() =~= r0.push(x@));
        }
        i = i + 1;
    }
    proof {
        assert(r.deep_view() =~= v.deep_view().map_values(|p: AtomPersonV| person_from_atom(p)));
    }
    r
}

/// Maps each unified person back to an Atom person construct, keeping
/// order.
pub fn persons_to_atom(v: &Vec<Person>) -> (r: Vec<AtomPerson>)
    ensures
        r.deep_view() == v.deep_view().map_values(|p: PersonV| person_to_atom(p)),
{
    let mut r: Vec<AtomPerson> = Vec::new();
    let mut i: usize = 0;
    while i < v.len()
        invariant
            i <= v.len(),
            r@.len() == i as int,
            forall|j: int|
                0 <= j < i ==> #[trigger] r.deep_view()[j] == person_to_atom(v.deep_view()[j]),
        decreases v.len() - i,
    {
        let x = v[i].to_atom();
        let ghost r0 = r.deep_view();
        r.push(x);
        proof {
            assert(r.deep_view() =~= r0.push(x@));
        }
        i = i + 1;
    }
    proof {
        assert(r.deep_view() =~= v.deep_view().map_values(|p: PersonV| person_to_atom(p)));
    }
    r
}

} // verus!
