//! What the entity builders report when required fields were not given.

use vstd::prelude::*;

verus! {

/// The text of each name.
pub open spec fn names(v: Seq<String>) -> Seq<Seq<char>> {
    v.map_values(|s: String| s@)
}

/// `field` alone when it is `absent`, nothing otherwise.
pub open spec fn if_absent(absent: bool, field: Seq<char>) -> Seq<Seq<char>> {
    if absent {
        seq![field]
    } else {
        Seq::empty()
    }
}

/// A builder was finished while required fields were still unset.
#[derive(Debug, Clone, PartialEq, Eq)]
pub struct BuildError {
    missing: Vec<String>,
}

impl View for BuildError {
    type V = Seq<Seq<char>>;

    /// The names of the missing fields, in declaration order.
    closed spec fn view(&self) -> Seq<Seq<char>> {
        names(self.missing@)
    }
}

impl BuildError {
    /// The names of the missing fields, in declaration order.
    pub fn missing(&self) -> (r: &Vec<String>)
        ensures
            names(r@) == self@,
    {
        &self.missing
    }
}

/// Collects the names of unset required fields.
pub(crate) struct Missing {
    names: Vec<String>,
}

impl View for Missing {
    type V = Seq<Seq<char>>;

    closed spec fn view(&self) -> Seq<Seq<char>> {
        names(self.names@)
    }
}

impl Missing {
    pub(crate) fn new() -> (m: Missing)
        ensures
            m@ == Seq::<Seq<char>>::empty(),
    {
        let m = Missing { names: Vec::new() };
        assert(m@ =~= Seq::<Seq<char>>::empty());
        m
    }

    /// Notes `field` when it is `absent`.
    pub(crate) fn note(&mut self, absent: bool, field: &str)
        ensures
            final(self)@ == old(self)@ + if_absent(absent, field@),
    {
        if absent {
            self.names.push(String::from_str(field));
        }
        assert(final(self)@ =~= old(self)@ + if_absent(absent, field@));
    }

    /// The error that names the noted fields.
    pub(crate) fn into_error(self) -> (e: BuildError)
        ensures
            e@ == self@,
    {
        BuildError { missing: self.names }
    }
}

} // verus!
