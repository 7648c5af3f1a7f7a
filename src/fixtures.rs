//! A read-only registry of example documents, looked up by logical path
//! (`"examples/peripherals/<key>/<key>.lock.toml"`). It is built explicitly
//! and handed to whatever needs it; there is no ambient global copy.

use vstd::prelude::*;

use crate::table::{find_last, lookup, text_pairs};

verus! {

/// Example documents, by name.
pub struct Fixtures {
    entries: Vec<(String, String)>,
}

impl View for Fixtures {
    type V = Seq<(Seq<char>, Seq<char>)>;

    /// The registrations, oldest first.
    closed spec fn view(&self) -> Seq<(Seq<char>, Seq<char>)> {
        text_pairs(self.entries@)
    }
}

impl Fixtures {
    /// An empty registry.
    pub fn new() -> (f: Fixtures)
        ensures
            f@ == Seq::<(Seq<char>, Seq<char>)>::empty(),
    {
        let f = Fixtures { entries: Vec::new() };
        assert(f@ =~= Seq::<(Seq<char>, Seq<char>)>::empty());
        f
    }

    /// Registers `content` under `name`; it replaces what `name` held before.
    pub fn insert(&mut self, name: &str, content: &str)
        ensures
            final(self)@ == old(self)@.push((name@, content@)),
    {
        self.entries.push((String::from_str(name), String::from_str(content)));
        assert(final(self)@ =~= old(self)@.push((name@, content@)));
    }
}

/// The document registered under `file_name`, or `None` when there is none.
pub fn load<'a>(fixtures: &'a Fixtures, file_name: &str) -> (r: Option<&'a str>)
    ensures
        match r {
            Some(t) => lookup(fixtures@, file_name@) == Some(t@),
            None => lookup(fixtures@, file_name@) == None::<Seq<char>>,
        },
{
    match find_last(&fixtures.entries, file_name) {
        Some(i) => Some(fixtures.entries[i].1.as_str()),
        None => None,
    }
}

} // verus!
