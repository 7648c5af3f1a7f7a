//! Display texts by language tag (`"en"`, `"fr"`).

use vstd::prelude::*;

use crate::table::{find_last, lookup, same_entries, same_lookups, text_pairs};

verus! {

/// Texts keyed by language tag. A tag with no entry means that no text is
/// given in that language. Tags are opaque text here: the map neither checks
/// nor normalises them, it only looks them up. Two maps are equal when they give the same text,
/// or none, for every tag, whatever order the texts were set in.
#[derive(Debug, Clone)]
pub struct LanguageMap {
    entries: Vec<(String, String)>,
}

impl View for LanguageMap {
    type V = Seq<(Seq<char>, Seq<char>)>;

    /// The (tag, text) entries in the order they were set.
    closed spec fn view(&self) -> Seq<(Seq<char>, Seq<char>)> {
        text_pairs(self.entries@)
    }
}

impl LanguageMap {
    /// A map with no texts.
    pub fn new() -> (m: LanguageMap)
        ensures
            m@ == Seq::<(Seq<char>, Seq<char>)>::empty(),
    {
        let m = LanguageMap { entries: Vec::new() };
        assert(m@ =~= Seq::<(Seq<char>, Seq<char>)>::empty());
        m
    }

    /// Sets the text for `language`, hiding any earlier one.
    pub fn insert(&mut self, language: &str, text: &str)
        ensures
            final(self)@ == old(self)@.push((language@, text@)),
    {
        self.entries.push((String::from_str(language), String::from_str(text)));
        assert(final(self)@ =~= old(self)@.push((language@, text@)));
    }

    /// The text for `language`, if one was set.
    pub fn get(&self, language: &str) -> (r: Option<&str>)
        ensures
            match r {
                Some(t) => lookup(self@, language@) == Some(t@),
                None => lookup(self@, language@) == None::<Seq<char>>,
            },
    {
        match find_last(&self.entries, language) {
            Some(i) => Some(self.entries[i].1.as_str()),
            None => None,
        }
    }

    /// The (tag, text) entries in the order they were set.
    pub fn entries(&self) -> (r: &Vec<(String, String)>)
        ensures
            text_pairs(r@) == self@,
    {
        &self.entries
    }

    /// Whether no text is set.
    pub fn is_empty(&self) -> (b: bool)
        ensures
            b == (self@.len() == 0),
    {
        self.entries.len() == 0
    }
}

impl PartialEq for LanguageMap {
    fn eq(&self, other: &LanguageMap) -> (r: bool)
        ensures
            r == same_lookups(self@, other@),
    {
        same_entries(&self.entries, &other.entries)
    }
}

impl vstd::std_specs::cmp::PartialEqSpecImpl for LanguageMap {
    open spec fn obeys_eq_spec() -> bool {
        true
    }

    open spec fn eq_spec(&self, other: &LanguageMap) -> bool {
        same_lookups(self@, other@)
    }
}

impl Eq for LanguageMap {
}

} // verus!
