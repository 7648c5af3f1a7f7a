//! The creator of a game, peripheral or spec.

use vstd::prelude::*;

use crate::builder::{if_absent, BuildError, Missing};
use crate::key::{is_valid_key, key_error, KeyError, ValidKey};
use crate::language::LanguageMap;
use crate::scalar::{parse_url, url_accepts};

verus! {

/// A vendor: a key, display texts, and optional contact points.
#[derive(Debug, Clone, PartialEq)]
pub struct Vendor {
    pub name: ValidKey,
    pub titles: LanguageMap,
    pub descriptions: LanguageMap,
    pub url: Option<url::Url>,
    pub email: Option<email_address::EmailAddress>,
    pub support: Option<url::Url>,
}

/// Why `Vendor::new` refused its arguments.
#[derive(Debug, PartialEq)]
pub enum VendorError {
    Key(KeyError),
    Url(url::ParseError),
}

impl Vendor {
    /// The vendor's display text: its key.
    pub fn to_string(&self) -> (s: String)
        ensures
            s@ == self.name@,
    {
        String::from_str(self.name.as_str())
    }

    /// A vendor with the given key and web site, and nothing else.
    pub fn new(name: &str, url: &str) -> (r: Result<Vendor, VendorError>)
        ensures
            r is Ok <==> is_valid_key(name@) && url_accepts(url@),
            !is_valid_key(name@) ==> r == Err::<Vendor, VendorError>(VendorError::Key(key_error(name@))),
            is_valid_key(name@) && !url_accepts(url@) ==> r is Err && r->Err_0 is Url,
            r matches Ok(v) ==> {
                &&& v.name@ == name@
                &&& v.titles@.len() == 0
                &&& v.descriptions@.len() == 0
                &&& v.url is Some
                &&& v.email is None
                &&& v.support is None
            },
    {
        let key = match ValidKey::new(name) {
            Ok(k) => k,
            Err(e) => return Err(VendorError::Key(e)),
        };
        let site = match parse_url(url) {
            Ok(u) => u,
            Err(e) => return Err(VendorError::Url(e)),
        };
        Ok(
            Vendor {
                name: key,
                titles: LanguageMap::new(),
                descriptions: LanguageMap::new(),
                url: Some(site),
                email: None,
                support: None,
            },
        )
    }
}

/// Assembles a `Vendor`; only `name` is required.
pub struct VendorBuilder {
    pub name: Option<ValidKey>,
    pub titles: Option<LanguageMap>,
    pub descriptions: Option<LanguageMap>,
    pub url: Option<url::Url>,
    pub email: Option<email_address::EmailAddress>,
    pub support: Option<url::Url>,
}

impl VendorBuilder {
    /// A builder with nothing set.
    pub fn new() -> (b: VendorBuilder)
        ensures
            b.name is None,
            b.titles is None,
            b.descriptions is None,
            b.url is None,
            b.email is None,
            b.support is None,
    {
        VendorBuilder {
            name: None,
            titles: None,
            descriptions: None,
            url: None,
            email: None,
            support: None,
        }
    }

    /// Sets `name`.
    pub fn name(self, name: ValidKey) -> (b: VendorBuilder)
        ensures
            b == (VendorBuilder { name: Some(name), ..self }),
    {
        VendorBuilder { name: Some(name), ..self }
    }

    /// Sets `titles`.
    pub fn titles(self, titles: LanguageMap) -> (b: VendorBuilder)
        ensures
            b == (VendorBuilder { titles: Some(titles), ..self }),
    {
        VendorBuilder { titles: Some(titles), ..self }
    }

    /// Sets `descriptions`.
    pub fn descriptions(self, descriptions: LanguageMap) -> (b: VendorBuilder)
        ensures
            b == (VendorBuilder { descriptions: Some(descriptions), ..self }),
    {
        VendorBuilder { descriptions: Some(descriptions), ..self }
    }

    /// Sets `url`.
    pub fn url(self, url: url::Url) -> (b: VendorBuilder)
        ensures
            b == (VendorBuilder { url: Some(url), ..self }),
    {
        VendorBuilder { url: Some(url), ..self }
    }

    /// Sets `email`.
    pub fn email(self, email: email_address::EmailAddress) -> (b: VendorBuilder)
        ensures
            b == (VendorBuilder { email: Some(email), ..self }),
    {
        VendorBuilder { email: Some(email), ..self }
    }

    /// Sets `support`.
    pub fn support(self, support: url::Url) -> (b: VendorBuilder)
        ensures
            b == (VendorBuilder { support: Some(support), ..self }),
    {
        VendorBuilder { support: Some(support), ..self }
    }

    /// The names of the required fields that are unset.
    pub open spec fn missing(&self) -> Seq<Seq<char>> {
        if_absent(self.name is None, "name"@)
    }

    /// The vendor, with empty texts and no contact points where none were
    /// set; an error naming `name` if it was not set.
    pub fn build(self) -> (r: Result<Vendor, BuildError>)
        ensures
            r is Ok <==> self.missing().len() == 0,
            r matches Err(e) ==> e@ == self.missing(),
            r matches Ok(v) ==> {
                &&& Some(v.name) == self.name
                &&& self.titles matches Some(t) ==> v.titles == t
                &&& self.titles is None ==> v.titles@.len() == 0
                &&& self.descriptions matches Some(d) ==> v.descriptions == d
                &&& self.descriptions is None ==> v.descriptions@.len() == 0
                &&& v.url == self.url
                &&& v.email == self.email
                &&& v.support == self.support
            },
    {
        let mut missing = Missing::new();
        missing.note(self.name.is_none(), "name");
        assert(missing@ =~= self.missing());
        match self.name {
            Some(name) => Ok(
                Vendor {
                    name,
                    titles: self.titles.unwrap_or(LanguageMap::new()),
                    descriptions: self.descriptions.unwrap_or(LanguageMap::new()),
                    url: self.url,
                    email: self.email,
                    support: self.support,
                },
            ),
            None => Err(missing.into_error()),
        }
    }
}

impl Default for VendorBuilder {
    fn default() -> (b: VendorBuilder)
        ensures
            b.name is None,
            b.titles is None,
            b.descriptions is None,
            b.url is None,
            b.email is None,
            b.support is None,
    {
        VendorBuilder::new()
    }
}

} // verus!
