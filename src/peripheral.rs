//! Physical or virtual devices and the specs they implement.

use vstd::prelude::*;

use crate::builder::{if_absent, BuildError, Missing};
use crate::key::ValidKey;
use crate::language::LanguageMap;
use crate::specs::Spec;
use crate::vendor::Vendor;

verus! {

/// One device: its key, version, serial number, vendor, and the specs it provides.
#[derive(Debug, Clone, PartialEq)]
pub struct PeripheralManifest {
    pub key: ValidKey,
    pub version: semver::Version,
    pub uuid: ValidKey,
    pub vendor: Vendor,
    pub titles: LanguageMap,
    pub descriptions: LanguageMap,
    pub url: Option<url::Url>,
    pub support: Option<url::Url>,
    pub provides: Vec<Provider>,
}

/// Assembles a `PeripheralManifest`. `key`, `version`, `uuid` and `vendor` are required.
pub struct PeripheralManifestBuilder {
    pub key: Option<ValidKey>,
    pub version: Option<semver::Version>,
    pub uuid: Option<ValidKey>,
    pub vendor: Option<Vendor>,
    pub titles: Option<LanguageMap>,
    pub descriptions: Option<LanguageMap>,
    pub url: Option<url::Url>,
    pub support: Option<url::Url>,
    pub provides: Option<Vec<Provider>>,
}

impl PeripheralManifestBuilder {
    /// A builder with nothing set.
    pub fn new() -> (b: PeripheralManifestBuilder)
        ensures
            b.key is None,
            b.version is None,
            b.uuid is None,
            b.vendor is None,
            b.titles is None,
            b.descriptions is None,
            b.url is None,
            b.support is None,
            b.provides is None,
    {
        PeripheralManifestBuilder {
            key: None,
            version: None,
            uuid: None,
            vendor: None,
            titles: None,
            descriptions: None,
            url: None,
            support: None,
            provides: None,
        }
    }

    /// Sets `key`.
    pub fn key(self, key: ValidKey) -> (b: PeripheralManifestBuilder)
        ensures
            b == (PeripheralManifestBuilder { key: Some(key), ..self }),
    {
        PeripheralManifestBuilder { key: Some(key), ..self }
    }

    /// Sets `version`.
    pub fn version(self, version: semver::Version) -> (b: PeripheralManifestBuilder)
        ensures
            b == (PeripheralManifestBuilder { version: Some(version), ..self }),
    {
        PeripheralManifestBuilder { version: Some(version), ..self }
    }

    /// Sets `uuid`.
    pub fn uuid(self, uuid: ValidKey) -> (b: PeripheralManifestBuilder)
        ensures
            b == (PeripheralManifestBuilder { uuid: Some(uuid), ..self }),
    {
        PeripheralManifestBuilder { uuid: Some(uuid), ..self }
    }

    /// Sets `vendor`.
    pub fn vendor(self, vendor: Vendor) -> (b: PeripheralManifestBuilder)
        ensures
            b == (PeripheralManifestBuilder { vendor: Some(vendor), ..self }),
    {
        PeripheralManifestBuilder { vendor: Some(vendor), ..self }
    }

    /// Sets `titles`.
    pub fn titles(self, titles: LanguageMap) -> (b: PeripheralManifestBuilder)
        ensures
            b == (PeripheralManifestBuilder { titles: Some(titles), ..self }),
    {
        PeripheralManifestBuilder { titles: Some(titles), ..self }
    }

    /// Sets `descriptions`.
    pub fn descriptions(self, descriptions: LanguageMap) -> (b: PeripheralManifestBuilder)
        ensures
            b == (PeripheralManifestBuilder { descriptions: Some(descriptions), ..self }),
    {
        PeripheralManifestBuilder { descriptions: Some(descriptions), ..self }
    }

    /// Sets `url`.
    pub fn url(self, url: url::Url) -> (b: PeripheralManifestBuilder)
        ensures
            b == (PeripheralManifestBuilder { url: Some(url), ..self }),
    {
        PeripheralManifestBuilder { url: Some(url), ..self }
    }

    /// Sets `support`.
    pub fn support(self, support: url::Url) -> (b: PeripheralManifestBuilder)
        ensures
            b == (PeripheralManifestBuilder { support: Some(support), ..self }),
    {
        PeripheralManifestBuilder { support: Some(support), ..self }
    }

    /// Sets `provides`.
    pub fn provides(self, provides: Vec<Provider>) -> (b: PeripheralManifestBuilder)
        ensures
            b == (PeripheralManifestBuilder { provides: Some(provides), ..self }),
    {
        PeripheralManifestBuilder { provides: Some(provides), ..self }
    }

    /// The names of the required fields that are unset, in declaration order.
    pub open spec fn missing(&self) -> Seq<Seq<char>> {
        if_absent(self.key is None, "key"@)
            + if_absent(self.version is None, "version"@)
            + if_absent(self.uuid is None, "uuid"@)
            + if_absent(self.vendor is None, "vendor"@)
    }

    /// The `PeripheralManifest`, with defaults where optional fields were not
    /// set; an error naming every unset required field otherwise.
    pub fn build(self) -> (r: Result<PeripheralManifest, BuildError>)
        ensures
            r is Ok <==> self.missing().len() == 0,
            r matches Err(e) ==> e@ == self.missing(),
            r matches Ok(v) ==> {
                &&& Some(v.key) == self.key
                &&& Some(v.version) == self.version
                &&& Some(v.uuid) == self.uuid
                &&& Some(v.vendor) == self.vendor
                &&& self.titles matches Some(x) ==> v.titles == x
                &&& self.titles is None ==> v.titles@.len() == 0
                &&& self.descriptions matches Some(x) ==> v.descriptions == x
                &&& self.descriptions is None ==> v.descriptions@.len() == 0
                &&& v.url == self.url
                &&& v.support == self.support
                &&& self.provides matches Some(x) ==> v.provides == x
                &&& self.provides is None ==> v.provides@.len() == 0
            },
    {
        let mut missing = Missing::new();
        missing.note(self.key.is_none(), "key");
        missing.note(self.version.is_none(), "version");
        missing.note(self.uuid.is_none(), "uuid");
        missing.note(self.vendor.is_none(), "vendor");
        assert(missing@ =~= self.missing());
        match (self.key, self.version, self.uuid, self.vendor) {
            (Some(key), Some(version), Some(uuid), Some(vendor)) => Ok(
                PeripheralManifest {
                    key,
                    version,
                    uuid,
                    vendor,
                    titles: self.titles.unwrap_or(LanguageMap::new()),
                    descriptions: self.descriptions.unwrap_or(LanguageMap::new()),
                    url: self.url,
                    support: self.support,
                    provides: self.provides.unwrap_or(Vec::new()),
                },
            ),
            _ => Err(missing.into_error()),
        }
    }
}

/// A peripheral's implementation of a spec, under a peripheral-defined group name, with a multiplicity.
#[derive(Debug, Clone, PartialEq)]
pub struct Provider {
    pub name: ValidKey,
    pub spec: Spec,
    pub count: u8,
}

/// Assembles a `Provider`. Every field is required.
pub struct ProviderBuilder {
    pub name: Option<ValidKey>,
    pub spec: Option<Spec>,
    pub count: Option<u8>,
}

impl ProviderBuilder {
    /// A builder with nothing set.
    pub fn new() -> (b: ProviderBuilder)
        ensures
            b.name is None,
            b.spec is None,
            b.count is None,
    {
        ProviderBuilder {
            name: None,
            spec: None,
            count: None,
        }
    }

    /// Sets `name`.
    pub fn name(self, name: ValidKey) -> (b: ProviderBuilder)
        ensures
            b == (ProviderBuilder { name: Some(name), ..self }),
    {
        ProviderBuilder { name: Some(name), ..self }
    }

    /// Sets `spec`.
    pub fn spec(self, spec: Spec) -> (b: ProviderBuilder)
        ensures
            b == (ProviderBuilder { spec: Some(spec), ..self }),
    {
        ProviderBuilder { spec: Some(spec), ..self }
    }

    /// Sets `count`.
    pub fn count(self, count: u8) -> (b: ProviderBuilder)
        ensures
            b == (ProviderBuilder { count: Some(count), ..self }),
    {
        ProviderBuilder { count: Some(count), ..self }
    }

    /// The names of the required fields that are unset, in declaration order.
    pub open spec fn missing(&self) -> Seq<Seq<char>> {
        if_absent(self.name is None, "name"@)
            + if_absent(self.spec is None, "spec"@)
            + if_absent(self.count is None, "count"@)
    }

    /// The `Provider`, with defaults where optional fields were not
    /// set; an error naming every unset required field otherwise.
    pub fn build(self) -> (r: Result<Provider, BuildError>)
        ensures
            r is Ok <==> self.missing().len() == 0,
            r matches Err(e) ==> e@ == self.missing(),
            r matches Ok(v) ==> {
                &&& Some(v.name) == self.name
                &&& Some(v.spec) == self.spec
                &&& Some(v.count) == self.count
            },
    {
        let mut missing = Missing::new();
        missing.note(self.name.is_none(), "name");
        missing.note(self.spec.is_none(), "spec");
        missing.note(self.count.is_none(), "count");
        assert(missing@ =~= self.missing());
        match (self.name, self.spec, self.count) {
            (Some(name), Some(spec), Some(count)) => Ok(
                Provider {
                    name,
                    spec,
                    count,
                },
            ),
            _ => Err(missing.into_error()),
        }
    }
}

impl Default for PeripheralManifestBuilder {
    fn default() -> (b: PeripheralManifestBuilder)
        ensures
            b.key is None,
            b.version is None,
            b.uuid is None,
            b.vendor is None,
            b.titles is None,
            b.descriptions is None,
            b.url is None,
            b.support is None,
            b.provides is None,
    {
        PeripheralManifestBuilder::new()
    }
}

impl Default for ProviderBuilder {
    fn default() -> (b: ProviderBuilder)
        ensures
            b.name is None,
            b.spec is None,
            b.count is None,
    {
        ProviderBuilder::new()
    }
}

} // verus!
