//! Capability contracts that peripherals implement and games require.

use vstd::prelude::*;

use crate::builder::{if_absent, BuildError, Missing};
use crate::key::ValidKey;
use crate::language::LanguageMap;
use crate::schema::Property;
use crate::vendor::Vendor;

verus! {

/// A pointer to a spec by URL and version, with the features used from it.
#[derive(Debug, Clone, PartialEq)]
pub struct SpecReference {
    pub url: url::Url,
    pub version: semver::Version,
    pub features: Vec<ValidKey>,
}

/// A versioned contract of properties and features.
#[derive(Debug, Clone, PartialEq)]
pub struct Spec {
    pub version: semver::Version,
    pub url: url::Url,
    pub vendor: Vendor,
    pub titles: LanguageMap,
    pub descriptions: LanguageMap,
    pub properties: Vec<Property>,
    pub features: Vec<Feature>,
}

/// Assembles a `Spec`. `version`, `url` and `vendor` are required.
pub struct SpecBuilder {
    pub version: Option<semver::Version>,
    pub url: Option<url::Url>,
    pub vendor: Option<Vendor>,
    pub titles: Option<LanguageMap>,
    pub descriptions: Option<LanguageMap>,
    pub properties: Option<Vec<Property>>,
    pub features: Option<Vec<Feature>>,
}

impl SpecBuilder {
    /// A builder with nothing set.
    pub fn new() -> (b: SpecBuilder)
        ensures
            b.version is None,
            b.url is None,
            b.vendor is None,
            b.titles is None,
            b.descriptions is None,
            b.properties is None,
            b.features is None,
    {
        SpecBuilder {
            version: None,
            url: None,
            vendor: None,
            titles: None,
            descriptions: None,
            properties: None,
            features: None,
        }
    }

    /// Sets `version`.
    pub fn version(self, version: semver::Version) -> (b: SpecBuilder)
        ensures
            b == (SpecBuilder { version: Some(version), ..self }),
    {
        SpecBuilder { version: Some(version), ..self }
    }

    /// Sets `url`.
    pub fn url(self, url: url::Url) -> (b: SpecBuilder)
        ensures
            b == (SpecBuilder { url: Some(url), ..self }),
    {
        SpecBuilder { url: Some(url), ..self }
    }

    /// Sets `vendor`.
    pub fn vendor(self, vendor: Vendor) -> (b: SpecBuilder)
        ensures
            b == (SpecBuilder { vendor: Some(vendor), ..self }),
    {
        SpecBuilder { vendor: Some(vendor), ..self }
    }

    /// Sets `titles`.
    pub fn titles(self, titles: LanguageMap) -> (b: SpecBuilder)
        ensures
            b == (SpecBuilder { titles: Some(titles), ..self }),
    {
        SpecBuilder { titles: Some(titles), ..self }
    }

    /// Sets `descriptions`.
    pub fn descriptions(self, descriptions: LanguageMap) -> (b: SpecBuilder)
        ensures
            b == (SpecBuilder { descriptions: Some(descriptions), ..self }),
    {
        SpecBuilder { descriptions: Some(descriptions), ..self }
    }

    /// Sets `properties`.
    pub fn properties(self, properties: Vec<Property>) -> (b: SpecBuilder)
        ensures
            b == (SpecBuilder { properties: Some(properties), ..self }),
    {
        SpecBuilder { properties: Some(properties), ..self }
    }

    /// Sets `features`.
    pub fn features(self, features: Vec<Feature>) -> (b: SpecBuilder)
        ensures
            b == (SpecBuilder { features: Some(features), ..self }),
    {
        SpecBuilder { features: Some(features), ..self }
    }

    /// The names of the required fields that are unset, in declaration order.
    pub open spec fn missing(&self) -> Seq<Seq<char>> {
        if_absent(self.version is None, "version"@)
            + if_absent(self.url is None, "url"@)
            + if_absent(self.vendor is None, "vendor"@)
    }

    /// The `Spec`, with defaults where optional fields were not
    /// set; an error naming every unset required field otherwise.
    pub fn build(self) -> (r: Result<Spec, BuildError>)
        ensures
            r is Ok <==> self.missing().len() == 0,
            r matches Err(e) ==> e@ == self.missing(),
            r matches Ok(v) ==> {
                &&& Some(v.version) == self.version
                &&& Some(v.url) == self.url
                &&& Some(v.vendor) == self.vendor
                &&& self.titles matches Some(x) ==> v.titles == x
                &&& self.titles is None ==> v.titles@.len() == 0
                &&& self.descriptions matches Some(x) ==> v.descriptions == x
                &&& self.descriptions is None ==> v.descriptions@.len() == 0
                &&& self.properties matches Some(x) ==> v.properties == x
                &&& self.properties is None ==> v.properties@.len() == 0
                &&& self.features matches Some(x) ==> v.features == x
                &&& self.features is None ==> v.features@.len() == 0
            },
    {
        let mut missing = Missing::new();
        missing.note(self.version.is_none(), "version");
        missing.note(self.url.is_none(), "url");
        missing.note(self.vendor.is_none(), "vendor");
        assert(missing@ =~= self.missing());
        match (self.version, self.url, self.vendor) {
            (Some(version), Some(url), Some(vendor)) => Ok(
                Spec {
                    version,
                    url,
                    vendor,
                    titles: self.titles.unwrap_or(LanguageMap::new()),
                    descriptions: self.descriptions.unwrap_or(LanguageMap::new()),
                    properties: self.properties.unwrap_or(Vec::new()),
                    features: self.features.unwrap_or(Vec::new()),
                },
            ),
            _ => Err(missing.into_error()),
        }
    }
}

/// A purely additive bundle of properties attached to a spec.
#[derive(Debug, Clone, PartialEq)]
pub struct Feature {
    pub key: ValidKey,
    pub titles: LanguageMap,
    pub descriptions: LanguageMap,
    pub properties: Vec<Property>,
}

/// Assembles a `Feature`. Only `key` is required.
pub struct FeatureBuilder {
    pub key: Option<ValidKey>,
    pub titles: Option<LanguageMap>,
    pub descriptions: Option<LanguageMap>,
    pub properties: Option<Vec<Property>>,
}

impl FeatureBuilder {
    /// A builder with nothing set.
    pub fn new() -> (b: FeatureBuilder)
        ensures
            b.key is None,
            b.titles is None,
            b.descriptions is None,
            b.properties is None,
    {
        FeatureBuilder {
            key: None,
            titles: None,
            descriptions: None,
            properties: None,
        }
    }

    /// Sets `key`.
    pub fn key(self, key: ValidKey) -> (b: FeatureBuilder)
        ensures
            b == (FeatureBuilder { key: Some(key), ..self }),
    {
        FeatureBuilder { key: Some(key), ..self }
    }

    /// Sets `titles`.
    pub fn titles(self, titles: LanguageMap) -> (b: FeatureBuilder)
        ensures
            b == (FeatureBuilder { titles: Some(titles), ..self }),
    {
        FeatureBuilder { titles: Some(titles), ..self }
    }

    /// Sets `descriptions`.
    pub fn descriptions(self, descriptions: LanguageMap) -> (b: FeatureBuilder)
        ensures
            b == (FeatureBuilder { descriptions: Some(descriptions), ..self }),
    {
        FeatureBuilder { descriptions: Some(descriptions), ..self }
    }

    /// Sets `properties`.
    pub fn properties(self, properties: Vec<Property>) -> (b: FeatureBuilder)
        ensures
            b == (FeatureBuilder { properties: Some(properties), ..self }),
    {
        FeatureBuilder { properties: Some(properties), ..self }
    }

    /// The names of the required fields that are unset, in declaration order.
    pub open spec fn missing(&self) -> Seq<Seq<char>> {
        if_absent(self.key is None, "key"@)
    }

    /// The `Feature`, with defaults where optional fields were not
    /// set; an error naming every unset required field otherwise.
    pub fn build(self) -> (r: Result<Feature, BuildError>)
        ensures
            r is Ok <==> self.missing().len() == 0,
            r matches Err(e) ==> e@ == self.missing(),
            r matches Ok(v) ==> {
                &&& Some(v.key) == self.key
                &&& self.titles matches Some(x) ==> v.titles == x
                &&& self.titles is None ==> v.titles@.len() == 0
                &&& self.descriptions matches Some(x) ==> v.descriptions == x
                &&& self.descriptions is None ==> v.descriptions@.len() == 0
                &&& self.properties matches Some(x) ==> v.properties == x
                &&& self.properties is None ==> v.properties@.len() == 0
            },
    {
        let mut missing = Missing::new();
        missing.note(self.key.is_none(), "key");
        assert(missing@ =~= self.missing());
        match self.key {
            Some(key) => Ok(
                Feature {
                    key,
                    titles: self.titles.unwrap_or(LanguageMap::new()),
                    descriptions: self.descriptions.unwrap_or(LanguageMap::new()),
                    properties: self.properties.unwrap_or(Vec::new()),
                },
            ),
            _ => Err(missing.into_error()),
        }
    }
}

impl Default for SpecBuilder {
    fn default() -> (b: SpecBuilder)
        ensures
            b.version is None,
            b.url is None,
            b.vendor is None,
            b.titles is None,
            b.descriptions is None,
            b.properties is None,
            b.features is None,
    {
        SpecBuilder::new()
    }
}

impl Default for FeatureBuilder {
    fn default() -> (b: FeatureBuilder)
        ensures
            b.key is None,
            b.titles is None,
            b.descriptions is None,
            b.properties is None,
    {
        FeatureBuilder::new()
    }
}

/// A spec's own properties followed by those of each of its features, in order.
pub open spec fn effective_properties(own: Seq<Property>, features: Seq<Feature>) -> Seq<Property>
    decreases features.len(),
{
    if features.len() == 0 {
        own
    } else {
        effective_properties(own, features.drop_last()) + features.last().properties@
    }
}

impl Spec {
    /// Every property the spec exposes: its own, then those of each listed
    /// feature, in order.
    pub fn effective_properties(&self) -> (r: Vec<&Property>)
        ensures
            r@.len() == effective_properties(self.properties@, self.features@).len(),
            forall|k: int| 0 <= k < r@.len() ==> *r@[k] == effective_properties(self.properties@, self.features@)[k],
    {
        let mut out: Vec<&Property> = Vec::new();
        let mut i: usize = 0;
        while i < self.properties.len()
            invariant
                i <= self.properties@.len(),
                out@.len() == i,
                forall|k: int| 0 <= k < i ==> *out@[k] == self.properties@[k],
            decreases self.properties@.len() - i,
        {
            out.push(&self.properties[i]);
            i = i + 1;
        }
        let mut f: usize = 0;
        while f < self.features.len()
            invariant
                f <= self.features@.len(),
                out@.len() == effective_properties(self.properties@, self.features@.subrange(0, f as int)).len(),
                forall|k: int| 0 <= k < out@.len() ==> *out@[k] == effective_properties(
                    self.properties@,
                    self.features@.subrange(0, f as int),
                )[k],
            decreases self.features@.len() - f,
        {
            let ghost before = effective_properties(self.properties@, self.features@.subrange(0, f as int));
            let feature = &self.features[f];
            assert(self.features@.subrange(0, f + 1).drop_last() =~= self.features@.subrange(0, f as int));
            let ghost after = effective_properties(self.properties@, self.features@.subrange(0, f + 1));
            assert(after == before + feature.properties@);
            let mut j: usize = 0;
            while j < feature.properties.len()
                invariant
                    j <= feature.properties@.len(),
                    out@.len() == before.len() + j,
                    after == before + feature.properties@,
                    forall|k: int| 0 <= k < out@.len() ==> *out@[k] == after[k],
                decreases feature.properties@.len() - j,
            {
                out.push(&feature.properties[j]);
                j = j + 1;
            }
            f = f + 1;
        }
        assert(self.features@.subrange(0, self.features@.len() as int) =~= self.features@);
        out
    }
}

} // verus!
