//! Games: scenarios, the player roles in them, and what each role requires.

use vstd::prelude::*;

use crate::builder::{if_absent, BuildError, Missing};
use crate::key::ValidKey;
use crate::language::LanguageMap;
use crate::range::Range;
use crate::vendor::Vendor;

verus! {

/// A playable game, made of scenarios.
#[derive(Debug, Clone, PartialEq)]
pub struct GameManifest {
    pub titles: LanguageMap,
    pub descriptions: LanguageMap,
    pub version: semver::Version,
    pub url: Option<url::Url>,
    pub support: Option<url::Url>,
    pub vendor: Vendor,
    pub scenarios: Vec<Scenario>,
}

/// Assembles a `GameManifest`. `version` and `vendor` are required.
pub struct GameManifestBuilder {
    pub titles: Option<LanguageMap>,
    pub descriptions: Option<LanguageMap>,
    pub version: Option<semver::Version>,
    pub url: Option<url::Url>,
    pub support: Option<url::Url>,
    pub vendor: Option<Vendor>,
    pub scenarios: Option<Vec<Scenario>>,
}

impl GameManifestBuilder {
    /// A builder with nothing set.
    pub fn new() -> (b: GameManifestBuilder)
        ensures
            b.titles is None,
            b.descriptions is None,
            b.version is None,
            b.url is None,
            b.support is None,
            b.vendor is None,
            b.scenarios is None,
    {
        GameManifestBuilder {
            titles: None,
            descriptions: None,
            version: None,
            url: None,
            support: None,
            vendor: None,
            scenarios: None,
        }
    }

    /// Sets `titles`.
    pub fn titles(self, titles: LanguageMap) -> (b: GameManifestBuilder)
        ensures
            b == (GameManifestBuilder { titles: Some(titles), ..self }),
    {
        GameManifestBuilder { titles: Some(titles), ..self }
    }

    /// Sets `descriptions`.
    pub fn descriptions(self, descriptions: LanguageMap) -> (b: GameManifestBuilder)
        ensures
            b == (GameManifestBuilder { descriptions: Some(descriptions), ..self }),
    {
        GameManifestBuilder { descriptions: Some(descriptions), ..self }
    }

    /// Sets `version`.
    pub fn version(self, version: semver::Version) -> (b: GameManifestBuilder)
        ensures
            b == (GameManifestBuilder { version: Some(version), ..self }),
    {
        GameManifestBuilder { version: Some(version), ..self }
    }

    /// Sets `url`.
    pub fn url(self, url: url::Url) -> (b: GameManifestBuilder)
        ensures
            b == (GameManifestBuilder { url: Some(url), ..self }),
    {
        GameManifestBuilder { url: Some(url), ..self }
    }

    /// Sets `support`.
    pub fn support(self, support: url::Url) -> (b: GameManifestBuilder)
        ensures
            b == (GameManifestBuilder { support: Some(support), ..self }),
    {
        GameManifestBuilder { support: Some(support), ..self }
    }

    /// Sets `vendor`.
    pub fn vendor(self, vendor: Vendor) -> (b: GameManifestBuilder)
        ensures
            b == (GameManifestBuilder { vendor: Some(vendor), ..self }),
    {
        GameManifestBuilder { vendor: Some(vendor), ..self }
    }

    /// Sets `scenarios`.
    pub fn scenarios(self, scenarios: Vec<Scenario>) -> (b: GameManifestBuilder)
        ensures
            b == (GameManifestBuilder { scenarios: Some(scenarios), ..self }),
    {
        GameManifestBuilder { scenarios: Some(scenarios), ..self }
    }

    /// The names of the required fields that are unset, in declaration order.
    pub open spec fn missing(&self) -> Seq<Seq<char>> {
        if_absent(self.version is None, "version"@)
            + if_absent(self.vendor is None, "vendor"@)
    }

    /// The `GameManifest`, with defaults where optional fields were not
    /// set; an error naming every unset required field otherwise.
    pub fn build(self) -> (r: Result<GameManifest, BuildError>)
        ensures
            r is Ok <==> self.missing().len() == 0,
            r matches Err(e) ==> e@ == self.missing(),
            r matches Ok(v) ==> {
                &&& self.titles matches Some(x) ==> v.titles == x
                &&& self.titles is None ==> v.titles@.len() == 0
                &&& self.descriptions matches Some(x) ==> v.descriptions == x
                &&& self.descriptions is None ==> v.descriptions@.len() == 0
                &&& Some(v.version) == self.version
                &&& v.url == self.url
                &&& v.support == self.support
                &&& Some(v.vendor) == self.vendor
                &&& self.scenarios matches Some(x) ==> v.scenarios == x
                &&& self.scenarios is None ==> v.scenarios@.len() == 0
            },
    {
        let mut missing = Missing::new();
        missing.note(self.version.is_none(), "version");
        missing.note(self.vendor.is_none(), "vendor");
        assert(missing@ =~= self.missing());
        match (self.version, self.vendor) {
            (Some(version), Some(vendor)) => Ok(
                GameManifest {
                    titles: self.titles.unwrap_or(LanguageMap::new()),
                    descriptions: self.descriptions.unwrap_or(LanguageMap::new()),
                    version,
                    url: self.url,
                    support: self.support,
                    vendor,
                    scenarios: self.scenarios.unwrap_or(Vec::new()),
                },
            ),
            _ => Err(missing.into_error()),
        }
    }
}

/// One way to play a game, with its player roles.
#[derive(Debug, Clone, PartialEq)]
pub struct Scenario {
    pub name: ValidKey,
    pub titles: LanguageMap,
    pub descriptions: LanguageMap,
    pub players: Vec<ScenarioPlayer>,
}

/// Assembles a `Scenario`. Only `name` is required.
pub struct ScenarioBuilder {
    pub name: Option<ValidKey>,
    pub titles: Option<LanguageMap>,
    pub descriptions: Option<LanguageMap>,
    pub players: Option<Vec<ScenarioPlayer>>,
}

impl ScenarioBuilder {
    /// A builder with nothing set.
    pub fn new() -> (b: ScenarioBuilder)
        ensures
            b.name is None,
            b.titles is None,
            b.descriptions is None,
            b.players is None,
    {
        ScenarioBuilder {
            name: None,
            titles: None,
            descriptions: None,
            players: None,
        }
    }

    /// Sets `name`.
    pub fn name(self, name: ValidKey) -> (b: ScenarioBuilder)
        ensures
            b == (ScenarioBuilder { name: Some(name), ..self }),
    {
        ScenarioBuilder { name: Some(name), ..self }
    }

    /// Sets `titles`.
    pub fn titles(self, titles: LanguageMap) -> (b: ScenarioBuilder)
        ensures
            b == (ScenarioBuilder { titles: Some(titles), ..self }),
    {
        ScenarioBuilder { titles: Some(titles), ..self }
    }

    /// Sets `descriptions`.
    pub fn descriptions(self, descriptions: LanguageMap) -> (b: ScenarioBuilder)
        ensures
            b == (ScenarioBuilder { descriptions: Some(descriptions), ..self }),
    {
        ScenarioBuilder { descriptions: Some(descriptions), ..self }
    }

    /// Sets `players`.
    pub fn players(self, players: Vec<ScenarioPlayer>) -> (b: ScenarioBuilder)
        ensures
            b == (ScenarioBuilder { players: Some(players), ..self }),
    {
        ScenarioBuilder { players: Some(players), ..self }
    }

    /// The names of the required fields that are unset, in declaration order.
    pub open spec fn missing(&self) -> Seq<Seq<char>> {
        if_absent(self.name is None, "name"@)
    }

    /// The `Scenario`, with defaults where optional fields were not
    /// set; an error naming every unset required field otherwise.
    pub fn build(self) -> (r: Result<Scenario, BuildError>)
        ensures
            r is Ok <==> self.missing().len() == 0,
            r matches Err(e) ==> e@ == self.missing(),
            r matches Ok(v) ==> {
                &&& Some(v.name) == self.name
                &&& self.titles matches Some(x) ==> v.titles == x
                &&& self.titles is None ==> v.titles@.len() == 0
                &&& self.descriptions matches Some(x) ==> v.descriptions == x
                &&& self.descriptions is None ==> v.descriptions@.len() == 0
                &&& self.players matches Some(x) ==> v.players == x
                &&& self.players is None ==> v.players@.len() == 0
            },
    {
        let mut missing = Missing::new();
        missing.note(self.name.is_none(), "name");
        assert(missing@ =~= self.missing());
        match self.name {
            Some(name) => Ok(
                Scenario {
                    name,
                    titles: self.titles.unwrap_or(LanguageMap::new()),
                    descriptions: self.descriptions.unwrap_or(LanguageMap::new()),
                    players: self.players.unwrap_or(Vec::new()),
                },
            ),
            _ => Err(missing.into_error()),
        }
    }
}

/// A player role in a scenario: how many may take it, and the peripherals it needs.
#[derive(Debug, Clone, PartialEq)]
pub struct ScenarioPlayer {
    pub name: ValidKey,
    pub titles: LanguageMap,
    pub descriptions: LanguageMap,
    pub count: Range,
    pub io: Vec<Requirement>,
    pub playables: Vec<Requirement>,
}

/// Assembles a `ScenarioPlayer`. `name` and `count` are required.
pub struct ScenarioPlayerBuilder {
    pub name: Option<ValidKey>,
    pub titles: Option<LanguageMap>,
    pub descriptions: Option<LanguageMap>,
    pub count: Option<Range>,
    pub io: Option<Vec<Requirement>>,
    pub playables: Option<Vec<Requirement>>,
}

impl ScenarioPlayerBuilder {
    /// A builder with nothing set.
    pub fn new() -> (b: ScenarioPlayerBuilder)
        ensures
            b.name is None,
            b.titles is None,
            b.descriptions is None,
            b.count is None,
            b.io is None,
            b.playables is None,
    {
        ScenarioPlayerBuilder {
            name: None,
            titles: None,
            descriptions: None,
            count: None,
            io: None,
            playables: None,
        }
    }

    /// Sets `name`.
    pub fn name(self, name: ValidKey) -> (b: ScenarioPlayerBuilder)
        ensures
            b == (ScenarioPlayerBuilder { name: Some(name), ..self }),
    {
        ScenarioPlayerBuilder { name: Some(name), ..self }
    }

    /// Sets `titles`.
    pub fn titles(self, titles: LanguageMap) -> (b: ScenarioPlayerBuilder)
        ensures
            b == (ScenarioPlayerBuilder { titles: Some(titles), ..self }),
    {
        ScenarioPlayerBuilder { titles: Some(titles), ..self }
    }

    /// Sets `descriptions`.
    pub fn descriptions(self, descriptions: LanguageMap) -> (b: ScenarioPlayerBuilder)
        ensures
            b == (ScenarioPlayerBuilder { descriptions: Some(descriptions), ..self }),
    {
        ScenarioPlayerBuilder { descriptions: Some(descriptions), ..self }
    }

    /// Sets `count`.
    pub fn count(self, count: Range) -> (b: ScenarioPlayerBuilder)
        ensures
            b == (ScenarioPlayerBuilder { count: Some(count), ..self }),
    {
        ScenarioPlayerBuilder { count: Some(count), ..self }
    }

    /// Sets `io`.
    pub fn io(self, io: Vec<Requirement>) -> (b: ScenarioPlayerBuilder)
        ensures
            b == (ScenarioPlayerBuilder { io: Some(io), ..self }),
    {
        ScenarioPlayerBuilder { io: Some(io), ..self }
    }

    /// Sets `playables`.
    pub fn playables(self, playables: Vec<Requirement>) -> (b: ScenarioPlayerBuilder)
        ensures
            b == (ScenarioPlayerBuilder { playables: Some(playables), ..self }),
    {
        ScenarioPlayerBuilder { playables: Some(playables), ..self }
    }

    /// The names of the required fields that are unset, in declaration order.
    pub open spec fn missing(&self) -> Seq<Seq<char>> {
        if_absent(self.name is None, "name"@)
            + if_absent(self.count is None, "count"@)
    }

    /// The `ScenarioPlayer`, with defaults where optional fields were not
    /// set; an error naming every unset required field otherwise.
    pub fn build(self) -> (r: Result<ScenarioPlayer, BuildError>)
        ensures
            r is Ok <==> self.missing().len() == 0,
            r matches Err(e) ==> e@ == self.missing(),
            r matches Ok(v) ==> {
                &&& Some(v.name) == self.name
                &&& self.titles matches Some(x) ==> v.titles == x
                &&& self.titles is None ==> v.titles@.len() == 0
                &&& self.descriptions matches Some(x) ==> v.descriptions == x
                &&& self.descriptions is None ==> v.descriptions@.len() == 0
                &&& Some(v.count) == self.count
                &&& self.io matches Some(x) ==> v.io == x
                &&& self.io is None ==> v.io@.len() == 0
                &&& self.playables matches Some(x) ==> v.playables == x
                &&& self.playables is None ==> v.playables@.len() == 0
            },
    {
        let mut missing = Missing::new();
        missing.note(self.name.is_none(), "name");
        missing.note(self.count.is_none(), "count");
        assert(missing@ =~= self.missing());
        match (self.name, self.count) {
            (Some(name), Some(count)) => Ok(
                ScenarioPlayer {
                    name,
                    titles: self.titles.unwrap_or(LanguageMap::new()),
                    descriptions: self.descriptions.unwrap_or(LanguageMap::new()),
                    count,
                    io: self.io.unwrap_or(Vec::new()),
                    playables: self.playables.unwrap_or(Vec::new()),
                },
            ),
            _ => Err(missing.into_error()),
        }
    }
}

/// A game's need for a capability of some spec, under a game-defined group name.
#[derive(Debug, Clone, PartialEq)]
pub struct Requirement {
    pub name: ValidKey,
    pub spec: url::Url,
    pub version: semver::VersionReq,
    pub count: u32,
    pub features: Vec<ValidKey>,
}

/// Assembles a `Requirement`. Every field but `features` is required.
pub struct RequirementBuilder {
    pub name: Option<ValidKey>,
    pub spec: Option<url::Url>,
    pub version: Option<semver::VersionReq>,
    pub count: Option<u32>,
    pub features: Option<Vec<ValidKey>>,
}

impl RequirementBuilder {
    /// A builder with nothing set.
    pub fn new() -> (b: RequirementBuilder)
        ensures
            b.name is None,
            b.spec is None,
            b.version is None,
            b.count is None,
            b.features is None,
    {
        RequirementBuilder {
            name: None,
            spec: None,
            version: None,
            count: None,
            features: None,
        }
    }

    /// Sets `name`.
    pub fn name(self, name: ValidKey) -> (b: RequirementBuilder)
        ensures
            b == (RequirementBuilder { name: Some(name), ..self }),
    {
        RequirementBuilder { name: Some(name), ..self }
    }

    /// Sets `spec`.
    pub fn spec(self, spec: url::Url) -> (b: RequirementBuilder)
        ensures
            b == (RequirementBuilder { spec: Some(spec), ..self }),
    {
        RequirementBuilder { spec: Some(spec), ..self }
    }

    /// Sets `version`.
    pub fn version(self, version: semver::VersionReq) -> (b: RequirementBuilder)
        ensures
            b == (RequirementBuilder { version: Some(version), ..self }),
    {
        RequirementBuilder { version: Some(version), ..self }
    }

    /// Sets `count`.
    pub fn count(self, count: u32) -> (b: RequirementBuilder)
        ensures
            b == (RequirementBuilder { count: Some(count), ..self }),
    {
        RequirementBuilder { count: Some(count), ..self }
    }

    /// Sets `features`.
    pub fn features(self, features: Vec<ValidKey>) -> (b: RequirementBuilder)
        ensures
            b == (RequirementBuilder { features: Some(features), ..self }),
    {
        RequirementBuilder { features: Some(features), ..self }
    }

    /// The names of the required fields that are unset, in declaration order.
    pub open spec fn missing(&self) -> Seq<Seq<char>> {
        if_absent(self.name is None, "name"@)
            + if_absent(self.spec is None, "spec"@)
            + if_absent(self.version is None, "version"@)
            + if_absent(self.count is None, "count"@)
    }

    /// The `Requirement`, with defaults where optional fields were not
    /// set; an error naming every unset required field otherwise.
    pub fn build(self) -> (r: Result<Requirement, BuildError>)
        ensures
            r is Ok <==> self.missing().len() == 0,
            r matches Err(e) ==> e@ == self.missing(),
            r matches Ok(v) ==> {
                &&& Some(v.name) == self.name
                &&& Some(v.spec) == self.spec
                &&& Some(v.version) == self.version
                &&& Some(v.count) == self.count
                &&& self.features matches Some(x) ==> v.features == x
                &&& self.features is None ==> v.features@.len() == 0
            },
    {
        let mut missing = Missing::new();
        missing.note(self.name.is_none(), "name");
        missing.note(self.spec.is_none(), "spec");
        missing.note(self.version.is_none(), "version");
        missing.note(self.count.is_none(), "count");
        assert(missing@ =~= self.missing());
        match (self.name, self.spec, self.version, self.count) {
            (Some(name), Some(spec), Some(version), Some(count)) => Ok(
                Requirement {
                    name,
                    spec,
                    version,
                    count,
                    features: self.features.unwrap_or(Vec::new()),
                },
            ),
            _ => Err(missing.into_error()),
        }
    }
}

impl Default for GameManifestBuilder {
    fn default() -> (b: GameManifestBuilder)
        ensures
            b.titles is None,
            b.descriptions is None,
            b.version is None,
            b.url is None,
            b.support is None,
            b.vendor is None,
            b.scenarios is None,
    {
        GameManifestBuilder::new()
    }
}

impl Default for ScenarioBuilder {
    fn default() -> (b: ScenarioBuilder)
        ensures
            b.name is None,
            b.titles is None,
            b.descriptions is None,
            b.players is None,
    {
        ScenarioBuilder::new()
    }
}

impl Default for ScenarioPlayerBuilder {
    fn default() -> (b: ScenarioPlayerBuilder)
        ensures
            b.name is None,
            b.titles is None,
            b.descriptions is None,
            b.count is None,
            b.io is None,
            b.playables is None,
    {
        ScenarioPlayerBuilder::new()
    }
}

impl Default for RequirementBuilder {
    fn default() -> (b: RequirementBuilder)
        ensures
            b.name is None,
            b.spec is None,
            b.version is None,
            b.count is None,
            b.features is None,
    {
        RequirementBuilder::new()
    }
}

} // verus!
