use manifests::fixtures::{load, Fixtures};
use manifests::game::{GameManifestBuilder, RequirementBuilder, ScenarioBuilder, ScenarioPlayerBuilder};
use manifests::key::{KeyError, ValidKey};
use manifests::language::LanguageMap;
use manifests::peripheral::{PeripheralManifestBuilder, ProviderBuilder};
use manifests::range::Range;
use manifests::schema::{DataType, PropertyBuilder, Value};
use manifests::specs::{FeatureBuilder, SpecBuilder};
use manifests::vendor::{Vendor, VendorBuilder, VendorError};
use manifests::Manifest;

fn key(text: &str) -> ValidKey {
    ValidKey::new(text).unwrap()
}

fn site() -> url::Url {
    url::Url::parse("https://example.com").unwrap()
}

fn vendor() -> Vendor {
    VendorBuilder::new().name(key("ravenfire")).build().unwrap()
}

fn missing(e: &manifests::builder::BuildError) -> Vec<&str> {
    e.missing().iter().map(|s| s.as_str()).collect()
}

#[test]
fn keys_accept_the_safe_characters() {
    assert_eq!(key("rf.dice_pad-2").as_str(), "rf.dice_pad-2");
}

#[test]
fn keys_refuse_empty_and_unsafe_text() {
    assert_eq!(ValidKey::new(""), Err(KeyError::Empty));
    assert_eq!(ValidKey::new("a/b"), Err(KeyError::BadCharacter(1)));
    assert_eq!(ValidKey::new("ok key"), Err(KeyError::BadCharacter(2)));
    assert_eq!(ValidKey::new("é"), Err(KeyError::BadCharacter(0)));
}

#[test]
fn vendor_new_sets_name_and_site() {
    let v = Vendor::new("ravenfire", "https://ravenfire.example/").unwrap();
    assert_eq!(v.name.as_str(), "ravenfire");
    assert_eq!(v.url.as_ref().map(|u| u.as_str()), Some("https://ravenfire.example/"));
    assert!(v.titles.is_empty() && v.descriptions.is_empty());
    assert!(v.email.is_none() && v.support.is_none());
}

#[test]
fn vendor_new_refuses_a_bad_key_or_url() {
    assert_eq!(
        Vendor::new("raven fire", "https://ravenfire.example/"),
        Err(VendorError::Key(KeyError::BadCharacter(5)))
    );
    assert!(matches!(Vendor::new("ravenfire", "not a url"), Err(VendorError::Url(_))));
}

#[test]
fn a_builder_names_its_missing_field() {
    let e = VendorBuilder::new().build().unwrap_err();
    assert_eq!(missing(&e), vec!["name"]);
    let e = SpecBuilder::new().vendor(vendor()).build().unwrap_err();
    assert_eq!(missing(&e), vec!["version", "url"]);
    let e = RequirementBuilder::new().count(2).build().unwrap_err();
    assert_eq!(missing(&e), vec!["name", "spec", "version"]);
    let e = ScenarioPlayerBuilder::new().name(key("hero")).build().unwrap_err();
    assert_eq!(missing(&e), vec!["count"]);
    let e = PeripheralManifestBuilder::new().build().unwrap_err();
    assert_eq!(missing(&e), vec!["key", "version", "uuid", "vendor"]);
    let e = ProviderBuilder::new().build().unwrap_err();
    assert_eq!(missing(&e), vec!["name", "spec", "count"]);
}

#[test]
fn required_fields_alone_give_the_defaults() {
    let v = VendorBuilder::new().name(key("ravenfire")).build().unwrap();
    assert!(v.titles.is_empty() && v.descriptions.is_empty());
    assert!(v.url.is_none() && v.email.is_none() && v.support.is_none());

    let p = PropertyBuilder::new().key(key("facing")).data_type(DataType::String).build().unwrap();
    assert!(!p.optional);
    assert!(p.enumerations.is_empty() && p.titles.is_empty());

    let f = FeatureBuilder::new().key(key("tilt")).build().unwrap();
    assert!(f.properties.is_empty() && f.descriptions.is_empty());

    let s = SpecBuilder::new()
        .version(semver::Version::new(1, 0, 0))
        .url(site())
        .vendor(vendor())
        .build()
        .unwrap();
    assert!(s.properties.is_empty() && s.features.is_empty() && s.titles.is_empty());

    let g = GameManifestBuilder::new()
        .version(semver::Version::new(0, 1, 0))
        .vendor(vendor())
        .build()
        .unwrap();
    assert!(g.scenarios.is_empty() && g.url.is_none() && g.support.is_none());
    assert!(g.validate().is_ok());

    let sc = ScenarioBuilder::new().name(key("duel")).build().unwrap();
    assert!(sc.players.is_empty());

    let pl = ScenarioPlayerBuilder::new()
        .name(key("hero"))
        .count(Range::parse("2-4[even]").unwrap())
        .build()
        .unwrap();
    assert!(pl.io.is_empty() && pl.playables.is_empty());
    assert_eq!(pl.count.to_string(), "2-4[even]");

    let r = RequirementBuilder::new()
        .name(key("power_ups"))
        .spec(site())
        .version(semver::VersionReq::parse("^1").unwrap())
        .count(5)
        .build()
        .unwrap();
    assert!(r.features.is_empty());
}

#[test]
fn builders_keep_what_was_set() {
    let mut titles = LanguageMap::new();
    titles.insert("en", "Screen");
    let spec = SpecBuilder::new()
        .version(semver::Version::new(1, 2, 3))
        .url(site())
        .vendor(vendor())
        .build()
        .unwrap();
    let provider = ProviderBuilder::new().name(key("main")).spec(spec).count(3).build().unwrap();
    let p = PeripheralManifestBuilder::new()
        .key(key("rf.screen"))
        .version(semver::Version::new(1, 0, 0))
        .uuid(key("0001"))
        .vendor(vendor())
        .titles(titles)
        .support(site())
        .provides(vec![provider.clone()])
        .build()
        .unwrap();
    assert_eq!(p.titles.get("en"), Some("Screen"));
    assert_eq!(p.provides, vec![provider]);
    assert_eq!(p.support, Some(site()));
    assert!(p.url.is_none());
    assert!(p.validate().is_ok());
}

#[test]
fn language_maps_look_up_the_latest_text() {
    let mut m = LanguageMap::new();
    assert_eq!(m.get("en"), None);
    m.insert("en", "Test");
    m.insert("fr", "Essai");
    m.insert("en", "Trial");
    assert_eq!(m.get("en"), Some("Trial"));
    assert_eq!(m.get("fr"), Some("Essai"));
    assert_eq!(m.get("de"), None);
}

#[test]
fn enumerations_constrain_literals() {
    let p = PropertyBuilder::new()
        .key(key("facing"))
        .data_type(DataType::String)
        .enumerations(vec![Value::String("up".to_string()), Value::String("down".to_string())])
        .build()
        .unwrap();
    assert!(p.admits(&Value::String("up".to_string())));
    assert!(!p.admits(&Value::String("left".to_string())));
    assert!(!p.admits(&Value::Integer(4)));
    let open = PropertyBuilder::new().key(key("strength")).data_type(DataType::Float).build().unwrap();
    assert!(open.admits(&Value::Integer(4)));
}

#[test]
fn literals_compare_by_tag_and_payload() {
    assert_eq!(Value::Integer(4), Value::Integer(4));
    assert_ne!(Value::Integer(4), Value::String("4".to_string()));
    assert_eq!(Value::String("up".to_string()), Value::String("up".to_string()));
}

#[test]
fn fixtures_are_found_by_name() {
    let mut f = Fixtures::new();
    let name = "examples/peripherals/rf.screen/rf.screen.lock.toml";
    f.insert(name, "key = \"rf.screen\"\n");
    assert_eq!(load(&f, name), Some("key = \"rf.screen\"\n"));
    assert_eq!(load(&f, "examples/games/none/game.lock.toml"), None);
    f.insert(name, "key = \"rf.screen2\"\n");
    assert_eq!(load(&f, name), Some("key = \"rf.screen2\"\n"));
}

#[test]
fn language_maps_ignore_the_order_of_texts() {
    let mut a = LanguageMap::new();
    a.insert("en", "Screen");
    a.insert("fr", "Écran");
    let mut b = LanguageMap::new();
    b.insert("fr", "Écran");
    b.insert("en", "Display");
    assert_ne!(a, b);
    b.insert("en", "Screen");
    assert_eq!(a, b);
    assert_ne!(a, LanguageMap::new());
    assert_eq!(LanguageMap::new(), LanguageMap::new());
}

#[test]
fn default_builders_start_empty() {
    let e = ScenarioBuilder::default().build().unwrap_err();
    assert_eq!(missing(&e), vec!["name"]);
    let e = PropertyBuilder::default().build().unwrap_err();
    assert_eq!(missing(&e), vec!["key", "data_type"]);
    let e = GameManifestBuilder::default().build().unwrap_err();
    assert_eq!(missing(&e), vec!["version", "vendor"]);
    let e = FeatureBuilder::default().build().unwrap_err();
    assert_eq!(missing(&e), vec!["key"]);
}

#[test]
fn effective_properties_add_the_features() {
    let prop = |k: &str| PropertyBuilder::new().key(key(k)).data_type(DataType::Integer).build().unwrap();
    let led = FeatureBuilder::new().key(key("led")).properties(vec![prop("color"), prop("brightness")]).build().unwrap();
    let tilt = FeatureBuilder::new().key(key("tilt")).properties(vec![prop("angle")]).build().unwrap();
    let none = FeatureBuilder::new().key(key("none")).build().unwrap();
    let s = SpecBuilder::new()
        .version(semver::Version::new(1, 0, 0))
        .url(site())
        .vendor(vendor())
        .properties(vec![prop("size")])
        .features(vec![led, none, tilt])
        .build()
        .unwrap();
    let keys: Vec<&str> = s.effective_properties().iter().map(|p| p.key.as_str()).collect();
    assert_eq!(keys, vec!["size", "color", "brightness", "angle"]);
    let bare = SpecBuilder::new().version(semver::Version::new(1, 0, 0)).url(site()).vendor(vendor()).build().unwrap();
    assert!(bare.effective_properties().is_empty());
}

#[test]
fn a_vendor_displays_as_its_key() {
    assert_eq!(vendor().to_string(), "ravenfire");
}

#[test]
fn emails_are_checked_by_the_address_parser() {
    let address = manifests::scalar::parse_email("support@ravenfire.example").unwrap();
    assert_eq!(address.as_str(), "support@ravenfire.example");
    assert!(manifests::scalar::parse_email("not an address").is_err());
    assert!(manifests::scalar::parse_email("").is_err());
    let v = VendorBuilder::new().name(key("ravenfire")).email(address.clone()).build().unwrap();
    assert_eq!(v.email.map(|e| e.as_str().to_string()), Some("support@ravenfire.example".to_string()));
}
