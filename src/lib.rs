//! Typed document model for tabletop-hardware manifests: vendors, capability
//! specs, peripherals and games, together with the range notation used for
//! player and item counts.

pub mod builder;
pub mod fixtures;
pub mod game;
pub mod key;
pub mod language;
pub mod manifest;
pub mod peripheral;
pub mod range;
pub mod scalar;
pub mod schema;
pub mod specs;
pub mod table;
pub mod vendor;

pub use manifest::Manifest;
