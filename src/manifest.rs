//! What every top-level manifest offers.

use vstd::prelude::*;

use crate::game::GameManifest;
use crate::peripheral::PeripheralManifest;
use crate::specs::Spec;

verus! {

/// A top-level manifest: a game, a peripheral or a spec.
pub trait Manifest {
    /// Checks the manifest's cross-entity consistency: `Ok` when it holds,
    /// otherwise one description per failed rule, in order.
    fn validate(&self) -> Result<(), Vec<String>>;
}

// No cross-entity rule is defined yet, so every manifest passes.
impl Manifest for GameManifest {
    fn validate(&self) -> Result<(), Vec<String>> {
        Ok(())
    }
}

impl Manifest for PeripheralManifest {
    fn validate(&self) -> Result<(), Vec<String>> {
        Ok(())
    }
}

impl Manifest for Spec {
    fn validate(&self) -> Result<(), Vec<String>> {
        Ok(())
    }
}

} // verus!
