//! A provider's settings.

use vstd::prelude::*;

verus! {

/// The name of a provider's settings file, unless another is given.
pub const DEFAULT_CONFIG_FILENAME: &'static str = "provider_settings";

/// A provider's settings.
#[derive(Debug)]
pub struct Settings {
    pub provider_authority: String,
    pub chariott_uri: Option<String>,
    pub invehicle_digital_twin_uri: Option<String>,
}

} // verus!
