//! A consumer's settings.

use vstd::prelude::*;

verus! {

/// The name of a consumer's settings file.
pub const CONFIG_FILENAME: &'static str = "consumer_settings";

/// A consumer's settings.
#[derive(Debug)]
pub struct Settings {
    pub consumer_authority: String,
    pub chariott_url: Option<String>,
    pub invehicle_digital_twin_url: Option<String>,
}

} // verus!
