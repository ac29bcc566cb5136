//! The streaming consumer's settings.

use vstd::prelude::*;

verus! {

/// The name of the streaming consumer's settings file.
pub const CONFIG_FILENAME: &'static str = "streaming_consumer_settings";

/// The streaming consumer's settings.
#[derive(Debug)]
pub struct Settings {
    pub chariott_uri: Option<String>,
    pub invehicle_digital_twin_uri: Option<String>,
    pub number_of_images: u16,
}

} // verus!
