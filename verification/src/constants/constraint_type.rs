//! Recognized constraint types for subscribe requests.

use vstd::prelude::*;

verus! {

pub const FREQUENCY_MS: &'static str = "frequency_ms";

} // verus!
