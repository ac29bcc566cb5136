//! Supported digital twin protocols.

use vstd::prelude::*;

verus! {

pub const GRPC: &'static str = "grpc";
pub const MQTT: &'static str = "mqtt";

} // verus!
