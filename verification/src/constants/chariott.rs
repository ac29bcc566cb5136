//! How the in-vehicle digital twin service is registered with Chariott.

use vstd::prelude::*;

verus! {

pub const INVEHICLE_DIGITAL_TWIN_SERVICE_NAMESPACE: &'static str = "sdv.ibeji";
pub const INVEHICLE_DIGITAL_TWIN_SERVICE_NAME: &'static str = "invehicle_digital_twin";
pub const INVEHICLE_DIGITAL_TWIN_SERVICE_VERSION: &'static str = "1.0";
pub const INVEHICLE_DIGITAL_TWIN_SERVICE_COMMUNICATION_KIND: &'static str = "grpc+proto";
pub const INVEHICLE_DIGITAL_TWIN_SERVICE_COMMUNICATION_REFERENCE: &'static str = "https://github.com/eclipse-ibeji/ibeji/blob/main/interfaces/digital_twin/v1/digital_twin.proto";

} // verus!
