//! The samples' first common helpers: provider discovery through the digital
//! twin service and service discovery through Chariott's intent API.

use vstd::prelude::*;
use crate::discovery::{choose_uri_source, UriSource};
use crate::text::{join2, text_eq};

pub use crate::registry::is_subset;

verus! {

pub const CHARIOTT_NAMESPACE_FOR_IBEJI: &'static str = "sdv.ibeji";
pub const CHARIOTT_SCHEMA_KIND_FOR_GRPC: &'static str = "grpc+proto";

/// A service that Chariott discovered: how to talk to it and where it is.
#[derive(Debug)]
pub struct DiscoveredService {
    pub schema_kind: String,
    pub url: String,
}

/// `i` is the first discovered service that uses gRPC.
pub open spec fn is_first_grpc_service(services: Seq<DiscoveredService>, i: int) -> bool {
    &&& 0 <= i < services.len()
    &&& services[i].schema_kind@ == CHARIOTT_SCHEMA_KIND_FOR_GRPC@
    &&& forall|k: int| 0 <= k < i ==> (#[trigger] services[k]).schema_kind@ != CHARIOTT_SCHEMA_KIND_FOR_GRPC@
}

/// The URL of the first service in `list` that uses gRPC, if any.
fn first_grpc_service_url(list: &Vec<DiscoveredService>) -> (r: Option<String>)
    ensures
        r is None <==> forall|k: int| 0 <= k < list@.len() ==> (#[trigger] list@[k]).schema_kind@ != CHARIOTT_SCHEMA_KIND_FOR_GRPC@,
        r matches Some(u) ==> exists|i: int| is_first_grpc_service(list@, i) && u@ == (#[trigger] list@[i]).url@,
{
    let mut i: usize = 0;
    while i < list.len()
        invariant
            i <= list@.len(),
            forall|k: int| 0 <= k < i ==> (#[trigger] list@[k]).schema_kind@ != CHARIOTT_SCHEMA_KIND_FOR_GRPC@,
        decreases list@.len() - i,
    {
        if text_eq(list[i].schema_kind.as_str(), CHARIOTT_SCHEMA_KIND_FOR_GRPC) {
            assert(is_first_grpc_service(list@, i as int));
            return Some(list[i].url.clone());
        }
        i = i + 1;
    }
    None
}

/// The URL of the first discovered service that uses gRPC, if any.
///
/// # Arguments
/// * `services` - The services Chariott discovered in the namespace, if it answered with any.
pub fn select_grpc_service_url(services: Option<Vec<DiscoveredService>>) -> (r: Option<String>)
    ensures
        services is None ==> r is None,
        services matches Some(list) ==> (
            (r is None <==> forall|k: int| 0 <= k < list@.len() ==> (#[trigger] list@[k]).schema_kind@ != CHARIOTT_SCHEMA_KIND_FOR_GRPC@)
            && (r matches Some(u) ==> exists|i: int| is_first_grpc_service(list@, i) && u@ == (#[trigger] list@[i]).url@)),
{
    match services {
        None => None,
        Some(list) => first_grpc_service_url(&list),
    }
}

/// The error when neither URL is set.
pub open spec fn missing_url_message() -> Seq<char> {
    "The settings file must set a chariott_url setting when the invehicle_digital_twin_url is not set."@
}

/// Decide where the in-vehicle digital twin service's URL comes from.
/// First try to use the one specified in the invehicle_digital_twin_url setting.
/// If it is not set, then go to Chariott to obtain it.
///
/// # Arguments
/// * `invehicle_digital_twin_url` - Optional, In-Vehicle Digital Twin URL.
/// * `chariott_url` - Optional, Chariott URL.
pub fn invehicle_digital_twin_url_source(
    invehicle_digital_twin_url: Option<String>,
    chariott_url: Option<String>,
) -> (r: Result<UriSource, String>)
    ensures
        invehicle_digital_twin_url matches Some(u) ==> (r matches Ok(UriSource::Configured(v)) && v@ == u@),
        invehicle_digital_twin_url is None ==> (chariott_url matches Some(c) ==> (r matches Ok(UriSource::Chariott(v)) && v@ == c@)),
        invehicle_digital_twin_url is None ==> (chariott_url is None ==> (r matches Err(m) && m@ == missing_url_message())),
{
    choose_uri_source(
        invehicle_digital_twin_url,
        chariott_url,
        "The settings file must set a chariott_url setting when the invehicle_digital_twin_url is not set.",
    )
}

/// The URL that Chariott's discovery came back with: the discovered URL, or
/// an error when the service is not registered with Chariott or the
/// discovery failed (`error` is the failure's rendering).
///
/// # Arguments
/// * `outcome` - What the retried discovery came back with.
pub fn url_from_chariott(outcome: Result<Option<String>, String>) -> (r: Result<String, String>)
    ensures
        outcome matches Ok(Some(u)) ==> (r matches Ok(v) && v@ == u@),
        outcome matches Ok(None) ==> (r matches Err(m)
            && m@ == "Failed to discover the in-vehicle digital twin service's URL, as it is not registered with Chariott"@),
        outcome matches Err(e) ==> (r matches Err(m)
            && m@ == "Failed to discover the in-vehicle digital twin service's URL due to error: "@ + e@),
{
    match outcome {
        Ok(Some(value)) => Ok(value),
        Ok(None) => Err(String::from_str(
            "Failed to discover the in-vehicle digital twin service's URL, as it is not registered with Chariott",
        )),
        Err(error) => Err(join2("Failed to discover the in-vehicle digital twin service's URL due to error: ", error.as_str())),
    }
}

} // verus!
