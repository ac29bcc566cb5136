//! The samples' common helpers: provider discovery through the in-vehicle
//! digital twin service, service discovery through Chariott's registry, and
//! where the settings file is.

use vstd::prelude::*;
use crate::constants::chariott::{
    INVEHICLE_DIGITAL_TWIN_SERVICE_COMMUNICATION_KIND, INVEHICLE_DIGITAL_TWIN_SERVICE_COMMUNICATION_REFERENCE,
};
use crate::discovery::{choose_uri_source, UriSource};
use crate::registry::{
    EndpointInfo, EntityAccessInfo, any_satisfying, endpoints_agree, entity_not_found_message, is_first_satisfying,
    no_matching_endpoint_message, select_endpoint_or_error,
};
use crate::status::{Status, StatusCode};
use crate::text::{join2, join3, text_eq};

verus! {

/// The environment variable that names the directory of the settings files.
pub const IBEJI_HOME_VAR_NAME: &'static str = "IBEJI_HOME";

/// The path of a settings file: under the `IBEJI_HOME` directory when that
/// variable is set, else the bare file name.
///
/// # Arguments
/// * `ibeji_home` - The value of `IBEJI_HOME`, if it is set.
/// * `config_filename` - Name of the config file to load settings from.
pub fn config_filename_path(ibeji_home: Option<String>, config_filename: &str) -> (r: String)
    ensures
        ibeji_home matches Some(home) ==> r@ == home@ + "/"@ + config_filename@,
        ibeji_home is None ==> r@ == config_filename@,
{
    match ibeji_home {
        Some(home) => join3(home.as_str(), "/", config_filename),
        None => String::from_str(config_filename),
    }
}

/// If feature 'containerize' is set, will modify a localhost uri to point to container's localhost
/// DNS alias. Otherwise, returns the uri as a String.
///
/// # Arguments
/// * `uri` - The uri to potentially modify.
pub fn get_uri(uri: &str) -> (r: Result<String, Status>)
    ensures
        r matches Ok(u) && u@ == uri@,
{
    Ok(String::from_str(uri))
}

/// Choose the provider's endpoint from the in-vehicle digital twin service's
/// answer: the first endpoint of the entity that uses the protocol and
/// supports all of the operations, with its URI made usable here.
///
/// # Arguments
/// * `entity_access_info` - The entity the service found, if any.
/// * `protocol` - The required protocol.
/// * `operations` - The required operations.
pub fn select_provider_endpoint(
    entity_access_info: Option<EntityAccessInfo>,
    protocol: &str,
    operations: &[String],
) -> (r: Result<EndpointInfo, String>)
    ensures
        entity_access_info is None ==> (r matches Err(m) && m@ == entity_not_found_message()),
        entity_access_info matches Some(info) ==> {
            &&& r is Err <==> !any_satisfying(info.endpoint_info_list@, protocol@, operations@)
            &&& r matches Err(m) ==> m@ == no_matching_endpoint_message()
            &&& r matches Ok(e) ==> exists|i: int|
                is_first_satisfying(info.endpoint_info_list@, i, protocol@, operations@)
                    && endpoints_agree(#[trigger] info.endpoint_info_list@[i], e)
        },
{
    let info = match entity_access_info {
        Some(info) => info,
        None => {
            return Err(String::from_str("Did not find the entity"));
        },
    };
    let mut result = select_endpoint_or_error(info.endpoint_info_list, protocol, operations)?;
    let ghost chosen = result;
    match get_uri(result.uri.as_str()) {
        Ok(uri) => {
            result.uri = uri;
        },
        Err(err) => {
            return Err(join2("Failed to get provider URI due to error: ", err.message.as_str()));
        },
    }
    assert(endpoints_agree(chosen, result));
    Ok(result)
}

/// A service as Chariott's registry describes it.
#[derive(Debug)]
pub struct ServiceMetadata {
    pub communication_kind: String,
    pub communication_reference: String,
    pub uri: String,
}

/// The URI of the service that Chariott's registry reported: not found when
/// it reported none, or when the service has neither the expected
/// communication kind nor the expected communication reference.
///
/// # Arguments
/// * `service` - The service the registry reported, if any.
/// * `communication_kind` - The service's communication kind.
/// * `communication_reference` - The service's communication reference.
pub fn service_uri_from_registry(
    service: Option<ServiceMetadata>,
    communication_kind: &str,
    communication_reference: &str,
) -> (r: Result<String, Status>)
    ensures
        service is None ==> (r matches Err(s) && s.code == StatusCode::NotFound
            && s.message@ == "Did not find a service in Chariott with namespace '{namespace}', name '{name}' and version {version}"@),
        service matches Some(svc) ==> (
            if svc.communication_kind@ != communication_kind@ && svc.communication_reference@ != communication_reference@ {
                r matches Err(s) && s.code == StatusCode::NotFound
                    && s.message@ == "Did not find a service in Chariott with namespace '{namespace}', name '{name}' and version {version} that has communication kind '{communication_kind} and communication_reference '{communication_reference}''"@
            } else {
                r matches Ok(u) && u@ == svc.uri@
            }),
{
    let service = match service {
        Some(s) => s,
        None => {
            return Err(Status::not_found(String::from_str(
                "Did not find a service in Chariott with namespace '{namespace}', name '{name}' and version {version}",
            )));
        },
    };
    if !text_eq(service.communication_kind.as_str(), communication_kind)
        && !text_eq(service.communication_reference.as_str(), communication_reference) {
        return Err(Status::not_found(String::from_str(
            "Did not find a service in Chariott with namespace '{namespace}', name '{name}' and version {version} that has communication kind '{communication_kind} and communication_reference '{communication_reference}''",
        )));
    }
    Ok(service.uri)
}

/// The in-vehicle digital twin service's URI from its registration with
/// Chariott.
///
/// # Arguments
/// * `service` - The service the registry reported, if any.
pub fn invehicle_digital_twin_uri_from_registry(service: Option<ServiceMetadata>) -> (r: Result<String, Status>)
    ensures
        service is None ==> (r matches Err(s) && s.code == StatusCode::NotFound),
        service matches Some(svc) ==> (
            if svc.communication_kind@ != INVEHICLE_DIGITAL_TWIN_SERVICE_COMMUNICATION_KIND@
                && svc.communication_reference@ != INVEHICLE_DIGITAL_TWIN_SERVICE_COMMUNICATION_REFERENCE@ {
                r matches Err(s) && s.code == StatusCode::NotFound
            } else {
                r matches Ok(u) && u@ == svc.uri@
            }),
{
    service_uri_from_registry(
        service,
        INVEHICLE_DIGITAL_TWIN_SERVICE_COMMUNICATION_KIND,
        INVEHICLE_DIGITAL_TWIN_SERVICE_COMMUNICATION_REFERENCE,
    )
}

/// The error when neither URI is set.
pub open spec fn missing_uri_message() -> Seq<char> {
    "The settings file must set a chariott_uri setting when the invehicle_digital_twin_uri is not set."@
}

/// Decide where the in-vehicle digital twin service's URI comes from.
/// If invehicle_digital_twin_uri is provided, then its value is used.
/// Otherwise, chariott_uri is used to retrieve it from Chariott.
///
/// # Arguments
/// * `invehicle_digital_twin_uri` - Optional, In-Vehicle Digital Twin URI.
/// * `chariott_uri` - Optional, Chariott URI.
pub fn invehicle_digital_twin_uri_source(
    invehicle_digital_twin_uri: Option<String>,
    chariott_uri: Option<String>,
) -> (r: Result<UriSource, String>)
    ensures
        invehicle_digital_twin_uri matches Some(u) ==> (r matches Ok(UriSource::Configured(v)) && v@ == u@),
        invehicle_digital_twin_uri is None ==> (chariott_uri matches Some(c) ==> (r matches Ok(UriSource::Chariott(v)) && v@ == c@)),
        invehicle_digital_twin_uri is None ==> (chariott_uri is None ==> (r matches Err(m) && m@ == missing_uri_message())),
{
    choose_uri_source(
        invehicle_digital_twin_uri,
        chariott_uri,
        "The settings file must set a chariott_uri setting when the invehicle_digital_twin_uri is not set.",
    )
}

/// The in-vehicle digital twin service's URI, once its source has answered:
/// the configured or discovered URI, made usable here; a discovery failure
/// (`error` is its rendering) is reported.
///
/// # Arguments
/// * `outcome` - The configured URI, or what the retried discovery came back with.
pub fn resolve_invehicle_digital_twin_uri(outcome: Result<String, String>) -> (r: Result<String, String>)
    ensures
        outcome matches Ok(u) ==> (r matches Ok(v) && v@ == u@),
        outcome matches Err(e) ==> (r matches Err(m)
            && m@ == "Failed to discover the in-vehicle digital twin service's URI due to error: "@ + e@),
{
    let value = match outcome {
        Ok(value) => value,
        Err(error) => {
            return Err(join2("Failed to discover the in-vehicle digital twin service's URI due to error: ", error.as_str()));
        },
    };
    match get_uri(value.as_str()) {
        Ok(uri) => Ok(uri),
        Err(err) => Err(join2("Failed to retrieve the in-vehicle digital twin service's URI due to error: ", err.message.as_str())),
    }
}

} // verus!
