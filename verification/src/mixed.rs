//! The mixed sample's provider: commands that act on the simulated vehicle.

use vstd::prelude::*;
use crate::simulation::VehicleClimate;
use crate::text::{join2, join3, join4, text_eq};

verus! {

/// Parse a bool with `str::parse::<bool>` (bool's `FromStr`). As its
/// documentation says, only "true" and "false" are accepted; the error is
/// rendered with its `Debug` form, whose text is left unstated here.
#[verifier::external_body]
fn parse_bool(text: &str) -> (r: Result<bool, String>)
    ensures
        r.is_ok() == (text@ == "true"@ || text@ == "false"@),
        r matches Ok(b) ==> b == (text@ == "true"@),
{
    text.parse::<bool>().map_err(|error| format!("{error:?}"))
}

/// The model ids of the commands the mixed provider performs.
#[derive(Debug)]
pub struct CommandIds {
    pub activate_air_conditioning: String,
    pub send_notification: String,
    pub set_ui_message: String,
}

/// Turn the vehicle's air conditioning on or off, as the payload ("true" or
/// "false") says.
///
/// # Arguments
/// * `vehicle` - The simulated vehicle.
/// * `payload` - The command's payload.
pub fn activate_air_conditioning(vehicle: &mut VehicleClimate, payload: &str) -> (r: Result<(), String>)
    ensures
        r is Ok <==> (payload@ == "true"@ || payload@ == "false"@),
        r is Ok ==> final(vehicle).is_air_conditioning_active == (payload@ == "true"@),
        r is Err ==> final(vehicle).is_air_conditioning_active == old(vehicle).is_air_conditioning_active,
        final(vehicle).ambient_air_temperature == old(vehicle).ambient_air_temperature,
        final(vehicle).ui_message == old(vehicle).ui_message,
{
    let value = parse_bool(payload)?;
    vehicle.is_air_conditioning_active = value;
    Ok(())
}

/// Show `payload` on the vehicle's display.
///
/// # Arguments
/// * `vehicle` - The simulated vehicle.
/// * `payload` - The message.
pub fn set_ui_message(vehicle: &mut VehicleClimate, payload: &str)
    ensures
        final(vehicle).ui_message@ == payload@,
        final(vehicle).ambient_air_temperature == old(vehicle).ambient_air_temperature,
        final(vehicle).is_air_conditioning_active == old(vehicle).is_air_conditioning_active,
{
    vehicle.ui_message = String::from_str(payload);
}

/// Perform an invoke request on the vehicle and give the response payload
/// for the consumer.
///
/// # Arguments
/// * `vehicle` - The simulated vehicle.
/// * `entity_id` - The invoked entity.
/// * `payload` - The request's payload.
/// * `ids` - The model ids of the commands.
pub fn perform_invoke(vehicle: &mut VehicleClimate, entity_id: &str, payload: &str, ids: &CommandIds) -> (response_payload: String)
    ensures
        final(vehicle).ambient_air_temperature == old(vehicle).ambient_air_temperature,
        entity_id@ == ids.activate_air_conditioning@ ==> {
            if payload@ == "true"@ || payload@ == "false"@ {
                &&& final(vehicle).is_air_conditioning_active == (payload@ == "true"@)
                &&& response_payload@ == "Successfully invoked "@ + entity_id@
            } else {
                &&& final(vehicle).is_air_conditioning_active == old(vehicle).is_air_conditioning_active
                &&& exists|error: Seq<char>| response_payload@ == "Failed to invoke "@ + entity_id@ + " due to: "@ + error
            }
        } && final(vehicle).ui_message == old(vehicle).ui_message,
        entity_id@ != ids.activate_air_conditioning@ ==> final(vehicle).is_air_conditioning_active == old(vehicle).is_air_conditioning_active,
        entity_id@ != ids.activate_air_conditioning@ && entity_id@ == ids.send_notification@ ==>
            response_payload@ == "Successfully invoked "@ + entity_id@ && final(vehicle).ui_message == old(vehicle).ui_message,
        entity_id@ != ids.activate_air_conditioning@ && entity_id@ != ids.send_notification@ && entity_id@ == ids.set_ui_message@ ==>
            response_payload@ == "Successfully invoked "@ + entity_id@ && final(vehicle).ui_message@ == payload@,
        entity_id@ != ids.activate_air_conditioning@ && entity_id@ != ids.send_notification@ && entity_id@ != ids.set_ui_message@ ==>
            response_payload@ == "Error: The entity id "@ + entity_id@ + " is not recognized."@
                && final(vehicle).ui_message == old(vehicle).ui_message,
{
    if text_eq(entity_id, ids.activate_air_conditioning.as_str()) {
        match activate_air_conditioning(vehicle, payload) {
            Ok(()) => join2("Successfully invoked ", entity_id),
            Err(error) => {
                let response = join4("Failed to invoke ", entity_id, " due to: ", error.as_str());
                assert(response@ == "Failed to invoke "@ + entity_id@ + " due to: "@ + error@);
                response
            },
        }
    } else if text_eq(entity_id, ids.send_notification.as_str()) {
        join2("Successfully invoked ", entity_id)
    } else if text_eq(entity_id, ids.set_ui_message.as_str()) {
        set_ui_message(vehicle, payload);
        join2("Successfully invoked ", entity_id)
    } else {
        join3("Error: The entity id ", entity_id, " is not recognized.")
    }
}

} // verus!
