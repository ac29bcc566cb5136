//! The tutorial sample's provider: answers gets of two properties and the
//! show-notification command.

use vstd::prelude::*;
use crate::text::{join3, text_eq};

verus! {

/// The value the tutorial provider reports for an entity.
pub open spec fn spec_property_value(entity_id: Seq<char>, ambient_air_temperature_id: Seq<char>, is_air_conditioning_active_id: Seq<char>) -> Seq<char> {
    if entity_id == ambient_air_temperature_id {
        "42"@
    } else if entity_id == is_air_conditioning_active_id {
        "true"@
    } else {
        "NULL"@
    }
}

/// Get implementation: the ambient air temperature is 42, the air
/// conditioning is active, and any other entity has no value ("NULL").
///
/// # Arguments
/// * `entity_id` - The requested entity.
/// * `ambient_air_temperature_id` - The ambient air temperature's model id.
/// * `is_air_conditioning_active_id` - The air conditioning's model id.
pub fn get_property_value(entity_id: &str, ambient_air_temperature_id: &str, is_air_conditioning_active_id: &str) -> (r: String)
    ensures
        r@ == spec_property_value(entity_id@, ambient_air_temperature_id@, is_air_conditioning_active_id@),
        entity_id@ == ambient_air_temperature_id@ ==> r@ == "42"@,
        entity_id@ != ambient_air_temperature_id@ && entity_id@ == is_air_conditioning_active_id@ ==> r@ == "true"@,
        entity_id@ != ambient_air_temperature_id@ && entity_id@ != is_air_conditioning_active_id@ ==> r@ == "NULL"@,
{
    if text_eq(entity_id, ambient_air_temperature_id) {
        String::from_str("42")
    } else if text_eq(entity_id, is_air_conditioning_active_id) {
        String::from_str("true")
    } else {
        String::from_str("NULL")
    }
}

/// Invoke implementation: the response to a show-notification request
/// displays its payload; other entities are not recognized.
///
/// # Arguments
/// * `entity_id` - The invoked entity.
/// * `payload` - The request's payload.
/// * `show_notification_id` - The show-notification command's model id.
pub fn invoke_response(entity_id: &str, payload: &str, show_notification_id: &str) -> (r: String)
    ensures
        entity_id@ == show_notification_id@ ==> r@ == "Displaying notification '"@ + payload@ + "'"@,
        entity_id@ != show_notification_id@ ==> r@ == "Error notification: The entity id "@ + entity_id@ + " is not recognized."@,
{
    if text_eq(entity_id, show_notification_id) {
        join3("Displaying notification '", payload, "'")
    } else {
        join3("Error notification: The entity id ", entity_id, " is not recognized.")
    }
}

} // verus!
