//! The graph samples' providers: the instances they hold and how they answer
//! an ask request, and the consumer's search for a seat.

use vstd::prelude::*;
use crate::collections::{TextMap, texts_of, insert_all};
use crate::constants::digital_twin_protocol;
use crate::registry::{EndpointInfo, EntityAccessInfo};
use crate::digital_twin_graph::{
    SeatPosition, SeatRelationship, VehicleParts, seat_is_at, massager_at, FRONT_LEFT_AIRBAG_SEAT_MASSAGER_INSTANCE_ID,
    FRONT_RIGHT_AIRBAG_SEAT_MASSAGER_INSTANCE_ID, BACK_LEFT_AIRBAG_SEAT_MASSAGER_INSTANCE_ID,
    BACK_CENTER_AIRBAG_SEAT_MASSAGER_INSTANCE_ID, BACK_RIGHT_AIRBAG_SEAT_MASSAGER_INSTANCE_ID,
};
use crate::constants::digital_twin_operation;
use crate::seat_massager::TargetedPayload;
use crate::json::{inspect_json_member, JsonMember, JsonMemberView, json_member_of};
use crate::status::{Status, StatusCode};
use crate::text::{join3, join5, text_eq};

verus! {

/// Instance data.
#[derive(Debug)]
pub struct InstanceData {
    /// Model Id.
    pub model_id: String,
    /// Description.
    pub description: String,
    /// Serialized value (using JSON-LD as a string).
    pub serialized_value: String,
}

/// The seat massager provider's state: maps an instance id to its instance data.
pub struct RequestState {
    pub instance_map: TextMap<InstanceData>,
}

/// The vehicle core provider's state: maps an instance id to its instance data.
pub struct ProviderState {
    /// Maps an instance id to its associated instance data.
    pub instance_map: TextMap<InstanceData>,
}

/// Add an entry to the instance map.
/// # Arguments
/// * `instance_map` - The instance map.
/// * `instance_id` - The instance id.
/// * `model_id` - The model id.
/// * `description` - The description.
/// * `serialized_value` - The serialized value.
pub fn add_entry_to_instance_map(
    instance_map: &mut TextMap<InstanceData>,
    instance_id: String,
    model_id: String,
    description: String,
    serialized_value: String,
)
    ensures
        final(instance_map)@ == old(instance_map)@.insert(
            instance_id@,
            InstanceData { model_id, description, serialized_value },
        ),
{
    instance_map.insert(instance_id, InstanceData { model_id, description, serialized_value });
}

/// What an instance's data says: its model id, description and serialized value.
pub open spec fn instance_view(d: InstanceData) -> (Seq<char>, Seq<char>, Seq<char>) {
    (d.model_id@, d.description@, d.serialized_value@)
}

/// The vehicle core provider's instances, in the order they are added: each
/// seat under its own id with the seat model, then the cabin and the vehicle
/// with theirs.
pub open spec fn vehicle_core_entries(
    parts: VehicleParts,
    seat_model_id: Seq<char>,
    seat_description: Seq<char>,
    cabin_model_id: Seq<char>,
    cabin_description: Seq<char>,
    vehicle_model_id: Seq<char>,
    vehicle_description: Seq<char>,
    seat_values: Seq<String>,
    cabin_value: Seq<char>,
    vehicle_value: Seq<char>,
) -> Seq<(Seq<char>, (Seq<char>, Seq<char>, Seq<char>))> {
    Seq::new(
        parts.seats@.len(),
        |i: int| (parts.seats@[i].instance_id@, (seat_model_id, seat_description, seat_values[i]@)),
    ).push((parts.cabin_id@, (cabin_model_id, cabin_description, cabin_value))).push(
        (parts.vehicle_id@, (vehicle_model_id, vehicle_description, vehicle_value)),
    )
}

/// The vehicle core provider's state: the vehicle's seats, cabin and vehicle,
/// each under its instance id with its model's id and description and its
/// serialized value (`seat_values[i]` for the i-th seat).
///
/// # Arguments
/// * `parts` - The vehicle's parts.
/// * `seat_model_id` - The seat model's id, and so on for the descriptions and the other models.
/// * `seat_values` - The serialized seats, in the order of the parts' seats.
/// * `cabin_value` - The serialized cabin.
/// * `vehicle_value` - The serialized vehicle.
pub fn vehicle_core_state(
    parts: &VehicleParts,
    seat_model_id: &str,
    seat_description: &str,
    cabin_model_id: &str,
    cabin_description: &str,
    vehicle_model_id: &str,
    vehicle_description: &str,
    seat_values: &Vec<String>,
    cabin_value: String,
    vehicle_value: String,
) -> (state: ProviderState)
    requires
        seat_values@.len() == parts.seats@.len(),
    ensures
        state.instance_map@.map_values(|d: InstanceData| instance_view(d)) == insert_all(
            Map::empty(),
            vehicle_core_entries(
                *parts,
                seat_model_id@,
                seat_description@,
                cabin_model_id@,
                cabin_description@,
                vehicle_model_id@,
                vehicle_description@,
                seat_values@,
                cabin_value@,
                vehicle_value@,
            ),
        ),
{
    let ghost entries = vehicle_core_entries(
        *parts,
        seat_model_id@,
        seat_description@,
        cabin_model_id@,
        cabin_description@,
        vehicle_model_id@,
        vehicle_description@,
        seat_values@,
        cabin_value@,
        vehicle_value@,
    );
    let n = parts.seats.len();
    let mut instance_map: TextMap<InstanceData> = TextMap::new();
    proof {
        assert(entries.take(0) =~= Seq::<(Seq<char>, (Seq<char>, Seq<char>, Seq<char>))>::empty());
        assert(instance_map@.map_values(|d: InstanceData| instance_view(d)) =~= Map::empty());
    }
    let mut i: usize = 0;
    while i < n
        invariant
            n == parts.seats@.len(),
            n == seat_values@.len(),
            i <= n,
            entries.len() == n + 2,
            entries == vehicle_core_entries(
                *parts,
                seat_model_id@,
                seat_description@,
                cabin_model_id@,
                cabin_description@,
                vehicle_model_id@,
                vehicle_description@,
                seat_values@,
                cabin_value@,
                vehicle_value@,
            ),
            instance_map@.map_values(|d: InstanceData| instance_view(d)) == insert_all(Map::empty(), entries.take(i as int)),
        decreases n - i,
    {
        let ghost before = instance_map@;
        add_entry_to_instance_map(
            &mut instance_map,
            parts.seats[i].instance_id.clone(),
            String::from_str(seat_model_id),
            String::from_str(seat_description),
            seat_values[i].clone(),
        );
        proof {
            let e = entries[i as int];
            assert(entries.take(i + 1).drop_last() =~= entries.take(i as int));
            assert(entries.take(i + 1).last() == e);
            assert(instance_map@.map_values(|d: InstanceData| instance_view(d))
                =~= before.map_values(|d: InstanceData| instance_view(d)).insert(e.0, e.1));
        }
        i = i + 1;
    }
    let ghost before_cabin = instance_map@;
    add_entry_to_instance_map(
        &mut instance_map,
        parts.cabin_id.clone(),
        String::from_str(cabin_model_id),
        String::from_str(cabin_description),
        cabin_value,
    );
    proof {
        assert(entries.take(n + 1).drop_last() =~= entries.take(n as int));
        assert(entries.take(n + 1).last() == entries[n as int]);
        assert(entries[n as int] == (parts.cabin_id@, (cabin_model_id@, cabin_description@, cabin_value@)));
        assert(instance_map@.map_values(|d: InstanceData| instance_view(d))
            =~= before_cabin.map_values(|d: InstanceData| instance_view(d)).insert(entries[n as int].0, entries[n as int].1));
        assert(instance_map@.map_values(|d: InstanceData| instance_view(d)) == insert_all(Map::empty(), entries.take(n + 1)));
    }
    let ghost before_vehicle = instance_map@;
    add_entry_to_instance_map(
        &mut instance_map,
        parts.vehicle_id.clone(),
        String::from_str(vehicle_model_id),
        String::from_str(vehicle_description),
        vehicle_value,
    );
    proof {
        assert(entries.take(n + 2).drop_last() =~= entries.take(n + 1));
        assert(entries.take(n + 2) =~= entries);
        assert(entries.take(n + 2).last() == entries[n + 1]);
        assert(entries[n + 1] == (parts.vehicle_id@, (vehicle_model_id@, vehicle_description@, vehicle_value@)));
        assert(instance_map@.map_values(|d: InstanceData| instance_view(d))
            =~= before_vehicle.map_values(|d: InstanceData| instance_view(d)).insert(entries[n + 1].0, entries[n + 1].1));
        assert(instance_map@.map_values(|d: InstanceData| instance_view(d)) == insert_all(Map::empty(), entries.take(n + 2)));
    }
    ProviderState { instance_map }
}

/// The massager at place `i` of the cabin's layout is premium: those of the
/// front seats are, those of the back seats are basic.
pub open spec fn massager_is_premium(i: int) -> bool {
    i < 2
}

/// The seat massager provider's instances: the five seats' massagers, keyed
/// by their ids; the front seats' massagers are premium, the back seats'
/// basic.
///
/// # Arguments
/// * `premium_model_id` - The premium airbag seat massager's model id.
/// * `premium_description` - Its description.
/// * `basic_model_id` - The basic airbag seat massager's model id.
/// * `basic_description` - Its description.
/// * `front_left_value` - The serialized front left massager, and so on.
pub fn create_seat_massager_state(
    premium_model_id: &str,
    premium_description: &str,
    basic_model_id: &str,
    basic_description: &str,
    front_left_value: String,
    front_right_value: String,
    back_left_value: String,
    back_center_value: String,
    back_right_value: String,
) -> (state: RequestState)
    ensures
        state.instance_map@.dom() =~= set![massager_at(0), massager_at(1), massager_at(2), massager_at(3), massager_at(4)],
        forall|i: int| 0 <= i < 5 ==> {
            let data = #[trigger] state.instance_map@[massager_at(i)];
            &&& data.model_id@ == (if massager_is_premium(i) { premium_model_id@ } else { basic_model_id@ })
            &&& data.description@ == (if massager_is_premium(i) { premium_description@ } else { basic_description@ })
        },
        state.instance_map@[massager_at(0)].serialized_value@ == front_left_value@,
        state.instance_map@[massager_at(1)].serialized_value@ == front_right_value@,
        state.instance_map@[massager_at(2)].serialized_value@ == back_left_value@,
        state.instance_map@[massager_at(3)].serialized_value@ == back_center_value@,
        state.instance_map@[massager_at(4)].serialized_value@ == back_right_value@,
{
    proof {
        reveal_strlit("front_left_airbag_seat_massager");
        reveal_strlit("front_right_airbag_seat_massager");
        reveal_strlit("back_left_airbag_seat_massager");
        reveal_strlit("back_center_airbag_seat_massager");
        reveal_strlit("back_right_airbag_seat_massager");
    }
    let mut instance_map: TextMap<InstanceData> = TextMap::new();
    add_entry_to_instance_map(
        &mut instance_map,
        String::from_str(FRONT_LEFT_AIRBAG_SEAT_MASSAGER_INSTANCE_ID),
        String::from_str(premium_model_id),
        String::from_str(premium_description),
        front_left_value,
    );
    add_entry_to_instance_map(
        &mut instance_map,
        String::from_str(FRONT_RIGHT_AIRBAG_SEAT_MASSAGER_INSTANCE_ID),
        String::from_str(premium_model_id),
        String::from_str(premium_description),
        front_right_value,
    );
    add_entry_to_instance_map(
        &mut instance_map,
        String::from_str(BACK_LEFT_AIRBAG_SEAT_MASSAGER_INSTANCE_ID),
        String::from_str(basic_model_id),
        String::from_str(basic_description),
        back_left_value,
    );
    add_entry_to_instance_map(
        &mut instance_map,
        String::from_str(BACK_CENTER_AIRBAG_SEAT_MASSAGER_INSTANCE_ID),
        String::from_str(basic_model_id),
        String::from_str(basic_description),
        back_center_value,
    );
    add_entry_to_instance_map(
        &mut instance_map,
        String::from_str(BACK_RIGHT_AIRBAG_SEAT_MASSAGER_INSTANCE_ID),
        String::from_str(basic_model_id),
        String::from_str(basic_description),
        back_right_value,
    );
    proof {
        let ids = seq![
            FRONT_LEFT_AIRBAG_SEAT_MASSAGER_INSTANCE_ID@,
            FRONT_RIGHT_AIRBAG_SEAT_MASSAGER_INSTANCE_ID@,
            BACK_LEFT_AIRBAG_SEAT_MASSAGER_INSTANCE_ID@,
            BACK_CENTER_AIRBAG_SEAT_MASSAGER_INSTANCE_ID@,
            BACK_RIGHT_AIRBAG_SEAT_MASSAGER_INSTANCE_ID@,
        ];
        assert(ids[0].len() == 31 && ids[1].len() == 32 && ids[2].len() == 30 && ids[3].len() == 32 && ids[4].len() == 31);
        assert(ids[0][0] == 'f' && ids[1][0] == 'f' && ids[3][0] == 'b' && ids[4][0] == 'b');
        assert forall|i: int, j: int| 0 <= i < j < 5 implies ids[i] != ids[j] by {
            if i == 0 && j == 4 {
                assert(ids[i][0] != ids[j][0]);
            } else if i == 1 && j == 3 {
                assert(ids[i][0] != ids[j][0]);
            } else {
                assert(ids[i].len() != ids[j].len());
            }
        }
        assert forall|i: int| 0 <= i < 5 implies massager_at(i) == ids[i] by {}
        assert(ids[0] != ids[1] && ids[0] != ids[2] && ids[0] != ids[3] && ids[0] != ids[4]);
        assert(ids[1] != ids[2] && ids[1] != ids[3] && ids[1] != ids[4]);
        assert(ids[2] != ids[3] && ids[2] != ids[4] && ids[3] != ids[4]);
    }
    RequestState { instance_map }
}

/// The work an accepted ask request asks for.
#[derive(Clone, Copy, Debug, PartialEq, Eq, Structural)]
pub enum AskPlan {
    /// Answer with the instance's serialized value.
    Get,
    /// Perform the operation on the instance and answer.
    Invoke,
}

/// The message given for a get whose payload is not empty.
pub open spec fn unexpected_get_payload_message() -> Seq<char> {
    "Unexpected payload, it should be empty"@
}

/// The message given for an invoke whose payload is empty.
pub open spec fn missing_invoke_payload_message() -> Seq<char> {
    "Unexpected payload, it should NOT be empty"@
}

/// Check a get request's payload: it must be empty.
fn plan_get(payload: &str) -> (r: Result<AskPlan, Status>)
    ensures
        r matches Ok(p) ==> payload@.len() == 0 && p == AskPlan::Get,
        r matches Err(s) ==> payload@.len() != 0 && s.code == StatusCode::InvalidArgument
            && s.message@ == unexpected_get_payload_message(),
{
    if !payload.is_empty() {
        return Err(Status::invalid_argument(String::from_str("Unexpected payload, it should be empty")));
    }
    Ok(AskPlan::Get)
}

/// Decide how the vehicle core provider handles an ask request: only `Get`
/// with an empty payload is accepted.
///
/// # Arguments
/// * `targeted_payload` - The ask request's targeted payload.
pub fn plan_vehicle_core_ask(targeted_payload: &TargetedPayload) -> (r: Result<AskPlan, Status>)
    ensures
        targeted_payload.operation@ == digital_twin_operation::GET@ ==> (
            if targeted_payload.payload@.len() == 0 {
                r == Ok::<AskPlan, Status>(AskPlan::Get)
            } else {
                r matches Err(s) && s.code == StatusCode::InvalidArgument
                    && s.message@ == unexpected_get_payload_message()
            }),
        targeted_payload.operation@ != digital_twin_operation::GET@ ==> (
            r matches Err(s) && s.code == StatusCode::InvalidArgument
                && s.message@ == "Unexpected operation '"@ + targeted_payload.operation@ + "'.  Expected '"@
                    + digital_twin_operation::GET@ + "'."@),
{
    if text_eq(targeted_payload.operation.as_str(), digital_twin_operation::GET) {
        plan_get(targeted_payload.payload.as_str())
    } else {
        Err(Status::invalid_argument(join5(
            "Unexpected operation '",
            targeted_payload.operation.as_str(),
            "'.  Expected '",
            digital_twin_operation::GET,
            "'.",
        )))
    }
}

/// Decide how the seat massager provider handles an ask request: `Get` with
/// an empty payload, or `Invoke` with a payload.
///
/// # Arguments
/// * `targeted_payload` - The ask request's targeted payload.
pub fn plan_seat_massager_ask(targeted_payload: &TargetedPayload) -> (r: Result<AskPlan, Status>)
    ensures
        targeted_payload.operation@ == digital_twin_operation::GET@ ==> (
            if targeted_payload.payload@.len() == 0 {
                r == Ok::<AskPlan, Status>(AskPlan::Get)
            } else {
                r matches Err(s) && s.code == StatusCode::InvalidArgument
                    && s.message@ == unexpected_get_payload_message()
            }),
        targeted_payload.operation@ == digital_twin_operation::INVOKE@ ==> (
            if targeted_payload.payload@.len() != 0 {
                r == Ok::<AskPlan, Status>(AskPlan::Invoke)
            } else {
                r matches Err(s) && s.code == StatusCode::InvalidArgument
                    && s.message@ == missing_invoke_payload_message()
            }),
        targeted_payload.operation@ != digital_twin_operation::GET@
            && targeted_payload.operation@ != digital_twin_operation::INVOKE@ ==> (
            r matches Err(s) && s.code == StatusCode::InvalidArgument
                && s.message@ == "Unexpected operation '"@ + targeted_payload.operation@ + "'"@),
{
    proof {
        reveal_strlit("Get");
        reveal_strlit("Invoke");
        assert(digital_twin_operation::GET@.len() != digital_twin_operation::INVOKE@.len());
    }
    if text_eq(targeted_payload.operation.as_str(), digital_twin_operation::GET) {
        plan_get(targeted_payload.payload.as_str())
    } else if text_eq(targeted_payload.operation.as_str(), digital_twin_operation::INVOKE) {
        if targeted_payload.payload.as_str().is_empty() {
            return Err(Status::invalid_argument(String::from_str("Unexpected payload, it should NOT be empty")));
        }
        Ok(AskPlan::Invoke)
    } else {
        Err(Status::invalid_argument(join3("Unexpected operation '", targeted_payload.operation.as_str(), "'")))
    }
}

/// The message given when no instance has the requested id.
pub open spec fn instance_not_found_message(instance_id: Seq<char>) -> Seq<char> {
    "Instance not found for instance id '"@ + instance_id + "'"@
}

/// The answer to a get: the serialized value of the instance with the
/// requested id.
///
/// # Arguments
/// * `instance_map` - The provider's instances.
/// * `instance_id` - The requested instance id.
pub fn answer_for_get(instance_map: &TextMap<InstanceData>, instance_id: &str) -> (r: Result<String, String>)
    ensures
        instance_map@.contains_key(instance_id@) ==> (r matches Ok(v)
            && v@ == instance_map@[instance_id@].serialized_value@),
        !instance_map@.contains_key(instance_id@) ==> (r matches Err(m)
            && m@ == instance_not_found_message(instance_id@)),
{
    match instance_map.get(instance_id) {
        Some(instance_data) => Ok(instance_data.serialized_value.clone()),
        None => Err(join3("Instance not found for instance id '", instance_id, "'")),
    }
}

/// The serialized instance declares the model `model_id` (its "@type" member).
pub open spec fn declares_model(serialized_value: Seq<char>, model_id: Seq<char>) -> bool {
    json_member_of(serialized_value, "@type"@) matches JsonMemberView::Text { text, .. } && text == model_id
}

/// The message given when an instance does not support the operation.
pub open spec fn unsupported_operation_message(instance_id: Seq<char>, operation: Seq<char>) -> Seq<char> {
    "The instance with the instance id '"@ + instance_id + "' does not support the operation '"@ + operation + "'"@
}

/// The answer to an invoke, from the "@type" member of the instance's
/// serialized value: only a premium airbag seat massager supports an
/// operation, and its answer's payload is empty.
///
/// # Arguments
/// * `model_member` - The instance's "@type" member.
/// * `premium_model_id` - The premium airbag seat massager's model id.
/// * `instance_id` - The instance's id.
/// * `operation` - The requested operation.
pub fn invoke_answer_for_model(
    model_member: &JsonMember,
    premium_model_id: &str,
    instance_id: &str,
    operation: &str,
) -> (r: Result<String, String>)
    requires
        !(model_member@ is Malformed),
    ensures
        (model_member@ matches JsonMemberView::Text { text, .. } && text == premium_model_id@)
            ==> (r matches Ok(v) && v@.len() == 0),
        !(model_member@ matches JsonMemberView::Text { text, .. } && text == premium_model_id@)
            ==> (r matches Err(m) && m@ == unsupported_operation_message(instance_id@, operation@)),
{
    let supported = match model_member {
        JsonMember::Text { text, .. } => text_eq(text.as_str(), premium_model_id),
        _ => false,
    };
    if supported {
        Ok(String::new())
    } else {
        Err(join5("The instance with the instance id '", instance_id, "' does not support the operation '", operation, "'"))
    }
}

/// The answer to an invoke: the instance must be a premium airbag seat
/// massager (the only model that supports an operation); the answer's payload
/// is then empty. `None` when the instance's serialized value is not JSON,
/// which no answer can be given for.
///
/// # Arguments
/// * `instance_map` - The provider's instances.
/// * `targeted_payload` - The ask request's targeted payload.
/// * `premium_model_id` - The premium airbag seat massager's model id.
pub fn answer_for_invoke(
    instance_map: &TextMap<InstanceData>,
    targeted_payload: &TargetedPayload,
    premium_model_id: &str,
) -> (r: Option<Result<String, String>>)
    ensures
        !instance_map@.contains_key(targeted_payload.instance_id@) ==> (r matches Some(Err(m))
            && m@ == instance_not_found_message(targeted_payload.instance_id@)),
        instance_map@.contains_key(targeted_payload.instance_id@) ==> {
            let value = instance_map@[targeted_payload.instance_id@].serialized_value@;
            if json_member_of(value, "@type"@) is Malformed {
                r is None
            } else if declares_model(value, premium_model_id@) {
                r matches Some(Ok(v)) && v@.len() == 0
            } else {
                r matches Some(Err(m))
                    && m@ == unsupported_operation_message(targeted_payload.instance_id@, targeted_payload.operation@)
            }
        },
{
    let value = answer_for_get(instance_map, targeted_payload.instance_id.as_str());
    match value {
        Err(m) => Some(Err(m)),
        Ok(v) => {
            let member = inspect_json_member(v.as_str(), "@type");
            if let JsonMember::Malformed(_) = member {
                return None;
            }
            Some(invoke_answer_for_model(
                &member,
                premium_model_id,
                targeted_payload.instance_id.as_str(),
                targeted_payload.operation.as_str(),
            ))
        },
    }
}

/// The cabin's front left seat: the last seat relationship in row 1 at the left.
///
/// # Arguments
/// * `seats` - The cabin's seat relationships.
pub fn find_front_left_seat(seats: &Vec<SeatRelationship>) -> (r: Result<String, String>)
    ensures
        r matches Ok(id) ==> exists|i: int|
            0 <= i < seats@.len() && seat_is_at(#[trigger] seats@[i], 1, SeatPosition::Left)
                && id@ == seats@[i].instance_id@
                && forall|k: int| i < k < seats@.len() ==> !seat_is_at(#[trigger] seats@[k], 1, SeatPosition::Left),
        r is Err <==> forall|k: int| 0 <= k < seats@.len() ==> !seat_is_at(#[trigger] seats@[k], 1, SeatPosition::Left),
        r matches Err(m) ==> m@ == "The front left seat was not found"@,
{
    let mut found: Option<usize> = None;
    let mut i: usize = 0;
    while i < seats.len()
        invariant
            i <= seats@.len(),
            found matches Some(j) ==> j < i && seat_is_at(seats@[j as int], 1, SeatPosition::Left)
                && forall|k: int| j < k < i ==> !seat_is_at(#[trigger] seats@[k], 1, SeatPosition::Left),
            found is None ==> forall|k: int| 0 <= k < i ==> !seat_is_at(#[trigger] seats@[k], 1, SeatPosition::Left),
        decreases seats@.len() - i,
    {
        if seats[i].seat_row == 1 && seats[i].seat_position == SeatPosition::Left {
            found = Some(i);
        }
        i = i + 1;
    }
    match found {
        Some(j) => Ok(seats[j].instance_id.clone()),
        None => Err(String::from_str("The front left seat was not found")),
    }
}

/// What a get gives back of an add: after an instance is added under an id,
/// a get of that id answers with the instance's serialized value, and the
/// instances under other ids are as they were.
pub proof fn lemma_get_after_add(
    instance_map: Map<Seq<char>, InstanceData>,
    instance_id: Seq<char>,
    data: InstanceData,
    other_id: Seq<char>,
)
    ensures
        instance_map.insert(instance_id, data).contains_key(instance_id),
        instance_map.insert(instance_id, data)[instance_id].serialized_value@ == data.serialized_value@,
        other_id != instance_id ==> (instance_map.insert(instance_id, data).contains_key(other_id)
            == instance_map.contains_key(other_id)),
        other_id != instance_id && instance_map.contains_key(other_id) ==> instance_map.insert(instance_id, data)[other_id]
            == instance_map[other_id],
{
}

/// The registration of an instance: no name, the instance's model id and
/// description, and one gRPC endpoint at the provider's URI with the given
/// operations, whose context is the instance id.
pub open spec fn registers_instance(
    info: EntityAccessInfo,
    instance_id: Seq<char>,
    data: InstanceData,
    provider_uri: Seq<char>,
    operations: Seq<String>,
) -> bool {
    &&& info.name@.len() == 0
    &&& info.id@ == data.model_id@
    &&& info.description@ == data.description@
    &&& info.endpoint_info_list@.len() == 1
    &&& info.endpoint_info_list@[0].protocol@ == digital_twin_protocol::GRPC@
    &&& texts_of(info.endpoint_info_list@[0].operations@) == texts_of(operations)
    &&& info.endpoint_info_list@[0].uri@ == provider_uri
    &&& info.endpoint_info_list@[0].context@ == instance_id
}

/// Copy a list of texts.
fn copy_texts(texts: &Vec<String>) -> (r: Vec<String>)
    ensures
        texts_of(r@) == texts_of(texts@),
{
    let mut r: Vec<String> = Vec::new();
    let mut i: usize = 0;
    while i < texts.len()
        invariant
            i <= texts@.len(),
            r@.len() == i,
            texts_of(r@) == texts_of(texts@.take(i as int)),
        decreases texts@.len() - i,
    {
        let ghost old_r = r@;
        let t = texts[i].clone();
        r.push(t);
        proof {
            assert forall|j: int| 0 <= j < i + 1 implies #[trigger] texts_of(r@)[j] == texts_of(texts@.take(i + 1))[j] by {
                if j < i {
                    assert(r@[j] == old_r[j]);
                    assert(texts_of(old_r)[j] == texts_of(texts@.take(i as int))[j]);
                    assert(texts@.take(i as int)[j] == texts@.take(i + 1)[j]);
                } else {
                    assert(r@[j] == t);
                    assert(texts@.take(i + 1)[j] == texts@[i as int]);
                }
            }
            assert(texts_of(r@) =~= texts_of(texts@.take(i + 1)));
        }
        i = i + 1;
    }
    proof {
        assert(texts@.take(texts@.len() as int) =~= texts@);
    }
    r
}

/// The registrations of all of a provider's instances, one per instance in
/// the order the instances are kept.
///
/// # Arguments
/// * `instance_map` - The provider's instances.
/// * `provider_uri` - The provider's URI.
/// * `operations` - The operations every instance supports.
pub fn registrations(instance_map: &TextMap<InstanceData>, provider_uri: &str, operations: &Vec<String>) -> (r: Vec<EntityAccessInfo>)
    ensures
        r@.len() == instance_map@.len(),
        forall|i: int| 0 <= i < r@.len() ==> registers_instance(
            #[trigger] r@[i],
            instance_map.keys()[i],
            instance_map@[instance_map.keys()[i]],
            provider_uri@,
            operations@,
        ),
        forall|id: Seq<char>| instance_map@.contains_key(id) ==> exists|i: int|
            0 <= i < r@.len() && #[trigger] r@[i].endpoint_info_list@[0].context@ == id,
{
    let n = instance_map.entry_count();
    let mut r: Vec<EntityAccessInfo> = Vec::new();
    let mut i: usize = 0;
    while i < n
        invariant
            n == instance_map.keys().len(),
            i <= n,
            r@.len() == i,
            forall|j: int| 0 <= j < i ==> registers_instance(
                #[trigger] r@[j],
                instance_map.keys()[j],
                instance_map@[instance_map.keys()[j]],
                provider_uri@,
                operations@,
            ),
        decreases n - i,
    {
        let (instance_id, instance_data) = instance_map.entry_at(i);
        let endpoint_info = EndpointInfo {
            protocol: String::from_str(digital_twin_protocol::GRPC),
            operations: copy_texts(operations),
            uri: String::from_str(provider_uri),
            context: instance_id.clone(),
        };
        let mut endpoint_info_list = Vec::new();
        endpoint_info_list.push(endpoint_info);
        let entity_access_info = EntityAccessInfo {
            name: String::new(),
            id: instance_data.model_id.clone(),
            description: instance_data.description.clone(),
            endpoint_info_list,
        };
        r.push(entity_access_info);
        i = i + 1;
    }
    proof {
        assert forall|id: Seq<char>| instance_map@.contains_key(id) implies exists|i: int|
            0 <= i < r@.len() && #[trigger] r@[i].endpoint_info_list@[0].context@ == id by {
            assert(instance_map.keys().to_set().contains(id));
            let k = instance_map.keys().index_of(id);
            assert(instance_map.keys()[k] == id);
            assert(registers_instance(r@[k], instance_map.keys()[k], instance_map@[instance_map.keys()[k]], provider_uri@, operations@));
        }
    }
    r
}

/// The vehicle core provider's registrations: every instance offers `Get`.
///
/// # Arguments
/// * `provider_state` - The provider's state.
/// * `provider_uri` - The provider's URI.
pub fn vehicle_part_registrations(provider_state: &ProviderState, provider_uri: &str) -> (r: Vec<EntityAccessInfo>)
    ensures
        r@.len() == provider_state.instance_map@.len(),
        forall|i: int| 0 <= i < r@.len() ==> {
            let keys = provider_state.instance_map.keys();
            &&& registers_instance(#[trigger] r@[i], keys[i], provider_state.instance_map@[keys[i]], provider_uri@, r@[i].endpoint_info_list@[0].operations@)
            &&& texts_of(r@[i].endpoint_info_list@[0].operations@) == seq![digital_twin_operation::GET@]
        },
{
    let mut operations = Vec::new();
    operations.push(String::from_str(digital_twin_operation::GET));
    proof { assert(texts_of(operations@) =~= seq![digital_twin_operation::GET@]); }
    registrations(&provider_state.instance_map, provider_uri, &operations)
}

/// The seat massager provider's registrations: every instance offers `Get`
/// and `Invoke`.
///
/// # Arguments
/// * `state` - The provider's state.
/// * `provider_uri` - The provider's URI.
pub fn seat_massager_registrations(state: &RequestState, provider_uri: &str) -> (r: Vec<EntityAccessInfo>)
    ensures
        r@.len() == state.instance_map@.len(),
        forall|i: int| 0 <= i < r@.len() ==> {
            let keys = state.instance_map.keys();
            &&& registers_instance(#[trigger] r@[i], keys[i], state.instance_map@[keys[i]], provider_uri@, r@[i].endpoint_info_list@[0].operations@)
            &&& texts_of(r@[i].endpoint_info_list@[0].operations@)
                == seq![digital_twin_operation::GET@, digital_twin_operation::INVOKE@]
        },
{
    let mut operations = Vec::new();
    operations.push(String::from_str(digital_twin_operation::GET));
    operations.push(String::from_str(digital_twin_operation::INVOKE));
    proof {
        assert(texts_of(operations@) =~= seq![digital_twin_operation::GET@, digital_twin_operation::INVOKE@]);
    }
    registrations(&state.instance_map, provider_uri, &operations)
}

} // verus!
