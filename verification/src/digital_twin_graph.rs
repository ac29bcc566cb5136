//! The digital twin graph samples: the vehicle core provider's instances and
//! the consumer's walk from the vehicle to a premium airbag seat massager.

use vstd::prelude::*;
use crate::collections::{TextMap, insert_all};
use crate::json::{inspect_json_member, JsonMember, JsonMemberView, json_member_of};
use crate::text::{join2, text_eq};

verus! {

/// Instance data.
#[derive(Debug)]
pub struct InstanceData {
    /// Model Id.
    pub model_id: String,
    /// Serialized value (using JSON-LD as a string).
    pub serialized_value: String,
}

/// The vehicle core provider's state.
pub struct ProviderState {
    /// Maps an instance id to its associated instance data.
    pub instance_map: TextMap<InstanceData>,
}

/// Add an entry to the instance map.
/// # Arguments
/// * `instance_map` - The instance map.
/// * `instance_id` - The instance id.
/// * `model_id` - The model id.
/// * `serialized_value` - The serialized value.
pub fn add_entry_to_instance_map(
    instance_map: &mut TextMap<InstanceData>,
    instance_id: String,
    model_id: String,
    serialized_value: String,
)
    ensures
        final(instance_map)@ == old(instance_map)@.insert(instance_id@, InstanceData { model_id, serialized_value }),
{
    instance_map.insert(instance_id, InstanceData { model_id, serialized_value });
}

/// Where a seat is in its row.
#[derive(Clone, Copy, Debug, PartialEq, Eq, Structural)]
pub enum SeatPosition {
    Left,
    Center,
    Right,
}

/// A cabin's relationship to one of its seats.
#[derive(Debug)]
pub struct SeatRelationship {
    /// The seat's instance id.
    pub instance_id: String,
    /// The seat's row (1 is the front row).
    pub seat_row: i32,
    /// The seat's position in its row.
    pub seat_position: SeatPosition,
}

/// The first of `values`, or `message` when there is none.
///
/// # Arguments
/// * `values` - The candidates, in order.
/// * `message` - The error message when there is no candidate.
pub fn first_or_error(values: &Vec<String>, message: &str) -> (r: Result<String, String>)
    ensures
        values@.len() > 0 ==> (r matches Ok(v) && v@ == values@[0]@),
        values@.len() == 0 ==> (r matches Err(m) && m@ == message@),
{
    if values.len() == 0 {
        Err(String::from_str(message))
    } else {
        Ok(values[0].clone())
    }
}

/// The seat relationship is for the seat at `seat_row` and `seat_position`.
pub open spec fn seat_is_at(seat: SeatRelationship, seat_row: i32, seat_position: SeatPosition) -> bool {
    seat.seat_row == seat_row && seat.seat_position == seat_position
}

/// Find the instance id of the first seat of the cabin at the given row and position.
///
/// # Arguments
/// * `seats` - The cabin's seat relationships.
/// * `seat_row` - The seat row.
/// * `seat_position` - The seat position.
pub fn find_seat(seats: &Vec<SeatRelationship>, seat_row: i32, seat_position: SeatPosition) -> (r: Result<String, String>)
    ensures
        seats@.len() == 0 ==> (r matches Err(m) && m@ == "The cabin does not have any seats"@),
        r matches Ok(id) ==> exists|i: int|
            0 <= i < seats@.len() && seat_is_at(#[trigger] seats@[i], seat_row, seat_position)
                && id@ == seats@[i].instance_id@
                && forall|k: int| 0 <= k < i ==> !seat_is_at(#[trigger] seats@[k], seat_row, seat_position),
        seats@.len() > 0 && (forall|k: int| 0 <= k < seats@.len() ==> !seat_is_at(#[trigger] seats@[k], seat_row, seat_position))
            ==> (r matches Err(m) && m@ == "The seat was not found"@),
        (exists|k: int| 0 <= k < seats@.len() && seat_is_at(#[trigger] seats@[k], seat_row, seat_position)) ==> r is Ok,
{
    if seats.len() == 0 {
        return Err(String::from_str("The cabin does not have any seats"));
    }
    let mut i: usize = 0;
    while i < seats.len()
        invariant
            i <= seats@.len(),
            forall|k: int| 0 <= k < i ==> !seat_is_at(#[trigger] seats@[k], seat_row, seat_position),
        decreases seats@.len() - i,
    {
        if seats[i].seat_row == seat_row && seats[i].seat_position == seat_position {
            return Ok(seats[i].instance_id.clone());
        }
        i = i + 1;
    }
    Err(String::from_str("The seat was not found"))
}

/// The message given when a seat massager is not of the expected model;
/// `rendered` is the JSON rendering of its "@type" member.
pub open spec fn unexpected_model_message(rendered: Seq<char>) -> Seq<char> {
    "The seat massager instance is not of the expected model, instead it is a "@ + rendered
}

/// The JSON rendering of a member, as serde_json's `Index` yields it (a
/// missing member is `null`); `None` for a document that does not parse.
pub open spec fn rendered_member(member: JsonMemberView) -> Option<Seq<char>> {
    match member {
        JsonMemberView::Malformed(_) => None,
        JsonMemberView::Absent => Some("null"@),
        JsonMemberView::Text { rendered, .. } => Some(rendered),
        JsonMemberView::NonText(rendered) => Some(rendered),
    }
}

/// Check a seat massager's "@type" member (as read from its serialized
/// value) against the premium airbag seat massager's model id.
///
/// # Arguments
/// * `model_member` - The seat massager's "@type" member.
/// * `premium_model_id` - The premium airbag seat massager's model id.
pub fn check_premium_model(model_member: &JsonMember, premium_model_id: &str) -> (r: Result<(), String>)
    requires
        !(model_member@ is Malformed),
    ensures
        (model_member@ matches JsonMemberView::Text { text, .. } && text == premium_model_id@) ==> r is Ok,
        !(model_member@ matches JsonMemberView::Text { text, .. } && text == premium_model_id@) ==> (r matches Err(m)
            && rendered_member(model_member@) matches Some(rendered) && m@ == unexpected_model_message(rendered)),
{
    match model_member {
        JsonMember::Text { text, rendered } => {
            if text_eq(text.as_str(), premium_model_id) {
                Ok(())
            } else {
                Err(join2("The seat massager instance is not of the expected model, instead it is a ", rendered.as_str()))
            }
        },
        JsonMember::NonText(rendered) => Err(join2(
            "The seat massager instance is not of the expected model, instead it is a ",
            rendered.as_str(),
        )),
        JsonMember::Absent => Err(join2("The seat massager instance is not of the expected model, instead it is a ", "null")),
        JsonMember::Malformed(_) => Err(String::new()),
    }
}

/// Check that a seat massager's serialized value is a premium airbag seat
/// massager. `None` when the value is not JSON at all.
///
/// # Arguments
/// * `serialized_value` - The seat massager's serialized value.
/// * `premium_model_id` - The premium airbag seat massager's model id.
pub fn check_premium_seat_massager(serialized_value: &str, premium_model_id: &str) -> (r: Option<Result<(), String>>)
    ensures
        (json_member_of(serialized_value@, "@type"@) is Malformed) <==> r is None,
        (json_member_of(serialized_value@, "@type"@) matches JsonMemberView::Text { text, .. } && text == premium_model_id@)
            ==> r matches Some(Ok(_)),
        r matches Some(Err(m)) ==> rendered_member(json_member_of(serialized_value@, "@type"@)) matches Some(rendered)
            && m@ == unexpected_model_message(rendered),
        !(json_member_of(serialized_value@, "@type"@) is Malformed)
            && !(json_member_of(serialized_value@, "@type"@) matches JsonMemberView::Text { text, .. } && text == premium_model_id@)
            ==> r matches Some(Err(_)),
{
    let member = inspect_json_member(serialized_value, "@type");
    if let JsonMember::Malformed(_) = member {
        return None;
    }
    Some(check_premium_model(&member, premium_model_id))
}

// The seat massager ids.
pub const FRONT_LEFT_AIRBAG_SEAT_MASSAGER_INSTANCE_ID: &'static str = "front_left_airbag_seat_massager";
pub const FRONT_RIGHT_AIRBAG_SEAT_MASSAGER_INSTANCE_ID: &'static str = "front_right_airbag_seat_massager";
pub const BACK_LEFT_AIRBAG_SEAT_MASSAGER_INSTANCE_ID: &'static str = "back_left_airbag_seat_massager";
pub const BACK_CENTER_AIRBAG_SEAT_MASSAGER_INSTANCE_ID: &'static str = "back_center_airbag_seat_massager";
pub const BACK_RIGHT_AIRBAG_SEAT_MASSAGER_INSTANCE_ID: &'static str = "back_right_airbag_seat_massager";

/// The row and position of each of the cabin's five seats, in order: front
/// left, front right, back left, back center, back right.
pub open spec fn seat_place(i: int) -> (i32, SeatPosition) {
    if i == 0 {
        (1, SeatPosition::Left)
    } else if i == 1 {
        (1, SeatPosition::Right)
    } else if i == 2 {
        (2, SeatPosition::Left)
    } else if i == 3 {
        (2, SeatPosition::Center)
    } else {
        (2, SeatPosition::Right)
    }
}

/// The seats hold the given instance ids at the places of the cabin's layout.
pub open spec fn is_cabin_layout(seats: Seq<SeatRelationship>, ids: Seq<Seq<char>>) -> bool {
    &&& seats.len() == 5
    &&& ids.len() == 5
    &&& forall|i: int| 0 <= i < 5 ==> {
        &&& (#[trigger] seats[i]).instance_id@ == ids[i]
        &&& seats[i].seat_row == seat_place(i).0
        &&& seats[i].seat_position == seat_place(i).1
    }
}

/// The cabin's seat relationships: two seats in the front row (left, right)
/// and three in the back row (left, center, right).
///
/// # Arguments
/// * `front_left` - The front left seat's instance id, and so on.
pub fn cabin_seats(
    front_left: String,
    front_right: String,
    back_left: String,
    back_center: String,
    back_right: String,
) -> (seats: Vec<SeatRelationship>)
    ensures
        is_cabin_layout(seats@, seq![front_left@, front_right@, back_left@, back_center@, back_right@]),
{
    let mut seats = Vec::new();
    seats.push(SeatRelationship { instance_id: front_left, seat_row: 1, seat_position: SeatPosition::Left });
    seats.push(SeatRelationship { instance_id: front_right, seat_row: 1, seat_position: SeatPosition::Right });
    seats.push(SeatRelationship { instance_id: back_left, seat_row: 2, seat_position: SeatPosition::Left });
    seats.push(SeatRelationship { instance_id: back_center, seat_row: 2, seat_position: SeatPosition::Center });
    seats.push(SeatRelationship { instance_id: back_right, seat_row: 2, seat_position: SeatPosition::Right });
    seats
}

/// In the cabin's layout each place holds exactly one seat, so a consumer
/// that looks for the seat at a place of the layout finds the seat the
/// provider put there, whether it takes the first or the last match.
pub proof fn lemma_layout_places_are_unique(seats: Seq<SeatRelationship>, ids: Seq<Seq<char>>, k: int)
    requires
        is_cabin_layout(seats, ids),
        0 <= k < 5,
    ensures
        seat_is_at(seats[k], seat_place(k).0, seat_place(k).1),
        forall|j: int| 0 <= j < seats.len() && j != k ==> !seat_is_at(#[trigger] seats[j], seat_place(k).0, seat_place(k).1),
{
    assert forall|j: int| 0 <= j < seats.len() && j != k implies !seat_is_at(#[trigger] seats[j], seat_place(k).0, seat_place(k).1) by {
        assert(seats[j].seat_row == seat_place(j).0);
    }
}

/// A fresh instance id: a random (version 4) UUID in its hyphenated form
/// (`uuid::Uuid::new_v4`, shown with `Display`). The uuid source writes 36
/// characters with hyphens at positions 8, 13, 18 and 23; which id comes is
/// left to chance, so two calls are not promised to differ.
#[verifier::external_body]
pub(crate) fn new_instance_id() -> (r: String)
    ensures
        r@.len() == 36,
        r@[8] == '-' && r@[13] == '-' && r@[18] == '-' && r@[23] == '-',
{
    uuid::Uuid::new_v4().to_string()
}

/// The massager of the seat at each place of the cabin's layout.
pub open spec fn massager_at(i: int) -> Seq<char> {
    if i == 0 {
        FRONT_LEFT_AIRBAG_SEAT_MASSAGER_INSTANCE_ID@
    } else if i == 1 {
        FRONT_RIGHT_AIRBAG_SEAT_MASSAGER_INSTANCE_ID@
    } else if i == 2 {
        BACK_LEFT_AIRBAG_SEAT_MASSAGER_INSTANCE_ID@
    } else if i == 3 {
        BACK_CENTER_AIRBAG_SEAT_MASSAGER_INSTANCE_ID@
    } else {
        BACK_RIGHT_AIRBAG_SEAT_MASSAGER_INSTANCE_ID@
    }
}

/// A seat of the simulated vehicle and the massager it holds.
#[derive(Debug)]
pub struct SeatPart {
    pub instance_id: String,
    pub seat_massager_id: String,
}

/// The parts of the simulated vehicle: its five seats, the cabin that holds
/// them, and the vehicle that holds the cabin.
#[derive(Debug)]
pub struct VehicleParts {
    pub seats: Vec<SeatPart>,
    pub cabin_id: String,
    pub cabin_seats: Vec<SeatRelationship>,
    pub vehicle_id: String,
}

/// The instance ids of the seats, in order.
pub open spec fn seat_ids(seats: Seq<SeatPart>) -> Seq<Seq<char>> {
    seats.map_values(|s: SeatPart| s.instance_id@)
}

/// Is `id` in the form of a fresh instance id?
pub open spec fn is_instance_id(id: Seq<char>) -> bool {
    id.len() == 36 && id[8] == '-' && id[13] == '-' && id[18] == '-' && id[23] == '-'
}

/// Create the parts of the simulated vehicle, each with a fresh instance id:
/// five seats, each holding the massager of its place (front left, front
/// right, back left, back center, back right), a cabin whose seats are laid
/// out in that order, and a vehicle.
pub fn create_vehicle_parts() -> (p: VehicleParts)
    ensures
        p.seats@.len() == 5,
        forall|i: int| 0 <= i < 5 ==> (#[trigger] p.seats@[i]).seat_massager_id@ == massager_at(i)
            && is_instance_id(p.seats@[i].instance_id@),
        is_cabin_layout(p.cabin_seats@, seat_ids(p.seats@)),
        is_instance_id(p.cabin_id@),
        is_instance_id(p.vehicle_id@),
{
    let front_left = new_instance_id();
    let front_right = new_instance_id();
    let back_left = new_instance_id();
    let back_center = new_instance_id();
    let back_right = new_instance_id();
    let cabin_seats = cabin_seats(
        front_left.clone(),
        front_right.clone(),
        back_left.clone(),
        back_center.clone(),
        back_right.clone(),
    );
    let mut seats = Vec::new();
    seats.push(SeatPart { instance_id: front_left, seat_massager_id: String::from_str(FRONT_LEFT_AIRBAG_SEAT_MASSAGER_INSTANCE_ID) });
    seats.push(SeatPart { instance_id: front_right, seat_massager_id: String::from_str(FRONT_RIGHT_AIRBAG_SEAT_MASSAGER_INSTANCE_ID) });
    seats.push(SeatPart { instance_id: back_left, seat_massager_id: String::from_str(BACK_LEFT_AIRBAG_SEAT_MASSAGER_INSTANCE_ID) });
    seats.push(SeatPart { instance_id: back_center, seat_massager_id: String::from_str(BACK_CENTER_AIRBAG_SEAT_MASSAGER_INSTANCE_ID) });
    seats.push(SeatPart { instance_id: back_right, seat_massager_id: String::from_str(BACK_RIGHT_AIRBAG_SEAT_MASSAGER_INSTANCE_ID) });
    proof {
        assert(seat_ids(seats@) =~= seq![
            seats@[0].instance_id@,
            seats@[1].instance_id@,
            seats@[2].instance_id@,
            seats@[3].instance_id@,
            seats@[4].instance_id@,
        ]);
    }
    let cabin_id = new_instance_id();
    let vehicle_id = new_instance_id();
    VehicleParts { seats, cabin_id, cabin_seats, vehicle_id }
}

/// What an instance's data says: its model id and serialized value.
pub open spec fn instance_view(d: InstanceData) -> (Seq<char>, Seq<char>) {
    (d.model_id@, d.serialized_value@)
}

/// The vehicle core provider's instances, in the order they are added: each
/// seat under its own id with the seat model, then the cabin and the vehicle
/// with theirs.
pub open spec fn vehicle_core_entries(
    parts: VehicleParts,
    seat_model_id: Seq<char>,
    cabin_model_id: Seq<char>,
    vehicle_model_id: Seq<char>,
    seat_values: Seq<String>,
    cabin_value: Seq<char>,
    vehicle_value: Seq<char>,
) -> Seq<(Seq<char>, (Seq<char>, Seq<char>))> {
    Seq::new(
        parts.seats@.len(),
        |i: int| (parts.seats@[i].instance_id@, (seat_model_id, seat_values[i]@)),
    ).push((parts.cabin_id@, (cabin_model_id, cabin_value))).push(
        (parts.vehicle_id@, (vehicle_model_id, vehicle_value)),
    )
}

/// The vehicle core provider's state: the vehicle's seats, cabin and vehicle,
/// each under its instance id with its model's id and its serialized
/// value (`seat_values[i]` for the i-th seat).
///
/// # Arguments
/// * `parts` - The vehicle's parts.
/// * `seat_model_id` - The seat model's id, and so on for the other models.
/// * `seat_values` - The serialized seats, in the order of the parts' seats.
/// * `cabin_value` - The serialized cabin.
/// * `vehicle_value` - The serialized vehicle.
pub fn vehicle_core_state(
    parts: &VehicleParts,
    seat_model_id: &str,
    cabin_model_id: &str,
    vehicle_model_id: &str,
    seat_values: &Vec<String>,
    cabin_value: String,
    vehicle_value: String,
) -> (state: ProviderState)
    requires
        seat_values@.len() == parts.seats@.len(),
    ensures
        state.instance_map@.map_values(|d: InstanceData| instance_view(d)) == insert_all(
            Map::empty(),
            vehicle_core_entries(
                *parts,
                seat_model_id@,
                cabin_model_id@,
                vehicle_model_id@,
                seat_values@,
                cabin_value@,
                vehicle_value@,
            ),
        ),
{
    let ghost entries = vehicle_core_entries(
        *parts,
        seat_model_id@,
        cabin_model_id@,
        vehicle_model_id@,
        seat_values@,
        cabin_value@,
        vehicle_value@,
    );
    let n = parts.seats.len();
    let mut instance_map: TextMap<InstanceData> = TextMap::new();
    proof {
        assert(entries.take(0) =~= Seq::<(Seq<char>, (Seq<char>, Seq<char>))>::empty());
        assert(instance_map@.map_values(|d: InstanceData| instance_view(d)) =~= Map::empty());
    }
    let mut i: usize = 0;
    while i < n
        invariant
            n == parts.seats@.len(),
            n == seat_values@.len(),
            i <= n,
            entries.len() == n + 2,
            entries == vehicle_core_entries(
                *parts,
                seat_model_id@,
                cabin_model_id@,
                vehicle_model_id@,
                seat_values@,
                cabin_value@,
                vehicle_value@,
            ),
            instance_map@.map_values(|d: InstanceData| instance_view(d)) == insert_all(Map::empty(), entries.take(i as int)),
        decreases n - i,
    {
        let ghost before = instance_map@;
        add_entry_to_instance_map(
            &mut instance_map,
            parts.seats[i].instance_id.clone(),
            String::from_str(seat_model_id),
            seat_values[i].clone(),
        );
        proof {
            let e = entries[i as int];
            assert(entries.take(i + 1).drop_last() =~= entries.take(i as int));
            assert(entries.take(i + 1).last() == e);
            assert(instance_map@.map_values(|d: InstanceData| instance_view(d))
                =~= before.map_values(|d: InstanceData| instance_view(d)).insert(e.0, e.1));
        }
        i = i + 1;
    }
    let ghost before_cabin = instance_map@;
    add_entry_to_instance_map(
        &mut instance_map,
        parts.cabin_id.clone(),
        String::from_str(cabin_model_id),
        cabin_value,
    );
    proof {
        assert(entries.take(n + 1).drop_last() =~= entries.take(n as int));
        assert(entries.take(n + 1).last() == entries[n as int]);
        assert(entries[n as int] == (parts.cabin_id@, (cabin_model_id@, cabin_value@)));
        assert(instance_map@.map_values(|d: InstanceData| instance_view(d))
            =~= before_cabin.map_values(|d: InstanceData| instance_view(d)).insert(entries[n as int].0, entries[n as int].1));
        assert(instance_map@.map_values(|d: InstanceData| instance_view(d)) == insert_all(Map::empty(), entries.take(n + 1)));
    }
    let ghost before_vehicle = instance_map@;
    add_entry_to_instance_map(
        &mut instance_map,
        parts.vehicle_id.clone(),
        String::from_str(vehicle_model_id),
        vehicle_value,
    );
    proof {
        assert(entries.take(n + 2).drop_last() =~= entries.take(n + 1));
        assert(entries.take(n + 2) =~= entries);
        assert(entries.take(n + 2).last() == entries[n + 1]);
        assert(entries[n + 1] == (parts.vehicle_id@, (vehicle_model_id@, vehicle_value@)));
        assert(instance_map@.map_values(|d: InstanceData| instance_view(d))
            =~= before_vehicle.map_values(|d: InstanceData| instance_view(d)).insert(entries[n + 1].0, entries[n + 1].1));
        assert(instance_map@.map_values(|d: InstanceData| instance_view(d)) == insert_all(Map::empty(), entries.take(n + 2)));
    }
    ProviderState { instance_map }
}

/// A registration with the digital twin registry.
#[derive(Debug)]
pub struct EntityAccessInfo {
    pub provider_id: String,
    pub instance_id: String,
    pub model_id: String,
    pub protocol: String,
    pub operations: Vec<String>,
    pub uri: String,
    pub context: String,
}

/// The registration of an instance with the registry: the provider's id,
/// the instance, its model, the gRPC protocol, the `Get` operation, the
/// provider's URI and an empty context.
pub open spec fn registers_part(
    info: EntityAccessInfo,
    provider_id: Seq<char>,
    instance_id: Seq<char>,
    data: InstanceData,
    provider_uri: Seq<char>,
) -> bool {
    &&& info.provider_id@ == provider_id
    &&& info.instance_id@ == instance_id
    &&& info.model_id@ == data.model_id@
    &&& info.protocol@ == crate::constants::digital_twin_protocol::GRPC@
    &&& info.operations@.len() == 1
    &&& info.operations@[0]@ == crate::constants::digital_twin_operation::GET@
    &&& info.uri@ == provider_uri
    &&& info.context@.len() == 0
}

/// The registrations of all of the vehicle core provider's instances, one per
/// instance in the order the instances are kept.
///
/// # Arguments
/// * `provider_id` - The provider's ID.
/// * `provider_uri` - The provider's URI.
/// * `provider_state` - The provider's state.
pub fn vehicle_part_registrations(provider_id: &str, provider_uri: &str, provider_state: &ProviderState) -> (r: Vec<EntityAccessInfo>)
    ensures
        r@.len() == provider_state.instance_map@.len(),
        forall|i: int| 0 <= i < r@.len() ==> registers_part(
            #[trigger] r@[i],
            provider_id@,
            provider_state.instance_map.keys()[i],
            provider_state.instance_map@[provider_state.instance_map.keys()[i]],
            provider_uri@,
        ),
{
    let n = provider_state.instance_map.entry_count();
    let mut r: Vec<EntityAccessInfo> = Vec::new();
    let mut i: usize = 0;
    while i < n
        invariant
            n == provider_state.instance_map.keys().len(),
            i <= n,
            r@.len() == i,
            forall|j: int| 0 <= j < i ==> registers_part(
                #[trigger] r@[j],
                provider_id@,
                provider_state.instance_map.keys()[j],
                provider_state.instance_map@[provider_state.instance_map.keys()[j]],
                provider_uri@,
            ),
        decreases n - i,
    {
        let (instance_id, instance_data) = provider_state.instance_map.entry_at(i);
        let mut operations = Vec::new();
        operations.push(String::from_str(crate::constants::digital_twin_operation::GET));
        r.push(EntityAccessInfo {
            provider_id: String::from_str(provider_id),
            instance_id: instance_id.clone(),
            model_id: instance_data.model_id.clone(),
            protocol: String::from_str(crate::constants::digital_twin_protocol::GRPC),
            operations,
            uri: String::from_str(provider_uri),
            context: String::new(),
        });
        i = i + 1;
    }
    r
}

} // verus!
