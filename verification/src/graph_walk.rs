//! The graph consumers' walk through the vehicle's digital twin: from the
//! vehicle to its cabin, to the front left seat, to the seat's massager, and,
//! when that is a premium airbag seat massager, a massage step on it. The
//! consumer performs each request; the walk decides what comes next.

use vstd::prelude::*;
use crate::digital_twin_graph::{
    check_premium_model, find_seat, rendered_member, seat_is_at, unexpected_model_message, SeatPosition,
    SeatRelationship,
};
use crate::graph::find_front_left_seat;
use crate::json::{inspect_json_member, json_member_of, JsonMember, JsonMemberView};

verus! {

/// How the consumer picks the front left seat among the cabin's seats.
#[derive(Clone, Copy, Debug, PartialEq, Eq, Structural)]
pub enum SeatSearch {
    /// The first seat at the place (the digital twin graph consumer).
    FirstMatch,
    /// The last seat at the place (the graph consumer).
    LastMatch,
}

/// Where the walk is.
#[derive(Debug)]
pub enum WalkState {
    /// Waiting for the vehicles found.
    FindingVehicle,
    /// Waiting for the cabin.
    GettingCabin,
    /// Waiting for the seat.
    GettingSeat,
    /// Waiting for the seat massager with this instance id.
    GettingSeatMassager(String),
    /// Waiting for the step's outcome.
    PerformingStep,
    /// The walk is over.
    Finished,
}

/// What the consumer does next.
#[derive(Debug)]
pub enum WalkAction {
    /// Find the instances of the vehicle model.
    FindVehicles,
    /// Get the instance with this id.
    GetInstance(String),
    /// Perform a massage step on the seat massager with this id.
    PerformStep(String),
    /// Stop, with this outcome.
    Stop(Result<(), String>),
}

/// What the consumer's last request gave.
#[derive(Debug)]
pub enum WalkEvent {
    /// The vehicles found: `None` when there are none, else the cabin
    /// instance ids of the first.
    FoundVehicles(Option<Vec<String>>),
    /// The cabin's seat relationships.
    GotCabin(Vec<SeatRelationship>),
    /// The seat's seat massager instance ids.
    GotSeat(Vec<String>),
    /// The seat massager's "@type" member.
    GotSeatMassager(JsonMember),
    /// The step's outcome.
    StepPerformed(Result<(), String>),
}

/// The message when no vehicle is found.
pub open spec fn no_vehicle_message() -> Seq<char> {
    "Unable to find vehicle instances"@
}

/// The message when the vehicle has no cabin.
pub open spec fn no_cabin_message() -> Seq<char> {
    "The vehicle does not have a cabin"@
}

/// The message when the seat has no seat massager.
pub open spec fn no_seat_massager_message() -> Seq<char> {
    "The seat does not have a seat massage"@
}

/// How far along the walk is.
pub open spec fn walk_rank(state: WalkState) -> int {
    match state {
        WalkState::FindingVehicle => 0,
        WalkState::GettingCabin => 1,
        WalkState::GettingSeat => 2,
        WalkState::GettingSeatMassager(_) => 3,
        WalkState::PerformingStep => 4,
        WalkState::Finished => 5,
    }
}

/// The event answers the request that the state waits for (and a seat
/// massager's member comes from a document that parsed).
pub open spec fn event_fits(state: WalkState, event: WalkEvent) -> bool {
    match state {
        WalkState::FindingVehicle => event is FoundVehicles,
        WalkState::GettingCabin => event is GotCabin,
        WalkState::GettingSeat => event is GotSeat,
        WalkState::GettingSeatMassager(_) => event matches WalkEvent::GotSeatMassager(m) && !(m@ is Malformed),
        WalkState::PerformingStep => event is StepPerformed,
        WalkState::Finished => false,
    }
}

/// The member names the premium model.
pub open spec fn names_model(member: JsonMemberView, model_id: Seq<char>) -> bool {
    member matches JsonMemberView::Text { text, .. } && text == model_id
}

/// The action stops the walk with this error message.
pub open spec fn stops_with(action: WalkAction, message: Seq<char>) -> bool {
    action matches WalkAction::Stop(Err(m)) && m@ == message
}

/// The walk begins by finding the vehicles.
pub fn start_walk() -> (r: (WalkState, WalkAction))
    ensures
        r.0 is FindingVehicle,
        r.1 is FindVehicles,
{
    (WalkState::FindingVehicle, WalkAction::FindVehicles)
}

/// The next state and action of the walk, after `event`.
///
/// # Arguments
/// * `state` - Where the walk is.
/// * `event` - What the last request gave.
/// * `search` - How the front left seat is picked.
/// * `premium_model_id` - The premium airbag seat massager's model id.
pub fn next_walk(state: WalkState, event: WalkEvent, search: SeatSearch, premium_model_id: &str) -> (r: (WalkState, WalkAction))
    requires
        event_fits(state, event),
    ensures
        walk_rank(r.0) > walk_rank(state),
        r.1 is Stop <==> r.0 is Finished,
        event matches WalkEvent::FoundVehicles(found) ==> {
            &&& found is None ==> stops_with(r.1, no_vehicle_message())
            &&& found matches Some(cabins) ==> (if cabins@.len() == 0 {
                stops_with(r.1, no_cabin_message())
            } else {
                r.0 is GettingCabin && (r.1 matches WalkAction::GetInstance(id) && id@ == cabins@[0]@)
            })
        },
        event matches WalkEvent::GotCabin(seats) ==> {
            let found = exists|k: int| 0 <= k < seats@.len() && seat_is_at(#[trigger] seats@[k], 1, SeatPosition::Left);
            &&& found ==> r.0 is GettingSeat && r.1 is GetInstance
            &&& r.1 matches WalkAction::GetInstance(id) ==> exists|i: int| {
                &&& 0 <= i < seats@.len()
                &&& seat_is_at(#[trigger] seats@[i], 1, SeatPosition::Left)
                &&& id@ == seats@[i].instance_id@
                &&& search == SeatSearch::FirstMatch
                    ==> forall|k: int| 0 <= k < i ==> !seat_is_at(#[trigger] seats@[k], 1, SeatPosition::Left)
                &&& search == SeatSearch::LastMatch
                    ==> forall|k: int| i < k < seats@.len() ==> !seat_is_at(#[trigger] seats@[k], 1, SeatPosition::Left)
            }
            &&& !found && search == SeatSearch::LastMatch ==> stops_with(r.1, "The front left seat was not found"@)
            &&& !found && search == SeatSearch::FirstMatch && seats@.len() == 0
                ==> stops_with(r.1, "The cabin does not have any seats"@)
            &&& !found && search == SeatSearch::FirstMatch && seats@.len() > 0
                ==> stops_with(r.1, "The seat was not found"@)
        },
        event matches WalkEvent::GotSeat(massagers) ==> (if massagers@.len() == 0 {
            stops_with(r.1, no_seat_massager_message())
        } else {
            (r.0 matches WalkState::GettingSeatMassager(id) && id@ == massagers@[0]@)
                && (r.1 matches WalkAction::GetInstance(id) && id@ == massagers@[0]@)
        }),
        event matches WalkEvent::GotSeatMassager(member) ==> (if names_model(member@, premium_model_id@) {
            r.0 is PerformingStep && (r.1 matches WalkAction::PerformStep(id)
                && state matches WalkState::GettingSeatMassager(expected) && id@ == expected@)
        } else {
            rendered_member(member@) matches Some(rendered) && stops_with(r.1, unexpected_model_message(rendered))
        }),
        event matches WalkEvent::StepPerformed(outcome) ==> (r.1 matches WalkAction::Stop(o) && (match (outcome, o) {
            (Ok(_), Ok(_)) => true,
            (Err(a), Err(b)) => a@ == b@,
            _ => false,
        })),
        r.1 is PerformStep ==> (event matches WalkEvent::GotSeatMassager(member) && names_model(member@, premium_model_id@)),
{
    match event {
        WalkEvent::FoundVehicles(found) => match found {
            None => (WalkState::Finished, WalkAction::Stop(Err(String::from_str("Unable to find vehicle instances")))),
            Some(cabins) => {
                if cabins.len() == 0 {
                    (WalkState::Finished, WalkAction::Stop(Err(String::from_str("The vehicle does not have a cabin"))))
                } else {
                    (WalkState::GettingCabin, WalkAction::GetInstance(cabins[0].clone()))
                }
            },
        },
        WalkEvent::GotCabin(seats) => {
            let seat = match search {
                SeatSearch::FirstMatch => find_seat(&seats, 1, SeatPosition::Left),
                SeatSearch::LastMatch => find_front_left_seat(&seats),
            };
            match seat {
                Ok(id) => (WalkState::GettingSeat, WalkAction::GetInstance(id)),
                Err(m) => (WalkState::Finished, WalkAction::Stop(Err(m))),
            }
        },
        WalkEvent::GotSeat(massagers) => {
            if massagers.len() == 0 {
                (WalkState::Finished, WalkAction::Stop(Err(String::from_str("The seat does not have a seat massage"))))
            } else {
                (WalkState::GettingSeatMassager(massagers[0].clone()), WalkAction::GetInstance(massagers[0].clone()))
            }
        },
        WalkEvent::GotSeatMassager(member) => {
            let id = match state {
                WalkState::GettingSeatMassager(id) => id,
                _ => String::new(),
            };
            match check_premium_model(&member, premium_model_id) {
                Ok(()) => (WalkState::PerformingStep, WalkAction::PerformStep(id)),
                Err(m) => (WalkState::Finished, WalkAction::Stop(Err(m))),
            }
        },
        WalkEvent::StepPerformed(outcome) => (WalkState::Finished, WalkAction::Stop(outcome)),
    }
}

/// The event for a seat massager's serialized value: its "@type" member.
/// `None` when the value is not JSON, which the walk cannot go on with.
///
/// # Arguments
/// * `serialized_value` - The seat massager's serialized value.
pub fn seat_massager_event(serialized_value: &str) -> (r: Option<WalkEvent>)
    ensures
        r is None <==> json_member_of(serialized_value@, "@type"@) is Malformed,
        r matches Some(e) ==> (e matches WalkEvent::GotSeatMassager(m) && m@ == json_member_of(serialized_value@, "@type"@)),
{
    let member = inspect_json_member(serialized_value, "@type");
    if let JsonMember::Malformed(_) = member {
        return None;
    }
    Some(WalkEvent::GotSeatMassager(member))
}

} // verus!
