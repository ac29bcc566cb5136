use ibeji_samples::digital_twin_graph::{SeatPosition, SeatRelationship};
use ibeji_samples::graph_walk::{
    next_walk, seat_massager_event, start_walk, SeatSearch, WalkAction, WalkEvent, WalkState,
};

fn seat(id: &str, row: i32, position: SeatPosition) -> SeatRelationship {
    SeatRelationship { instance_id: id.to_string(), seat_row: row, seat_position: position }
}

fn cabin_with_two_front_left_seats() -> Vec<SeatRelationship> {
    vec![
        seat("first-fl", 1, SeatPosition::Left),
        seat("fr", 1, SeatPosition::Right),
        seat("second-fl", 1, SeatPosition::Left),
    ]
}

fn expect_get(action: &WalkAction) -> String {
    match action {
        WalkAction::GetInstance(id) => id.clone(),
        other => panic!("expected a get, got {other:?}"),
    }
}

fn expect_error(action: WalkAction) -> String {
    match action {
        WalkAction::Stop(Err(m)) => m,
        other => panic!("expected an error, got {other:?}"),
    }
}

#[test]
fn walk_reaches_a_premium_massager() {
    let (state, action) = start_walk();
    assert!(matches!(action, WalkAction::FindVehicles));
    let (state, action) =
        next_walk(state, WalkEvent::FoundVehicles(Some(vec!["cabin-1".to_string()])), SeatSearch::FirstMatch, "premium");
    assert_eq!(expect_get(&action), "cabin-1");
    let (state, action) =
        next_walk(state, WalkEvent::GotCabin(cabin_with_two_front_left_seats()), SeatSearch::FirstMatch, "premium");
    assert_eq!(expect_get(&action), "first-fl");
    let (state, action) =
        next_walk(state, WalkEvent::GotSeat(vec!["massager-1".to_string()]), SeatSearch::FirstMatch, "premium");
    assert_eq!(expect_get(&action), "massager-1");
    let event = seat_massager_event(r#"{"@type":"premium","instance_id":"massager-1"}"#).unwrap();
    let (state, action) = next_walk(state, event, SeatSearch::FirstMatch, "premium");
    match action {
        WalkAction::PerformStep(id) => assert_eq!(id, "massager-1"),
        other => panic!("expected a step, got {other:?}"),
    }
    let (state, action) = next_walk(state, WalkEvent::StepPerformed(Ok(())), SeatSearch::FirstMatch, "premium");
    assert!(matches!(state, WalkState::Finished));
    assert!(matches!(action, WalkAction::Stop(Ok(()))));
}

#[test]
fn last_match_takes_the_last_front_left_seat() {
    let (state, _) = next_walk(
        WalkState::FindingVehicle,
        WalkEvent::FoundVehicles(Some(vec!["c".to_string()])),
        SeatSearch::LastMatch,
        "premium",
    );
    let (_, action) =
        next_walk(state, WalkEvent::GotCabin(cabin_with_two_front_left_seats()), SeatSearch::LastMatch, "premium");
    assert_eq!(expect_get(&action), "second-fl");
}

#[test]
fn walk_stops_with_the_reason() {
    let (_, action) = next_walk(WalkState::FindingVehicle, WalkEvent::FoundVehicles(None), SeatSearch::FirstMatch, "p");
    assert_eq!(expect_error(action), "Unable to find vehicle instances");
    let (_, action) =
        next_walk(WalkState::FindingVehicle, WalkEvent::FoundVehicles(Some(vec![])), SeatSearch::FirstMatch, "p");
    assert_eq!(expect_error(action), "The vehicle does not have a cabin");
    let (_, action) = next_walk(WalkState::GettingCabin, WalkEvent::GotCabin(vec![]), SeatSearch::FirstMatch, "p");
    assert_eq!(expect_error(action), "The cabin does not have any seats");
    let back = vec![seat("b", 2, SeatPosition::Left)];
    let (_, action) = next_walk(WalkState::GettingCabin, WalkEvent::GotCabin(back), SeatSearch::FirstMatch, "p");
    assert_eq!(expect_error(action), "The seat was not found");
    let (_, action) = next_walk(WalkState::GettingCabin, WalkEvent::GotCabin(vec![]), SeatSearch::LastMatch, "p");
    assert_eq!(expect_error(action), "The front left seat was not found");
    let (_, action) = next_walk(WalkState::GettingSeat, WalkEvent::GotSeat(vec![]), SeatSearch::FirstMatch, "p");
    assert_eq!(expect_error(action), "The seat does not have a seat massage");
    let basic = seat_massager_event(r#"{"@type":"basic"}"#).unwrap();
    let (_, action) =
        next_walk(WalkState::GettingSeatMassager("m".to_string()), basic, SeatSearch::FirstMatch, "premium");
    assert_eq!(
        expect_error(action),
        "The seat massager instance is not of the expected model, instead it is a \"basic\""
    );
    let untyped = seat_massager_event(r#"{"instance_id":"m"}"#).unwrap();
    let (_, action) =
        next_walk(WalkState::GettingSeatMassager("m".to_string()), untyped, SeatSearch::FirstMatch, "premium");
    assert_eq!(
        expect_error(action),
        "The seat massager instance is not of the expected model, instead it is a null"
    );
    assert!(seat_massager_event("not json").is_none());
    let (_, action) = next_walk(
        WalkState::PerformingStep,
        WalkEvent::StepPerformed(Err("invoke failed".to_string())),
        SeatSearch::FirstMatch,
        "p",
    );
    assert_eq!(expect_error(action), "invoke failed");
}
