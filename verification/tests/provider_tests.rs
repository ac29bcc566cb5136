use ibeji_samples::digital_twin_graph::{create_vehicle_parts, find_seat, SeatPosition};
use ibeji_samples::graph::create_seat_massager_state;
use ibeji_samples::managed_subscribe::{frequency_constraint, frequency_ms_argument};
use ibeji_samples::registration::{self, EntityModel};
use ibeji_samples::seat_massager::{self, ProviderProperties};
use ibeji_samples::uri::contains_text;
use ibeji_samples::retry::{next_retry_action, AttemptOutcome, RetryAction};
use ibeji_samples::status::StatusCode;
use ibeji_samples::seat_massager::{next_steps, AnswerEvent, StepsAction, StepsEvent, StepsState};
use ibeji_samples::simulation::{next_ambient_air_temperature, next_stream_value};
use ibeji_samples::streaming::ImageFileIterator;

fn model(name: &str, id: &str) -> EntityModel {
    EntityModel { name: name.to_string(), id: id.to_string(), description: format!("{name} description") }
}

#[test]
fn mixed_provider_registers_four_entities() {
    let ambient = model("AmbientAirTemperature", "dtmi:sdv:HVAC:AmbientAirTemperature;1");
    let ac = model("IsAirConditioningActive", "dtmi:sdv:HVAC:IsAirConditioningActive;1");
    let battery = model("HybridBatteryRemaining", "dtmi:sdv:OBD:HybridBatteryRemaining;1");
    let notification = model("ShowNotification", "dtmi:sdv:HMI:ShowNotification;1");
    let list = registration::mixed_registrations(&ambient, &ac, &battery, &notification, "http://0.0.0.0:1234");
    assert_eq!(list.len(), 4);
    assert_eq!(list[1].name, "IsAirConditioningActive");
    assert_eq!(list[1].id, "dtmi:sdv:HVAC:IsAirConditioningActive;1");
    assert_eq!(list[1].description, "IsAirConditioningActive description");
    let endpoint = &list[1].endpoint_info_list[0];
    assert_eq!(endpoint.protocol, "grpc");
    assert_eq!(endpoint.operations, vec!["Subscribe".to_string(), "Set".to_string()]);
    assert_eq!(endpoint.uri, "http://0.0.0.0:1234");
    assert_eq!(endpoint.context, "dtmi:sdv:HVAC:IsAirConditioningActive;1");
    assert_eq!(list[3].endpoint_info_list[0].operations, vec!["Invoke".to_string()]);
    assert_eq!(list[2].endpoint_info_list[0].context, "dtmi:sdv:OBD:HybridBatteryRemaining;1");
}

#[test]
fn tutorial_and_streaming_registrations() {
    let ambient = model("AmbientAirTemperature", "a-id");
    let ac = model("IsAirConditioningActive", "ac-id");
    let notification = model("ShowNotification", "n-id");
    let list = registration::tutorial_registrations(&ambient, &ac, &notification, "http://0.0.0.0:4010");
    assert_eq!(list.len(), 3);
    assert_eq!(list[0].endpoint_info_list[0].operations, vec!["Get".to_string()]);
    assert_eq!(list[2].endpoint_info_list[0].operations, vec!["Invoke".to_string()]);
    let feed = registration::camera_feed_registration(&model("Feed", "feed-id"), "http://0.0.0.0:4010");
    assert_eq!(feed.endpoint_info_list[0].operations, vec!["Stream".to_string()]);
    assert_eq!(feed.endpoint_info_list[0].context, "feed-id");
}

#[test]
fn single_entity_registrations() {
    let notification = registration::show_notification_registration("n-id", "http://0.0.0.0:4010");
    assert_eq!(notification.name, "ShowNotification");
    assert_eq!(notification.description, "Show a notification on the HMI.");
    assert_eq!(notification.endpoint_info_list[0].context, "n-id");

    let ambient = model("AmbientAirTemperature", "a-id");
    let mqtt = registration::mqtt_ambient_air_temperature_registration(&ambient, "tcp://0.0.0.0:1883", "a-topic");
    assert_eq!(mqtt.endpoint_info_list[0].protocol, "mqtt");
    assert_eq!(mqtt.endpoint_info_list[0].operations, vec!["Subscribe".to_string()]);
    assert_eq!(mqtt.endpoint_info_list[0].uri, "tcp://0.0.0.0:1883");
    assert_eq!(mqtt.endpoint_info_list[0].context, "a-topic");

    let managed = registration::managed_ambient_air_temperature_registration(&ambient);
    assert_eq!(managed.endpoint_info_list[0].operations, vec!["ManagedSubscribe".to_string()]);
    assert_eq!(managed.endpoint_info_list[0].uri, "http://0.0.0.0:5010");
    assert_eq!(managed.endpoint_info_list[0].context, "GetSubscriptionInfo");

    let massager = registration::airbag_massager_registration("m-id", "A massager.", "http://0.0.0.0:4010");
    assert_eq!(massager.name, "");
    assert_eq!(massager.id, "m-id");
    assert_eq!(massager.endpoint_info_list[0].operations, vec!["Get".to_string(), "Invoke".to_string()]);
}

#[test]
fn substring_search() {
    assert!(contains_text("freq_ms=200", "freq_ms="));
    assert!(contains_text("--freq_ms=200", "freq_ms="));
    assert!(!contains_text("freq=200", "freq_ms="));
    assert!(contains_text("abc", ""));
    assert!(!contains_text("ab", "abc"));
}

#[test]
fn frequency_from_command_line() {
    let args = vec!["consumer".to_string(), "freq_ms=2000".to_string(), "freq_ms=5".to_string()];
    assert_eq!(frequency_ms_argument(&args), "2000");
    let none = vec!["consumer".to_string()];
    assert_eq!(frequency_ms_argument(&none), "10000");
    let constraint = frequency_constraint("2000");
    assert_eq!(constraint.constraint_type, "frequency_ms");
    assert_eq!(constraint.value, "2000");
}

#[test]
fn airbag_adjustments_stay_in_range() {
    for _ in 0..200 {
        let a = seat_massager::random_airbag_adjustment();
        assert!((1..=15).contains(&a.airbag_identifier));
        assert!((1..=10).contains(&a.inflation_level));
        assert!((1..=5).contains(&a.inflation_duration_in_seconds));
    }
    let t = seat_massager::perform_step_targeted_payload("seat-massager-1", "PerformStep", "{}".to_string());
    assert_eq!(t.instance_id, "seat-massager-1");
    assert_eq!(t.member_path, "PerformStep");
    assert_eq!(t.operation, "Invoke");
    assert_eq!(t.payload, "{}");
}

#[test]
fn massage_airbags_get_returns_last_set() {
    let id = "dtmi:sdv:AirbagSeatMassager:MassageAirbags;1";
    let mut properties = ProviderProperties::new();
    assert_eq!(
        properties.get_massage_airbags(id).unwrap(),
        r#"{"MassageAirbags":[],"$metadata":{"$model":"dtmi:sdv:AirbagSeatMassager:MassageAirbags;1"}}"#
    );
    assert!(properties.try_set_massage_airbags(r#"{"MassageAirbags":[1,2,3]}"#));
    assert_eq!(
        properties.get_massage_airbags(id).unwrap(),
        r#"{"MassageAirbags":[1,2,3],"$metadata":{"$model":"dtmi:sdv:AirbagSeatMassager:MassageAirbags;1"}}"#
    );
    assert!(!properties.try_set_massage_airbags("not json"));
    assert!(!properties.try_set_massage_airbags(r#"{"Other":[4]}"#));
    assert_eq!(
        properties.get_massage_airbags(id).unwrap(),
        r#"{"MassageAirbags":[1,2,3],"$metadata":{"$model":"dtmi:sdv:AirbagSeatMassager:MassageAirbags;1"}}"#
    );
    properties.set_massage_airbags(r#"{"MassageAirbags":[7]}"#).unwrap();
    assert_eq!(
        properties.get_massage_airbags("m\"q").unwrap(),
        r#"{"MassageAirbags":[7],"$metadata":{"$model":"m\"q"}}"#
    );
}

#[test]
fn massage_airbags_property_round_trips() {
    let id = "massage-airbags-id";
    let mut properties = ProviderProperties::new();
    assert!(properties.set(id, r#"{"MassageAirbags":[4,5]}"#, id));
    let published = properties.get(id, id).unwrap();
    assert!(properties.set(id, &published, id));
    assert_eq!(properties.get(id, id).unwrap(), published);
    assert_eq!(properties.massage_airbags, "[4,5]");
    assert!(properties.get("other", id).is_none());
    assert!(!properties.set("other", r#"{"MassageAirbags":[9]}"#, id));
    assert_eq!(properties.massage_airbags, "[4,5]");
}

#[test]
fn vehicle_parts_are_laid_out() {
    let parts = create_vehicle_parts();
    assert_eq!(parts.seats.len(), 5);
    let massagers: Vec<&str> = parts.seats.iter().map(|s| s.seat_massager_id.as_str()).collect();
    assert_eq!(
        massagers,
        vec![
            "front_left_airbag_seat_massager",
            "front_right_airbag_seat_massager",
            "back_left_airbag_seat_massager",
            "back_center_airbag_seat_massager",
            "back_right_airbag_seat_massager",
        ]
    );
    for seat in &parts.seats {
        assert_eq!(seat.instance_id.len(), 36);
        assert_eq!(seat.instance_id.chars().nth(8), Some('-'));
    }
    assert_eq!(parts.cabin_id.len(), 36);
    assert_eq!(parts.vehicle_id.len(), 36);
    assert_ne!(parts.cabin_id, parts.vehicle_id);
    assert_eq!(find_seat(&parts.cabin_seats, 2, SeatPosition::Center).unwrap(), parts.seats[3].instance_id);
    assert_eq!(find_seat(&parts.cabin_seats, 1, SeatPosition::Right).unwrap(), parts.seats[1].instance_id);
}

#[test]
fn seat_massager_state_has_premium_front_seats() {
    let state = create_seat_massager_state(
        "premium",
        "A premium massager",
        "basic",
        "A basic massager",
        "fl".to_string(),
        "fr".to_string(),
        "bl".to_string(),
        "bc".to_string(),
        "br".to_string(),
    );
    assert_eq!(state.instance_map.len(), 5);
    let front_right = state.instance_map.get("front_right_airbag_seat_massager").unwrap();
    assert_eq!(front_right.model_id, "premium");
    assert_eq!(front_right.serialized_value, "fr");
    let back_center = state.instance_map.get("back_center_airbag_seat_massager").unwrap();
    assert_eq!(back_center.model_id, "basic");
    assert_eq!(back_center.description, "A basic massager");
    assert_eq!(back_center.serialized_value, "bc");
}

#[test]
fn registered_entity_is_discovered() {
    let ac = model("IsAirConditioningActive", "ac-id");
    let list = registration::mixed_registrations(
        &model("A", "a-id"),
        &ac,
        &model("B", "b-id"),
        &model("N", "n-id"),
        "http://0.0.0.0:4010",
    );
    let entity = list.into_iter().nth(1);
    let endpoint = ibeji_samples::utils::select_provider_endpoint(entity, "grpc", &["Set".to_string()]).unwrap();
    assert_eq!(endpoint.uri, "http://0.0.0.0:4010");
    assert_eq!(endpoint.context, "ac-id");
    let none = registration::mixed_registrations(&ac, &ac, &ac, &ac, "u").into_iter().nth(0);
    assert_eq!(
        ibeji_samples::utils::select_provider_endpoint(none, "grpc", &["Set".to_string()]).unwrap_err(),
        "Did not find an endpoint that met our requirements"
    );
}

#[test]
fn vehicle_core_states_hold_every_part() {
    let parts = create_vehicle_parts();
    let seat_values: Vec<String> = (0..5).map(|i| format!("seat-{i}")).collect();
    let state = ibeji_samples::graph::vehicle_core_state(
        &parts, "seat", "A seat", "cabin", "A cabin", "vehicle", "A vehicle",
        &seat_values, "cabin-value".to_string(), "vehicle-value".to_string(),
    );
    assert_eq!(state.instance_map.len(), 7);
    let third = state.instance_map.get(&parts.seats[2].instance_id).unwrap();
    assert_eq!((third.model_id.as_str(), third.description.as_str(), third.serialized_value.as_str()), ("seat", "A seat", "seat-2"));
    let cabin = state.instance_map.get(&parts.cabin_id).unwrap();
    assert_eq!((cabin.model_id.as_str(), cabin.serialized_value.as_str()), ("cabin", "cabin-value"));
    let vehicle = state.instance_map.get(&parts.vehicle_id).unwrap();
    assert_eq!((vehicle.description.as_str(), vehicle.serialized_value.as_str()), ("A vehicle", "vehicle-value"));

    let core = ibeji_samples::digital_twin_graph::vehicle_core_state(
        &parts, "seat", "cabin", "vehicle", &seat_values, "c".to_string(), "v".to_string(),
    );
    assert_eq!(core.instance_map.len(), 7);
    assert_eq!(core.instance_map.get(&parts.seats[4].instance_id).unwrap().serialized_value, "seat-4");
    assert_eq!(core.instance_map.get(&parts.vehicle_id).unwrap().model_id, "vehicle");
}

#[test]
fn massage_steps_wait_for_their_answer() {
    let (state, action) = next_steps(StepsState::Asking, StepsEvent::AskFailed);
    assert_eq!(action, StepsAction::PauseThenAsk);
    let (state, action) = next_steps(state, StepsEvent::AskAccepted("ask-1".to_string()));
    assert_eq!(action, StepsAction::Wait);
    let (state, action) = next_steps(state, StepsEvent::Answer(AnswerEvent::Received("ask-0".to_string())));
    assert_eq!(action, StepsAction::Wait);
    let (mut state, action) = next_steps(state, StepsEvent::Answer(AnswerEvent::TimedOut));
    assert_eq!(action, StepsAction::PauseThenWait);
    for _ in 0..8 {
        let (next, action) = next_steps(state, StepsEvent::Answer(AnswerEvent::TimedOut));
        assert_eq!(action, StepsAction::PauseThenWait);
        state = next;
    }
    let (state, action) = next_steps(state, StepsEvent::Answer(AnswerEvent::TimedOut));
    assert_eq!(action, StepsAction::PauseTwiceThenAsk);
    assert!(matches!(state, StepsState::Asking));
    let (state, _) = next_steps(state, StepsEvent::AskAccepted("ask-2".to_string()));
    let (state, action) = next_steps(state, StepsEvent::Answer(AnswerEvent::Received("ask-2".to_string())));
    assert_eq!(action, StepsAction::PauseThenAsk);
    let (state, _) = next_steps(state, StepsEvent::AskAccepted("ask-3".to_string()));
    let (state, action) = next_steps(state, StepsEvent::Answer(AnswerEvent::ChannelClosed));
    assert_eq!(action, StepsAction::Stop);
    assert!(matches!(state, StepsState::Stopped));
}

#[test]
fn temperature_stream_and_iterator_cycle() {
    let mut values = vec![75];
    let (mut t, mut rising) = (75, true);
    for _ in 0..40 {
        (t, rising) = next_ambient_air_temperature(t, rising);
        values.push(t);
    }
    assert_eq!(&values[..12], &[75, 76, 77, 78, 79, 80, 81, 82, 83, 84, 85, 84]);
    assert_eq!(values[30], 65);
    assert_eq!(values[31], 66);
    let names: Vec<String> = vec!["a".to_string(), "b".to_string(), "c".to_string()];
    let mut it = ImageFileIterator::new("d", names.clone());
    for k in 0..10 {
        assert_eq!(it.next_image_filename().unwrap(), names[k % 3]);
    }
}

#[test]
fn temperature_stream_stops_after_failed_publish() {
    assert_eq!(next_stream_value(75, true, true), Some((76, true)));
    assert_eq!(next_stream_value(85, true, true), Some((84, false)));
    assert_eq!(next_stream_value(65, false, true), Some((66, true)));
    assert_eq!(next_stream_value(75, true, false), None);
    assert_eq!(next_ambient_air_temperature(i32::MAX, false), (i32::MAX - 1, false));
    assert_eq!(next_ambient_air_temperature(i32::MIN, true), (i32::MIN + 1, true));
}

#[test]
fn subsets_survive_more_offers_and_fewer_needs() {
    let need: Vec<String> = vec!["Get".to_string(), "Set".to_string()];
    let offer: Vec<String> = vec!["Set".to_string(), "Get".to_string()];
    assert!(ibeji_samples::is_subset(&need, &offer));
    let mut more = offer.clone();
    more.push("Invoke".to_string());
    assert!(ibeji_samples::is_subset(&need, &more));
    for k in 0..=need.len() {
        assert!(ibeji_samples::is_subset(&need[..k], &offer));
    }
}

#[test]
fn negative_retry_limit_allows_one_attempt() {
    assert_eq!(next_retry_action(0, -1, AttemptOutcome::Failed(StatusCode::Internal)), RetryAction::ReturnLastFailure);
    assert_eq!(
        next_retry_action(0, 2, AttemptOutcome::Failed(StatusCode::Internal)),
        RetryAction::SleepThenRetry { retries: 1 }
    );
}

#[test]
fn ask_ids_are_hyphenated_uuids() {
    let id = seat_massager::new_ask_id();
    assert_eq!(id.len(), 36);
    for position in [8, 13, 18, 23] {
        assert_eq!(id.chars().nth(position), Some('-'));
    }
    assert_ne!(id, seat_massager::new_ask_id());
}
