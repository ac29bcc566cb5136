use ibeji_samples::collections::TextMap;
use ibeji_samples::digital_twin_graph::{self, SeatPosition, SeatRelationship};
use ibeji_samples::discovery::UriSource;
use ibeji_samples::graph::{self, AskPlan, InstanceData};
use ibeji_samples::json::JsonMember;
use ibeji_samples::misc::{self, DiscoveredService};
use ibeji_samples::mixed::{self, CommandIds};
use ibeji_samples::registry::{select_endpoint, select_endpoint_or_error, EndpointInfo, EntityAccessInfo};
use ibeji_samples::retry::{next_retry_action, AttemptOutcome, RetryAction};
use ibeji_samples::seat_massager::{self, AnswerEvent, AnswerWaitAction, TargetedPayload};
use ibeji_samples::simulation::{next_ambient_air_temperature, VehicleClimate};
use ibeji_samples::status::StatusCode;
use ibeji_samples::streaming::{encode_image_file, ImageFileIterator};
use ibeji_samples::topic::convert_dtmi_to_topic;
use ibeji_samples::tutorial;
use ibeji_samples::uri::{get_uri_in_container, replace};
use ibeji_samples::utils::{self, ServiceMetadata};

fn endpoint(protocol: &str, operations: &[&str], uri: &str) -> EndpointInfo {
    EndpointInfo {
        protocol: protocol.to_string(),
        operations: operations.iter().map(|o| o.to_string()).collect(),
        uri: uri.to_string(),
        context: "ctx".to_string(),
    }
}

#[test]
fn select_endpoint_takes_first_match() {
    let list = vec![
        endpoint("mqtt", &["Subscribe"], "tcp://a"),
        endpoint("grpc", &["Get"], "http://b"),
        endpoint("grpc", &["Subscribe", "Set"], "http://c"),
        endpoint("grpc", &["Set", "Subscribe", "Get"], "http://d"),
    ];
    let ops = vec!["Subscribe".to_string(), "Set".to_string()];
    let chosen = select_endpoint(list, "grpc", &ops).unwrap();
    assert_eq!(chosen.uri, "http://c");
}

#[test]
fn select_endpoint_reports_no_match() {
    let list = vec![endpoint("mqtt", &["Subscribe"], "tcp://a")];
    let ops = vec!["Subscribe".to_string()];
    assert!(select_endpoint(vec![], "grpc", &ops).is_none());
    assert_eq!(
        select_endpoint_or_error(list, "grpc", &ops).unwrap_err(),
        "Did not find an endpoint that met our requirements"
    );
}

#[test]
fn select_provider_endpoint_errors() {
    let ops = vec!["Invoke".to_string()];
    assert_eq!(utils::select_provider_endpoint(None, "grpc", &ops).unwrap_err(), "Did not find the entity");
    let info = EntityAccessInfo {
        name: "ShowNotification".to_string(),
        id: "dtmi:x;1".to_string(),
        description: "d".to_string(),
        endpoint_info_list: vec![endpoint("grpc", &["Invoke"], "http://0.0.0.0:4010")],
    };
    let chosen = utils::select_provider_endpoint(Some(info), "grpc", &ops).unwrap();
    assert_eq!(chosen.uri, "http://0.0.0.0:4010");
    assert_eq!(chosen.protocol, "grpc");
}

#[test]
fn retry_decisions() {
    assert_eq!(next_retry_action(0, 30, AttemptOutcome::Succeeded), RetryAction::ReturnSuccess);
    assert_eq!(next_retry_action(0, 30, AttemptOutcome::Failed(StatusCode::NotFound)), RetryAction::ReturnFailure);
    assert_eq!(
        next_retry_action(3, 30, AttemptOutcome::Failed(StatusCode::Unavailable)),
        RetryAction::SleepThenRetry { retries: 4 }
    );
    assert_eq!(
        next_retry_action(29, 30, AttemptOutcome::Failed(StatusCode::Internal)),
        RetryAction::SleepThenRetry { retries: 30 }
    );
    assert_eq!(next_retry_action(30, 30, AttemptOutcome::Failed(StatusCode::Internal)), RetryAction::ReturnLastFailure);
}

#[test]
fn retry_loop_attempts_max_retries_plus_one_times() {
    let mut retries = 0;
    let mut attempts = 0;
    loop {
        attempts += 1;
        match next_retry_action(retries, 30, AttemptOutcome::Failed(StatusCode::Unavailable)) {
            RetryAction::SleepThenRetry { retries: r } => retries = r,
            other => {
                assert_eq!(other, RetryAction::ReturnLastFailure);
                break;
            }
        }
    }
    assert_eq!(attempts, 31);
}

#[test]
fn dtmi_topics() {
    assert_eq!(convert_dtmi_to_topic("dtmi:sdv:HVAC:AmbientAirTemperature;1").unwrap(), "sdv/HVAC/AmbientAirTemperature/1");
    assert_eq!(convert_dtmi_to_topic("dtmi").unwrap(), "");
    assert_eq!(convert_dtmi_to_topic("dtmi:").unwrap(), "");
    assert_eq!(convert_dtmi_to_topic("dtmi;a::b").unwrap(), "a//b");
    assert_eq!(convert_dtmi_to_topic("dtmx:sdv;1").unwrap_err(), "Invalid dtmi");
    assert_eq!(convert_dtmi_to_topic("").unwrap_err(), "Invalid dtmi");
}

#[test]
fn temperature_bounces_between_65_and_85() {
    assert_eq!(next_ambient_air_temperature(75, true), (76, true));
    assert_eq!(next_ambient_air_temperature(85, true), (84, false));
    assert_eq!(next_ambient_air_temperature(65, false), (66, true));
    assert_eq!(next_ambient_air_temperature(70, false), (69, false));
    let (mut t, mut up) = (75, true);
    for _ in 0..200 {
        let next = next_ambient_air_temperature(t, up);
        t = next.0;
        up = next.1;
        assert!((65..=85).contains(&t));
    }
}

#[test]
fn vehicle_climate_epochs() {
    let mut vehicle = VehicleClimate::new();
    assert_eq!(vehicle.ambient_air_temperature, 75);
    assert!(!vehicle.execute_epoch(false, true));
    assert_eq!(vehicle.ambient_air_temperature, 76);
    vehicle.is_air_conditioning_active = true;
    assert!(vehicle.execute_epoch(false, true));
    assert_eq!(vehicle.ambient_air_temperature, 75);
    assert!(!vehicle.execute_epoch(true, false));
    assert!(!vehicle.is_air_conditioning_active);
    assert_eq!(vehicle.ambient_air_temperature, 76);
    vehicle.ambient_air_temperature = 100;
    vehicle.execute_epoch(false, true);
    assert_eq!(vehicle.ambient_air_temperature, 100);
}

fn command_ids() -> CommandIds {
    CommandIds {
        activate_air_conditioning: "ac".to_string(),
        send_notification: "notify".to_string(),
        set_ui_message: "ui".to_string(),
    }
}

#[test]
fn mixed_invoke_commands() {
    let ids = command_ids();
    let mut vehicle = VehicleClimate::new();
    assert_eq!(mixed::perform_invoke(&mut vehicle, "ac", "true", &ids), "Successfully invoked ac");
    assert!(vehicle.is_air_conditioning_active);
    assert_eq!(mixed::perform_invoke(&mut vehicle, "ac", "maybe", &ids), "Failed to invoke ac due to: ParseBoolError");
    assert!(vehicle.is_air_conditioning_active);
    assert_eq!(mixed::perform_invoke(&mut vehicle, "ui", "hello", &ids), "Successfully invoked ui");
    assert_eq!(vehicle.ui_message, "hello");
    assert_eq!(mixed::perform_invoke(&mut vehicle, "notify", "n", &ids), "Successfully invoked notify");
    assert_eq!(mixed::perform_invoke(&mut vehicle, "one-id", "some-payload", &ids), "Error: The entity id one-id is not recognized.");
    assert!(mixed::activate_air_conditioning(&mut vehicle, "false").is_ok());
    assert!(!vehicle.is_air_conditioning_active);
}

#[test]
fn tutorial_provider_answers() {
    assert_eq!(tutorial::get_property_value("temp", "temp", "ac"), "42");
    assert_eq!(tutorial::get_property_value("ac", "temp", "ac"), "true");
    assert_eq!(tutorial::get_property_value("x", "temp", "ac"), "NULL");
    assert_eq!(tutorial::invoke_response("show", "Hello world", "show"), "Displaying notification 'Hello world'");
    assert_eq!(tutorial::invoke_response("x", "p", "show"), "Error notification: The entity id x is not recognized.");
}

fn targeted(operation: &str, payload: &str, instance_id: &str) -> TargetedPayload {
    TargetedPayload {
        instance_id: instance_id.to_string(),
        member_path: "".to_string(),
        operation: operation.to_string(),
        payload: payload.to_string(),
    }
}

#[test]
fn graph_ask_plans() {
    assert_eq!(graph::plan_vehicle_core_ask(&targeted("Get", "", "i")).unwrap(), AskPlan::Get);
    let status = graph::plan_vehicle_core_ask(&targeted("Get", "x", "i")).unwrap_err();
    assert_eq!(status.code, StatusCode::InvalidArgument);
    assert_eq!(status.message, "Unexpected payload, it should be empty");
    let status = graph::plan_vehicle_core_ask(&targeted("Invoke", "x", "i")).unwrap_err();
    assert_eq!(status.message, "Unexpected operation 'Invoke'.  Expected 'Get'.");
    assert_eq!(graph::plan_seat_massager_ask(&targeted("Invoke", "x", "i")).unwrap(), AskPlan::Invoke);
    assert_eq!(
        graph::plan_seat_massager_ask(&targeted("Invoke", "", "i")).unwrap_err().message,
        "Unexpected payload, it should NOT be empty"
    );
    assert_eq!(graph::plan_seat_massager_ask(&targeted("Set", "", "i")).unwrap_err().message, "Unexpected operation 'Set'");
}

#[test]
fn graph_instances_answer_gets_and_invokes() {
    let mut instance_map = TextMap::new();
    graph::add_entry_to_instance_map(
        &mut instance_map,
        "front_left_airbag_seat_massager".to_string(),
        "premium".to_string(),
        "A premium massager".to_string(),
        r#"{"@type":"premium","instance_id":"front_left_airbag_seat_massager"}"#.to_string(),
    );
    graph::add_entry_to_instance_map(
        &mut instance_map,
        "back_left_airbag_seat_massager".to_string(),
        "basic".to_string(),
        "A basic massager".to_string(),
        r#"{"@type":"basic"}"#.to_string(),
    );
    assert_eq!(instance_map.len(), 2);
    let state = graph::RequestState { instance_map };
    assert_eq!(
        graph::answer_for_get(&state.instance_map, "back_left_airbag_seat_massager").unwrap(),
        r#"{"@type":"basic"}"#
    );
    assert_eq!(
        graph::answer_for_get(&state.instance_map, "nowhere").unwrap_err(),
        "Instance not found for instance id 'nowhere'"
    );
    let ok = graph::answer_for_invoke(&state.instance_map, &targeted("Invoke", "{}", "front_left_airbag_seat_massager"), "premium");
    assert_eq!(ok.unwrap().unwrap(), "");
    let err = graph::answer_for_invoke(&state.instance_map, &targeted("Invoke", "{}", "back_left_airbag_seat_massager"), "premium");
    assert_eq!(
        err.unwrap().unwrap_err(),
        "The instance with the instance id 'back_left_airbag_seat_massager' does not support the operation 'Invoke'"
    );
    let missing = graph::answer_for_invoke(&state.instance_map, &targeted("Invoke", "{}", "nowhere"), "premium");
    assert_eq!(missing.unwrap().unwrap_err(), "Instance not found for instance id 'nowhere'");

    let mut broken_map = TextMap::new();
    graph::add_entry_to_instance_map(&mut broken_map, "x".to_string(), "m".to_string(), "d".to_string(), "not json".to_string());
    assert!(graph::answer_for_invoke(&broken_map, &targeted("Invoke", "{}", "x"), "premium").is_none());
}

#[test]
fn invoke_answers_by_model() {
    let premium = JsonMember::Text { text: "premium".to_string(), rendered: "\"premium\"".to_string() };
    assert_eq!(graph::invoke_answer_for_model(&premium, "premium", "i", "Invoke").unwrap(), "");
    let number = JsonMember::NonText("3".to_string());
    assert_eq!(
        graph::invoke_answer_for_model(&number, "premium", "i", "Invoke").unwrap_err(),
        "The instance with the instance id 'i' does not support the operation 'Invoke'"
    );
    assert!(graph::invoke_answer_for_model(&JsonMember::Absent, "premium", "i", "Invoke").is_err());
}

#[test]
fn published_massage_airbags_by_member() {
    let ok = seat_massager::published_massage_airbags(JsonMember::NonText("[1,2]".to_string()));
    assert_eq!(ok.unwrap().unwrap(), "[1,2]");
    let bad = seat_massager::published_massage_airbags(JsonMember::Malformed("expected value".to_string()));
    let status = bad.unwrap().unwrap_err();
    assert_eq!(status.code, StatusCode::InvalidArgument);
    assert_eq!(status.message, "expected value");
    assert!(seat_massager::published_massage_airbags(JsonMember::Absent).is_none());
}

#[test]
fn instance_map_replaces_and_removes() {
    let mut instance_map: TextMap<InstanceData> = TextMap::new();
    let data = |v: &str| InstanceData { model_id: "m".to_string(), description: "d".to_string(), serialized_value: v.to_string() };
    instance_map.insert("a".to_string(), data("1"));
    instance_map.insert("b".to_string(), data("2"));
    instance_map.insert("a".to_string(), data("3"));
    assert_eq!(instance_map.len(), 2);
    assert_eq!(instance_map.get("a").unwrap().serialized_value, "3");
    assert_eq!(instance_map.remove("a").unwrap().serialized_value, "3");
    assert!(instance_map.get("a").is_none());
    assert_eq!(instance_map.get("b").unwrap().serialized_value, "2");
    assert_eq!(instance_map.len(), 1);
}

fn seat(id: &str, row: i32, position: SeatPosition) -> SeatRelationship {
    SeatRelationship { instance_id: id.to_string(), seat_row: row, seat_position: position }
}

#[test]
fn seat_searches() {
    let seats = vec![
        seat("fl", 1, SeatPosition::Left),
        seat("fr", 1, SeatPosition::Right),
        seat("bl", 2, SeatPosition::Left),
        seat("fl2", 1, SeatPosition::Left),
    ];
    assert_eq!(digital_twin_graph::find_seat(&seats, 1, SeatPosition::Left).unwrap(), "fl");
    assert_eq!(digital_twin_graph::find_seat(&seats, 2, SeatPosition::Center).unwrap_err(), "The seat was not found");
    assert_eq!(digital_twin_graph::find_seat(&vec![], 1, SeatPosition::Left).unwrap_err(), "The cabin does not have any seats");
    assert_eq!(graph::find_front_left_seat(&seats).unwrap(), "fl2");
    assert_eq!(graph::find_front_left_seat(&vec![]).unwrap_err(), "The front left seat was not found");
    assert_eq!(
        digital_twin_graph::first_or_error(&vec![], "Unable to find vehicle instances").unwrap_err(),
        "Unable to find vehicle instances"
    );
    assert_eq!(digital_twin_graph::first_or_error(&vec!["v1".to_string(), "v2".to_string()], "e").unwrap(), "v1");
}

#[test]
fn premium_seat_massager_checks() {
    assert!(digital_twin_graph::check_premium_seat_massager(r#"{"@type":"premium"}"#, "premium").unwrap().is_ok());
    assert_eq!(
        digital_twin_graph::check_premium_seat_massager(r#"{"@type":"basic"}"#, "premium").unwrap().unwrap_err(),
        "The seat massager instance is not of the expected model, instead it is a \"basic\""
    );
    assert_eq!(
        digital_twin_graph::check_premium_seat_massager(r#"{"x":1}"#, "premium").unwrap().unwrap_err(),
        "The seat massager instance is not of the expected model, instead it is a null"
    );
    assert!(digital_twin_graph::check_premium_seat_massager("{", "premium").is_none());
}

#[test]
fn digital_twin_graph_instance_map() {
    let mut instance_map = TextMap::new();
    digital_twin_graph::add_entry_to_instance_map(&mut instance_map, "cabin".to_string(), "m".to_string(), "{}".to_string());
    assert_eq!(instance_map.get("cabin").unwrap().model_id, "m");
}

#[test]
fn chariott_grpc_service_selection() {
    let services = vec![
        DiscoveredService { schema_kind: "http".to_string(), url: "http://a".to_string() },
        DiscoveredService { schema_kind: "grpc+proto".to_string(), url: "http://b".to_string() },
        DiscoveredService { schema_kind: "grpc+proto".to_string(), url: "http://c".to_string() },
    ];
    assert_eq!(misc::select_grpc_service_url(Some(services)).unwrap(), "http://b");
    assert!(misc::select_grpc_service_url(None).is_none());
    assert!(misc::select_grpc_service_url(Some(vec![])).is_none());
}

#[test]
fn uri_sources() {
    match utils::invehicle_digital_twin_uri_source(Some("http://0.0.0.0:5010".to_string()), Some("c".to_string())).unwrap() {
        UriSource::Configured(u) => assert_eq!(u, "http://0.0.0.0:5010"),
        other => panic!("unexpected {other:?}"),
    }
    match utils::invehicle_digital_twin_uri_source(None, Some("http://0.0.0.0:50000".to_string())).unwrap() {
        UriSource::Chariott(u) => assert_eq!(u, "http://0.0.0.0:50000"),
        other => panic!("unexpected {other:?}"),
    }
    assert_eq!(
        utils::invehicle_digital_twin_uri_source(None, None).unwrap_err(),
        "The settings file must set a chariott_uri setting when the invehicle_digital_twin_uri is not set."
    );
    assert_eq!(
        misc::invehicle_digital_twin_url_source(None, None).unwrap_err(),
        "The settings file must set a chariott_url setting when the invehicle_digital_twin_url is not set."
    );
    assert_eq!(utils::resolve_invehicle_digital_twin_uri(Ok("u".to_string())).unwrap(), "u");
    assert_eq!(
        utils::resolve_invehicle_digital_twin_uri(Err("boom".to_string())).unwrap_err(),
        "Failed to discover the in-vehicle digital twin service's URI due to error: boom"
    );
    assert_eq!(
        misc::url_from_chariott(Ok(None)).unwrap_err(),
        "Failed to discover the in-vehicle digital twin service's URL, as it is not registered with Chariott"
    );
    assert_eq!(misc::url_from_chariott(Ok(Some("x".to_string()))).unwrap(), "x");
    assert_eq!(
        misc::url_from_chariott(Err("e".to_string())).unwrap_err(),
        "Failed to discover the in-vehicle digital twin service's URL due to error: e"
    );
}

#[test]
fn registry_service_checks() {
    let service = |kind: &str, reference: &str| ServiceMetadata {
        communication_kind: kind.to_string(),
        communication_reference: reference.to_string(),
        uri: "http://0.0.0.0:5010".to_string(),
    };
    assert_eq!(utils::service_uri_from_registry(Some(service("k", "other")), "k", "r").unwrap(), "http://0.0.0.0:5010");
    assert_eq!(utils::service_uri_from_registry(Some(service("other", "r")), "k", "r").unwrap(), "http://0.0.0.0:5010");
    let status = utils::service_uri_from_registry(Some(service("x", "y")), "k", "r").unwrap_err();
    assert_eq!(status.code, StatusCode::NotFound);
    let status = utils::service_uri_from_registry(None, "k", "r").unwrap_err();
    assert_eq!(status.message, "Did not find a service in Chariott with namespace '{namespace}', name '{name}' and version {version}");
    assert_eq!(
        utils::invehicle_digital_twin_uri_from_registry(Some(service("grpc+proto", "z"))).unwrap(),
        "http://0.0.0.0:5010"
    );
}

#[test]
fn config_paths_and_uris() {
    assert_eq!(utils::config_filename_path(Some("/home/ibeji".to_string()), "provider_settings"), "/home/ibeji/provider_settings");
    assert_eq!(utils::config_filename_path(None, "provider_settings"), "provider_settings");
    assert_eq!(utils::get_uri("http://0.0.0.0:5010").unwrap(), "http://0.0.0.0:5010");
}

#[test]
fn container_uri_rewrites() {
    assert_eq!(
        get_uri_in_container("http://localhost:5010", Ok("host.docker.internal".to_string()), Ok("localhost".to_string())).unwrap(),
        "http://host.docker.internal:5010"
    );
    let status = get_uri_in_container("u", Err("environment variable not found".to_string()), Ok("a".to_string())).unwrap_err();
    assert_eq!(status.code, StatusCode::FailedPrecondition);
    assert_eq!(status.message, "Unable to get environment var 'HOST_GATEWAY' with error: environment variable not found");
    let status = get_uri_in_container("u", Ok("g".to_string()), Err("nope".to_string())).unwrap_err();
    assert_eq!(status.message, "Unable to get environment var 'LOCALHOST_ALIAS' with error: nope");
}

#[test]
fn replace_matches_std() {
    for (s, from, to) in [
        ("abc", "", "x"),
        ("aaa", "aa", "b"),
        ("", "a", "b"),
        ("hello world", "o", "0"),
        ("abab", "ab", ""),
        ("abc", "abcd", "z"),
    ] {
        assert_eq!(replace(s, from, to), s.replace(from, to));
    }
}

#[test]
fn image_iterator_cycles() {
    let mut it = ImageFileIterator::new("images", vec!["a.jpg".to_string(), "b.jpg".to_string()]);
    assert_eq!(it.image_directory(), "images");
    assert_eq!(it.next_image_filename().unwrap(), "a.jpg");
    assert_eq!(it.next_image_filename().unwrap(), "b.jpg");
    assert_eq!(it.next_image_filename().unwrap(), "a.jpg");
    let mut empty = ImageFileIterator::new("images", vec![]);
    assert!(empty.next_image_filename().is_none());
}

#[test]
fn image_files_are_uuencoded() {
    assert_eq!(encode_image_file("wow.jpg", b"Cat"), "begin 644 wow.jpg\n#0V%T\n`\nend");
    assert_eq!(encode_image_file("e.jpg", b""), "begin 644 e.jpg\n`\nend");
}

#[test]
fn answer_wait_decisions() {
    assert!(seat_massager::keep_waiting(9));
    assert!(!seat_massager::keep_waiting(10));
    assert_eq!(
        seat_massager::next_answer_wait_action(0, "ask", &AnswerEvent::Received("ask".to_string())),
        AnswerWaitAction::Accept
    );
    assert_eq!(
        seat_massager::next_answer_wait_action(0, "ask", &AnswerEvent::Received("other".to_string())),
        AnswerWaitAction::Ignore
    );
    assert_eq!(seat_massager::next_answer_wait_action(3, "ask", &AnswerEvent::ChannelClosed), AnswerWaitAction::StopSteps);
    assert_eq!(
        seat_massager::next_answer_wait_action(3, "ask", &AnswerEvent::TimedOut),
        AnswerWaitAction::RetryAfterSleep { attempts: 4 }
    );
}

#[test]
fn seat_massager_provider_checks() {
    assert!(seat_massager::check_perform_step_request(r#"{"@type":"step"}"#, "step").unwrap().is_ok());
    assert_eq!(
        seat_massager::check_perform_step_request(r#"{"@type":"other"}"#, "step").unwrap().unwrap_err().message,
        "Unexpected type_id 'other'"
    );
    assert_eq!(
        seat_massager::check_perform_step_request("nope", "step").unwrap().unwrap_err().code,
        StatusCode::InvalidArgument
    );
    assert!(seat_massager::check_perform_step_request("{}", "step").is_none());
    let ok = seat_massager::answer_outcome(Ok(())).unwrap();
    assert_eq!((ok.code, ok.message.as_str()), (200, "Ok"));
    assert_eq!(
        seat_massager::answer_outcome(Err("channel closed".to_string())).unwrap_err().message,
        "Failed to send the answer request due to channel closed"
    );
}

#[test]
fn registrations_cover_every_instance() {
    let mut instance_map = TextMap::new();
    graph::add_entry_to_instance_map(&mut instance_map, "a".to_string(), "ma".to_string(), "da".to_string(), "{}".to_string());
    graph::add_entry_to_instance_map(&mut instance_map, "b".to_string(), "mb".to_string(), "db".to_string(), "{}".to_string());
    let state = graph::RequestState { instance_map };
    let list = graph::seat_massager_registrations(&state, "http://0.0.0.0:4010");
    assert_eq!(list.len(), 2);
    let first = &list[0];
    assert_eq!(first.name, "");
    assert_eq!(first.id, "ma");
    assert_eq!(first.description, "da");
    assert_eq!(first.endpoint_info_list.len(), 1);
    assert_eq!(first.endpoint_info_list[0].protocol, "grpc");
    assert_eq!(first.endpoint_info_list[0].operations, vec!["Get".to_string(), "Invoke".to_string()]);
    assert_eq!(first.endpoint_info_list[0].uri, "http://0.0.0.0:4010");
    assert_eq!(first.endpoint_info_list[0].context, "a");
    let provider_state = graph::ProviderState { instance_map: TextMap::new() };
    assert!(graph::vehicle_part_registrations(&provider_state, "u").is_empty());
}

#[test]
fn digital_twin_graph_registrations_and_layout() {
    let mut instance_map = TextMap::new();
    digital_twin_graph::add_entry_to_instance_map(&mut instance_map, "seat-1".to_string(), "seat-model".to_string(), "{}".to_string());
    let state = digital_twin_graph::ProviderState { instance_map };
    let list = digital_twin_graph::vehicle_part_registrations("vehicle_provider", "http://0.0.0.0:4010", &state);
    assert_eq!(list.len(), 1);
    assert_eq!(list[0].provider_id, "vehicle_provider");
    assert_eq!(list[0].instance_id, "seat-1");
    assert_eq!(list[0].model_id, "seat-model");
    assert_eq!(list[0].operations, vec!["Get".to_string()]);
    assert_eq!(list[0].context, "");

    let seats = digital_twin_graph::cabin_seats(
        "fl".to_string(),
        "fr".to_string(),
        "bl".to_string(),
        "bc".to_string(),
        "br".to_string(),
    );
    assert_eq!(digital_twin_graph::find_seat(&seats, 1, SeatPosition::Left).unwrap(), "fl");
    assert_eq!(digital_twin_graph::find_seat(&seats, 2, SeatPosition::Center).unwrap(), "bc");
    assert_eq!(graph::find_front_left_seat(&seats).unwrap(), "fl");
}
