use ibeji_samples::command;
use ibeji_samples::messages::{InvokeRequest, PublishRequest, RespondRequest, SubscribeRequest};
use ibeji_samples::property;
use ibeji_samples::seat_massager;
use ibeji_samples::status::StatusCode;
use ibeji_samples::subscription::SubscriptionMap;
use uuid::Uuid;

#[test]
fn consumer_impl_respond_test() {
    let consumer_impl = command::ConsumerImpl {};

    let entity_id = String::from("some-id");
    let response_id = Uuid::new_v4().to_string();
    let payload = String::from("some-payload");

    let request = RespondRequest { entity_id, response_id, payload };
    let result = consumer_impl.respond(&request);
    assert!(result.is_ok());
}

#[test]
fn provider_impl_subscribe_test() {
    let mut subscription_map = SubscriptionMap::new();

    let first_id = String::from("one-id");
    let second_id = String::from("two-id");
    let first_uri = String::from("http://first.com:9000"); // Devskim: ignore DS137138
    let second_uri = String::from("http://second.com:9000"); // Devskim: ignore DS137138
    let third_uri = String::from("http://third.com:9000"); // Devskim: ignore DS137138

    let first_request = SubscribeRequest { entity_id: first_id.clone(), consumer_uri: first_uri.clone() };
    let first_result = property::subscribe(&mut subscription_map, first_request);
    assert!(first_result.is_ok());

    let second_request = SubscribeRequest { entity_id: first_id.clone(), consumer_uri: second_uri.clone() };
    let second_result = property::subscribe(&mut subscription_map, second_request);
    assert!(second_result.is_ok());

    let third_request = SubscribeRequest { entity_id: second_id.clone(), consumer_uri: third_uri.clone() };
    let third_result = property::subscribe(&mut subscription_map, third_request);
    assert!(third_result.is_ok());

    let first_get_result = subscription_map.get(&first_id);
    assert!(first_get_result.is_some());
    let first_value = first_get_result.unwrap();
    assert!(first_value.len() == 2);
    assert!(first_value.contains(&first_uri));
    assert!(first_value.contains(&second_uri));

    let second_get_result = subscription_map.get(&second_id);
    assert!(second_get_result.is_some());
    let second_value = second_get_result.unwrap();
    assert!(second_value.len() == 1);
    assert!(second_value.contains(&third_uri));
}

#[test]
fn subscribe_twice_keeps_one_entry() {
    let mut subscription_map = SubscriptionMap::new();
    subscription_map.subscribe("one-id".to_string(), "http://first.com:9000".to_string());
    subscription_map.subscribe("one-id".to_string(), "http://first.com:9000".to_string());
    assert_eq!(subscription_map.get("one-id").unwrap().len(), 1);
    assert_eq!(subscription_map.subscribers("one-id"), vec!["http://first.com:9000".to_string()]);
    assert!(subscription_map.subscribers("unknown-id").is_empty());
    assert!(subscription_map.get("unknown-id").is_none());
}

#[test]
fn command_consumer_rejects_publish() {
    let consumer_impl = command::ConsumerImpl {};
    let result = consumer_impl.publish(&PublishRequest { entity_id: "some-id".to_string(), value: "1".to_string() });
    let status = result.unwrap_err();
    assert_eq!(status.code, StatusCode::Unimplemented);
    assert_eq!(status.message, "publish has not been implemented");
}

#[test]
fn property_consumer_publish_and_respond() {
    let consumer_impl = property::ConsumerImpl {};
    let request = PublishRequest { entity_id: String::from("some-id"), value: String::from("some-value") };
    assert!(consumer_impl.publish(&request).is_ok());
    let respond = RespondRequest { entity_id: "some-id".to_string(), response_id: "r".to_string(), payload: "{}".to_string() };
    let status = consumer_impl.respond(&respond).unwrap_err();
    assert_eq!(status.code, StatusCode::Unimplemented);
    assert_eq!(status.message, "respond has not been implemented");
}

fn invoke_request(payload: &str) -> InvokeRequest {
    InvokeRequest {
        entity_id: "one-id".to_string(),
        consumer_uri: "bogus uri".to_string(),
        response_id: Uuid::new_v4().to_string(),
        payload: payload.to_string(),
    }
}

#[test]
fn command_provider_invoke_reads_notification() {
    let provider_impl = command::ProviderImpl {};
    let payload = r#"{"Notification":"The show-notification request.","$metadata":{"$model":"dtmi:sdv:HMI:ShowNotification:Request;1"}}"#;
    let result = provider_impl.invoke(&invoke_request(payload));
    assert_eq!(result.unwrap().unwrap(), "The show-notification request.");
}

#[test]
fn command_provider_invoke_rejects_malformed_payload() {
    let provider_impl = command::ProviderImpl {};
    let status = provider_impl.invoke(&invoke_request("not json")).unwrap().unwrap_err();
    assert_eq!(status.code, StatusCode::InvalidArgument);
    assert!(!status.message.is_empty());
}

#[test]
fn command_provider_invoke_without_notification() {
    let provider_impl = command::ProviderImpl {};
    assert!(provider_impl.invoke(&invoke_request(r#"{"Other":"x"}"#)).is_none());
    assert!(provider_impl.invoke(&invoke_request(r#"{"Notification":3}"#)).is_none());
}

#[test]
fn command_provider_other_operations_unimplemented() {
    let provider_impl = command::ProviderImpl {};
    assert_eq!(provider_impl.subscribe().unwrap_err().message, "subscribe has not been implemented");
    assert_eq!(provider_impl.unsubscribe().unwrap_err().message, "unsubscribe has not been implemented");
    assert_eq!(provider_impl.get().unwrap_err().message, "get has not been implemented");
    assert_eq!(provider_impl.set().unwrap_err().code, StatusCode::Unimplemented);
}

#[test]
fn seat_massager_consumer_publish_test() {
    let consumer_impl = seat_massager::ConsumerImpl {};
    let value = r#"{"MassageAirbags":[],"$metadata":{"$model":"dtmi:sdv:AirbagSeatMassager:MassageAirbags;1"}}"#;
    let request = PublishRequest { entity_id: String::from("some-entity-id"), value: value.to_string() };
    let result = consumer_impl.publish(&request);
    assert_eq!(result.unwrap().unwrap(), "[]");
}

#[test]
fn seat_massager_consumer_respond_test() {
    let consumer_impl = seat_massager::ConsumerImpl {};
    let request = RespondRequest {
        entity_id: String::from("some-entity-id"),
        response_id: String::from("some-response-id"),
        payload: "{}".to_string(),
    };
    assert!(consumer_impl.respond(&request).is_err());
}
