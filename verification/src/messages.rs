//! The contents of the requests that consumers and providers exchange.

use vstd::prelude::*;

verus! {

/// A provider publishes a value of an entity to a consumer.
#[derive(Debug)]
pub struct PublishRequest {
    pub entity_id: String,
    pub value: String,
}

/// A provider responds to a consumer's invoke.
#[derive(Debug)]
pub struct RespondRequest {
    pub entity_id: String,
    pub response_id: String,
    pub payload: String,
}

/// A consumer invokes a command on a provider.
#[derive(Debug)]
pub struct InvokeRequest {
    pub entity_id: String,
    pub consumer_uri: String,
    pub response_id: String,
    pub payload: String,
}

/// A consumer subscribes to an entity's values.
#[derive(Debug)]
pub struct SubscribeRequest {
    pub entity_id: String,
    pub consumer_uri: String,
}

} // verus!
