//! The property sample: a consumer of published values, and a provider that
//! records subscriptions.

use vstd::prelude::*;
use crate::messages::{PublishRequest, RespondRequest, SubscribeRequest};
use crate::status::{Status, StatusCode};
use crate::subscription::{SubscriptionMap, spec_subscribe};

verus! {

/// The property sample's consumer.
#[derive(Debug)]
pub struct ConsumerImpl {}

impl ConsumerImpl {
    /// Publish implementation: every published value is accepted.
    ///
    /// # Arguments
    /// * `request` - Publish request.
    pub fn publish(&self, request: &PublishRequest) -> (r: Result<(), Status>)
        ensures
            r is Ok,
    {
        Ok(())
    }

    /// Respond implementation: this consumer takes no responses.
    ///
    /// # Arguments
    /// * `request` - Respond request.
    pub fn respond(&self, request: &RespondRequest) -> (r: Result<(), Status>)
        ensures
            r matches Err(s) && s.code == StatusCode::Unimplemented
                && s.message@ == "respond has not been implemented"@,
    {
        Err(Status::unimplemented(String::from_str("respond has not been implemented")))
    }
}

/// Subscribe implementation shared by the providers that record
/// subscriptions: the consumer is added to the entity's subscribers.
///
/// # Arguments
/// * `subscription_map` - The provider's subscriptions.
/// * `request` - Subscribe request.
pub fn subscribe(subscription_map: &mut SubscriptionMap, request: SubscribeRequest) -> (r: Result<(), Status>)
    ensures
        r is Ok,
        final(subscription_map)@ == spec_subscribe(old(subscription_map)@, request.entity_id@, request.consumer_uri@),
{
    subscription_map.subscribe(request.entity_id, request.consumer_uri);
    Ok(())
}

} // verus!
