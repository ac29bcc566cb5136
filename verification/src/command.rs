//! The command sample: a consumer that invokes the show-notification command
//! and a provider that performs it.

use vstd::prelude::*;
use crate::json::{inspect_json_member, JsonMember, JsonMemberView, json_member_of};
use crate::messages::{InvokeRequest, PublishRequest, RespondRequest};
use crate::status::{Status, StatusCode};

verus! {

/// The member of a show-notification request payload that holds the notification.
pub const NOTIFICATION_MEMBER: &'static str = "Notification";

/// The command sample's consumer.
#[derive(Debug)]
pub struct ConsumerImpl {}

impl ConsumerImpl {
    /// Publish implementation: this consumer takes no publications.
    ///
    /// # Arguments
    /// * `request` - Publish request.
    pub fn publish(&self, request: &PublishRequest) -> (r: Result<(), Status>)
        ensures
            r matches Err(s) && s.code == StatusCode::Unimplemented
                && s.message@ == "publish has not been implemented"@,
    {
        Err(Status::unimplemented(String::from_str("publish has not been implemented")))
    }

    /// Respond implementation: every response is accepted.
    ///
    /// # Arguments
    /// * `request` - Respond request.
    pub fn respond(&self, request: &RespondRequest) -> (r: Result<(), Status>)
        ensures
            r is Ok,
    {
        Ok(())
    }
}

/// The command sample's provider.
#[derive(Debug)]
pub struct ProviderImpl {}

/// The notification of a show-notification request, from what its payload
/// holds under the notification member: the parser's complaint about a
/// malformed payload is an invalid argument.
///
/// # Arguments
/// * `member` - What the payload holds under the notification member.
pub fn notification_from_member(member: JsonMember) -> (r: Result<String, Status>)
    requires
        member@ is Malformed || member@ is Text,
    ensures
        member@ matches JsonMemberView::Malformed(reason) ==> (r matches Err(s)
            && s.code == StatusCode::InvalidArgument && s.message@ == reason),
        member@ matches JsonMemberView::Text { text, .. } ==> (r matches Ok(n) && n@ == text),
{
    match member {
        JsonMember::Malformed(reason) => Err(Status::invalid_argument(reason)),
        JsonMember::Text { text, .. } => Ok(text),
        JsonMember::Absent => Err(Status::internal(String::new())),
        JsonMember::NonText(_) => Err(Status::internal(String::new())),
    }
}

impl ProviderImpl {
    /// Subscribe implementation: not offered.
    pub fn subscribe(&self) -> (r: Result<(), Status>)
        ensures
            r matches Err(s) && s.code == StatusCode::Unimplemented
                && s.message@ == "subscribe has not been implemented"@,
    {
        Err(Status::unimplemented(String::from_str("subscribe has not been implemented")))
    }

    /// Unsubscribe implementation: not offered.
    pub fn unsubscribe(&self) -> (r: Result<(), Status>)
        ensures
            r matches Err(s) && s.code == StatusCode::Unimplemented
                && s.message@ == "unsubscribe has not been implemented"@,
    {
        Err(Status::unimplemented(String::from_str("unsubscribe has not been implemented")))
    }

    /// Get implementation: not offered.
    pub fn get(&self) -> (r: Result<(), Status>)
        ensures
            r matches Err(s) && s.code == StatusCode::Unimplemented
                && s.message@ == "get has not been implemented"@,
    {
        Err(Status::unimplemented(String::from_str("get has not been implemented")))
    }

    /// Set implementation: not offered.
    pub fn set(&self) -> (r: Result<(), Status>)
        ensures
            r matches Err(s) && s.code == StatusCode::Unimplemented
                && s.message@ == "set has not been implemented"@,
    {
        Err(Status::unimplemented(String::from_str("set has not been implemented")))
    }

    /// Invoke implementation: read the notification from the request's
    /// payload. The result is the notification to show (after which the
    /// response is sent to the consumer), or an invalid argument when the
    /// payload is not JSON. `None` when the payload is JSON without a
    /// notification text, which the request cannot be served with.
    ///
    /// # Arguments
    /// * `request` - Invoke request.
    pub fn invoke(&self, request: &InvokeRequest) -> (r: Option<Result<String, Status>>)
        ensures
            r is None <==> ({
                let m = json_member_of(request.payload@, NOTIFICATION_MEMBER@);
                !(m is Malformed) && !(m is Text)
            }),
            json_member_of(request.payload@, NOTIFICATION_MEMBER@) matches JsonMemberView::Malformed(reason)
                ==> (r matches Some(Err(s)) && s.code == StatusCode::InvalidArgument && s.message@ == reason),
            json_member_of(request.payload@, NOTIFICATION_MEMBER@) matches JsonMemberView::Text { text, .. }
                ==> (r matches Some(Ok(n)) && n@ == text),
    {
        let member = inspect_json_member(request.payload.as_str(), NOTIFICATION_MEMBER);
        match member {
            JsonMember::Absent => None,
            JsonMember::NonText(_) => None,
            _ => Some(notification_from_member(member)),
        }
    }
}

} // verus!
